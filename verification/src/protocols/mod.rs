//! The transports: how a request reaches the server.
mod http;
mod placeholders;
mod protocol;
mod routes;
mod websocket;

pub use self::http::{
    lemma_call_follows_route, lemma_resolving_is_repeatable, lemma_unknown_route_is_told,
    attached, is_method, is_token_char, method_text, or_empty, parsed_url, resolution,
    resolved_path, server_url, url_text, CallView, Http, HttpCall,
};
pub use self::placeholders::{
    colons_marked, is_plain, is_stray, is_template, lemma_no_placeholder_remains,
};
pub use self::protocol::Protocol;
pub use self::routes::{
    actions_of, decoded_actions, decoded_route, decoded_routes, lookup, routes_reading_of,
    table_of, Route, RouteView, Routes, TableView,
};
pub use self::websocket::{unsupported, Websocket};
