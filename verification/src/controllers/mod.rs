//! The controllers: the actions of the server, by family.
mod auth;
mod bulk;
mod collection;
mod document;
mod index;
mod memory_storage;
mod realtime;
mod reply;
mod security;
mod server;

pub use self::auth::AuthController;
pub use self::bulk::BulkController;
pub use self::collection::CollectionController;
pub use self::document::DocumentController;
pub use self::index::{empty_index, empty_indexes, index_request, IndexController};
pub use self::memory_storage::MemoryStorageController;
pub use self::realtime::RealtimeController;
pub use self::reply::{
    acknowledged, agrees, agrees_on_names, agrees_on_object, all_texts, flag, flag_at,
    name_views, names_at, number_at, object, outcome, read_flag, read_flag_at, read_names_at,
    read_nothing, read_number_at, read_object, refusal, reply_view, result_in, result_of,
    unexpected, ReplyView,
};
pub use self::security::SecurityController;
pub use self::server::{
    bad_timestamp, check_timestamp, is_timestamp, stats_request, ServerController,
};
