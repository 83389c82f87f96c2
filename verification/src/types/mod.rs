//! The values that travel between the caller, the controllers and the
//! transports.
mod errors;
mod options;
mod payload;
mod request;
mod response;

pub use self::errors::{
    description_of, kuzzle_error_text, protocol_error_text, query_error_text, sdk_error_text,
    status_text, text_of, KuzzleError, KuzzleErrorView, ProtocolError,
    ProtocolErrorView, QueryError, QueryErrorView, SdkError, SdkErrorView,
};
pub use self::payload::Payload;
pub use self::request::{KuzzleRequest, RequestView};
pub use self::response::{
    decoded_error, decoded_response, error_of, lemma_response_keeps_document, optional_error,
    optional_status, optional_text, optional_volatile, reading_of, required_status,
    required_text, status_of, volatile_of, KuzzleResponse, ResponseView,
};
pub use self::options::{millis_of, KuzzleOptions, OfflineMode, OptionsView, QueryOptions};
