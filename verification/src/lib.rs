//! A client for Kuzzle servers.
//!
//! A call is described by a [`types::KuzzleRequest`], resolved by a transport
//! into a wire call, and answered by a [`types::KuzzleResponse`] or an error.
pub mod controllers;
pub mod json;
pub mod kuzzle;
pub mod keyed;
pub mod protocols;
pub mod text;
pub mod types;
