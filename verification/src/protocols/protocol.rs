//! What every transport offers.
use crate::types::{KuzzleRequest, KuzzleResponse, ProtocolError, QueryOptions, RequestView};
use vstd::prelude::*;

verus! {

/// A transport: a way to send a request to the server and to get its
/// response.
///
/// `send` is the one operation that every transport has. The others manage
/// a connection, a queue of requests and listeners; a transport that has no
/// such thing answers them with `ProtocolError::Unsupported`, so that a
/// caller is never led to believe that something was connected, queued or
/// registered.
pub trait Protocol {
    /// Whether `reply` is an answer of this transport to `request`. The
    /// transport says what its answers are, and `send` gives one of them;
    /// a transport that says nothing may answer anything.
    open spec fn answers(
        &self,
        request: RequestView,
        reply: Result<KuzzleResponse, ProtocolError>,
    ) -> bool {
        true
    }

    /// Registers a listener for one event.
    fn once(&self) -> Result<(), ProtocolError>;

    /// Counts the listeners of an event.
    fn listener_count(&self) -> Result<(), ProtocolError>;

    /// Connects to the server.
    fn connect(&self) -> Result<(), ProtocolError>;

    /// Sends `request` and waits for the response. A response that holds an
    /// error of the backend is a response: it is given back as it came.
    fn send(&self, request: KuzzleRequest, options: QueryOptions) -> (r: Result<
        KuzzleResponse,
        ProtocolError,
    >)
        ensures
            self.answers(request@, r),
    ;

    /// Closes the connection.
    fn close(&self) -> Result<(), ProtocolError>;

    /// Tells the state of the connection.
    fn state(&self) -> Result<(), ProtocolError>;

    /// Gives the requests sent so far.
    fn request_history(&self) -> Result<(), ProtocolError>;

    /// Starts to queue the requests.
    fn start_queuing(&self) -> Result<(), ProtocolError>;

    /// Stops to queue the requests.
    fn stop_queuing(&self) -> Result<(), ProtocolError>;

    /// Empties the queue.
    fn clear_queue(&self) -> Result<(), ProtocolError>;
}

} // verus!
