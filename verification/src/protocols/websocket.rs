//! The transport over a WebSocket. It is a place holder: it keeps its
//! options and offers nothing yet.
use crate::protocols::protocol::Protocol;
use crate::types::{
    KuzzleOptions, KuzzleRequest, KuzzleResponse, OptionsView, ProtocolError, ProtocolErrorView,
    QueryOptions, RequestView,
};
use vstd::prelude::*;

verus! {

/// A transport over a WebSocket.
#[derive(Debug)]
pub struct Websocket {
    _options: KuzzleOptions,
}

/// The failure of an operation that a transport does not offer.
pub open spec fn unsupported(operation: Seq<char>) -> ProtocolErrorView {
    ProtocolErrorView::Unsupported { operation }
}

fn refuse(operation: &str) -> (r: ProtocolError)
    ensures
        r@ == unsupported(operation@),
{
    ProtocolError::Unsupported { operation: operation.to_owned() }
}

impl Websocket {
    /// The options that the transport was made with.
    pub closed spec fn options(&self) -> OptionsView {
        self._options@
    }

    /// A transport to the server that `options` name.
    pub fn new(options: KuzzleOptions) -> (r: Websocket)
        ensures
            r.options() == options@,
    {
        Websocket { _options: options }
    }
}

impl Protocol for Websocket {
    /// Every request is answered by the failure of `send`.
    open spec fn answers(
        &self,
        request: RequestView,
        reply: Result<KuzzleResponse, ProtocolError>,
    ) -> bool {
        reply is Err && reply->Err_0@ == unsupported("send"@)
    }

    fn once(&self) -> (r: Result<(), ProtocolError>)
        ensures
            r is Err && r->Err_0@ == unsupported("once"@),
    {
        Err(refuse("once"))
    }

    fn listener_count(&self) -> (r: Result<(), ProtocolError>)
        ensures
            r is Err && r->Err_0@ == unsupported("listener_count"@),
    {
        Err(refuse("listener_count"))
    }

    fn connect(&self) -> (r: Result<(), ProtocolError>)
        ensures
            r is Err && r->Err_0@ == unsupported("connect"@),
    {
        Err(refuse("connect"))
    }

    fn send(&self, request: KuzzleRequest, options: QueryOptions) -> (r: Result<
        KuzzleResponse,
        ProtocolError,
    >)
    {
        Err(refuse("send"))
    }

    fn close(&self) -> (r: Result<(), ProtocolError>)
        ensures
            r is Err && r->Err_0@ == unsupported("close"@),
    {
        Err(refuse("close"))
    }

    fn state(&self) -> (r: Result<(), ProtocolError>)
        ensures
            r is Err && r->Err_0@ == unsupported("state"@),
    {
        Err(refuse("state"))
    }

    fn request_history(&self) -> (r: Result<(), ProtocolError>)
        ensures
            r is Err && r->Err_0@ == unsupported("request_history"@),
    {
        Err(refuse("request_history"))
    }

    fn start_queuing(&self) -> (r: Result<(), ProtocolError>)
        ensures
            r is Err && r->Err_0@ == unsupported("start_queuing"@),
    {
        Err(refuse("start_queuing"))
    }

    fn stop_queuing(&self) -> (r: Result<(), ProtocolError>)
        ensures
            r is Err && r->Err_0@ == unsupported("stop_queuing"@),
    {
        Err(refuse("stop_queuing"))
    }

    fn clear_queue(&self) -> (r: Result<(), ProtocolError>)
        ensures
            r is Err && r->Err_0@ == unsupported("clear_queue"@),
    {
        Err(refuse("clear_queue"))
    }
}

} // verus!
