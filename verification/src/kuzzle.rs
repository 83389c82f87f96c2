//! The client.
use crate::controllers::{
    AuthController, BulkController, CollectionController, DocumentController, IndexController,
    MemoryStorageController, RealtimeController, SecurityController, ServerController,
};
use crate::protocols::Protocol;
use crate::types::{KuzzleRequest, KuzzleResponse, ProtocolError, QueryOptions, RequestView};
use vstd::prelude::*;

verus! {

/// The client of a Kuzzle server: one transport, and the token of the
/// session that was opened through it.
pub struct Kuzzle<P: Protocol> {
    _protocol: P,
    _jwt: String,
}

impl<P: Protocol> Kuzzle<P> {
    /// Whether `reply` is an answer of the client's transport to `request`.
    pub closed spec fn answers(
        &self,
        request: RequestView,
        reply: Result<KuzzleResponse, ProtocolError>,
    ) -> bool {
        self._protocol.answers(request, reply)
    }

    /// The token of the session.
    pub closed spec fn token(&self) -> Seq<char> {
        self._jwt@
    }

    /// A client that speaks through `protocol`, without a session.
    pub fn new(protocol: P) -> (r: Kuzzle<P>)
        ensures
            r.token() == Seq::<char>::empty(),
            forall|request: RequestView, reply: Result<KuzzleResponse, ProtocolError>|
                #[trigger] r.answers(request, reply) == protocol.answers(request, reply),
    {
        Kuzzle { _protocol: protocol, _jwt: String::new() }
    }

    /// Sends `request` through the transport and gives back what the
    /// transport answered, as it came.
    pub fn query(&self, request: KuzzleRequest, options: QueryOptions) -> (r: Result<
        KuzzleResponse,
        ProtocolError,
    >)
        ensures
            self.answers(request@, r),
    {
        self._protocol.send(request, options)
    }

    /// The token of the session.
    pub fn jwt(&self) -> (r: String)
        ensures
            r@ == self.token(),
    {
        self._jwt.clone()
    }

    /// Sets the token of the session. The transport stays as it is.
    pub fn set_jwt(&mut self, jwt: String)
        ensures
            final(self).token() == jwt@,
            forall|request: RequestView, reply: Result<KuzzleResponse, ProtocolError>|
                #[trigger] final(self).answers(request, reply) == old(self).answers(
                    request,
                    reply,
                ),
    {
        self._jwt = jwt;
    }

    /// The actions on sessions, through this client.
    pub fn auth(&self) -> (r: AuthController<'_, P>)
        ensures
            r.0 == self,
    {
        AuthController(self)
    }

    /// The actions on many documents at once, through this client.
    pub fn bulk(&self) -> (r: BulkController<'_, P>)
        ensures
            r.0 == self,
    {
        BulkController(self)
    }

    /// The actions on collections, through this client.
    pub fn collection(&self) -> (r: CollectionController<'_, P>)
        ensures
            r.0 == self,
    {
        CollectionController(self)
    }

    /// The actions on documents, through this client.
    pub fn document(&self) -> (r: DocumentController<'_, P>)
        ensures
            r.0 == self,
    {
        DocumentController(self)
    }

    /// The actions on indexes, through this client.
    pub fn index(&self) -> (r: IndexController<'_, P>)
        ensures
            r.0 == self,
    {
        IndexController(self)
    }

    /// The actions on the memory storage, through this client.
    pub fn ms(&self) -> (r: MemoryStorageController<'_, P>)
        ensures
            r.0 == self,
    {
        MemoryStorageController(self)
    }

    /// The actions on subscriptions, through this client.
    pub fn realtime(&self) -> (r: RealtimeController<'_, P>)
        ensures
            r.0 == self,
    {
        RealtimeController(self)
    }

    /// The actions on users and rights, through this client.
    pub fn security(&self) -> (r: SecurityController<'_, P>)
        ensures
            r.0 == self,
    {
        SecurityController(self)
    }

    /// The actions on the server itself, through this client.
    pub fn server(&self) -> (r: ServerController<'_, P>)
        ensures
            r.0 == self,
    {
        ServerController(self)
    }
}

} // verus!
