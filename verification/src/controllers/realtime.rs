//! The actions on subscriptions, through one client.
use crate::kuzzle::Kuzzle;
use crate::protocols::Protocol;
use crate::types::{KuzzleRequest, QueryOptions};
use vstd::prelude::*;

verus! {

/// The actions on subscriptions, through one client.
pub struct RealtimeController<'a, P: Protocol>(pub &'a Kuzzle<P>);

impl<'a, P: Protocol> RealtimeController<'a, P> {
    /// Sends the request `realtime`/`subscribe`. What the transport answers is dropped.
    pub fn subscribe(&self, options: QueryOptions) {
        let req = KuzzleRequest::new("realtime", "subscribe");
        let _ = self.kuzzle().query(req, options);
    }

    fn kuzzle(&self) -> (r: &'a Kuzzle<P>)
        ensures
            r == self.0,
    {
        self.0
    }
}

} // verus!
