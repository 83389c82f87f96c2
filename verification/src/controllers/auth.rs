//! The actions on sessions, through one client.
use crate::kuzzle::Kuzzle;
use crate::protocols::Protocol;
use crate::types::{KuzzleRequest, QueryOptions};
use vstd::prelude::*;

verus! {

/// The actions on sessions, through one client.
pub struct AuthController<'a, P: Protocol>(pub &'a Kuzzle<P>);

impl<'a, P: Protocol> AuthController<'a, P> {
    /// Sends the request `auth`/`login`. What the transport answers is dropped.
    pub fn login(&self, options: QueryOptions) {
        let req = KuzzleRequest::new("auth", "login");
        let _ = self.kuzzle().query(req, options);
    }

    fn kuzzle(&self) -> (r: &'a Kuzzle<P>)
        ensures
            r == self.0,
    {
        self.0
    }
}

} // verus!
