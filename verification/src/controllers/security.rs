//! The actions on users and rights, through one client.
use crate::kuzzle::Kuzzle;
use crate::protocols::Protocol;
use crate::types::{KuzzleRequest, QueryOptions};
use vstd::prelude::*;

verus! {

/// The actions on users and rights, through one client.
pub struct SecurityController<'a, P: Protocol>(pub &'a Kuzzle<P>);

impl<'a, P: Protocol> SecurityController<'a, P> {
    /// Sends the request `security`/`createCredentials`. What the transport answers is dropped.
    pub fn create_credentials(&self, options: QueryOptions) {
        let req = KuzzleRequest::new("security", "createCredentials");
        let _ = self.kuzzle().query(req, options);
    }

    fn kuzzle(&self) -> (r: &'a Kuzzle<P>)
        ensures
            r == self.0,
    {
        self.0
    }
}

} // verus!
