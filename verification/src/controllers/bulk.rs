//! The actions on many documents at once, through one client.
use crate::kuzzle::Kuzzle;
use crate::protocols::Protocol;
use crate::types::{KuzzleRequest, QueryOptions};
use vstd::prelude::*;

verus! {

/// The actions on many documents at once, through one client.
pub struct BulkController<'a, P: Protocol>(pub &'a Kuzzle<P>);

impl<'a, P: Protocol> BulkController<'a, P> {
    /// Sends the request `bulk`/`import`. What the transport answers is dropped.
    pub fn import(&self, options: QueryOptions) {
        let req = KuzzleRequest::new("bulk", "import");
        let _ = self.kuzzle().query(req, options);
    }

    fn kuzzle(&self) -> (r: &'a Kuzzle<P>)
        ensures
            r == self.0,
    {
        self.0
    }
}

} // verus!
