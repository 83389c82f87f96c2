//! The actions on documents, through one client.
use crate::kuzzle::Kuzzle;
use crate::protocols::Protocol;
use crate::types::{KuzzleRequest, QueryOptions};
use vstd::prelude::*;

verus! {

/// The actions on documents, through one client.
pub struct DocumentController<'a, P: Protocol>(pub &'a Kuzzle<P>);

impl<'a, P: Protocol> DocumentController<'a, P> {
    /// Sends the request `document`/`create`. What the transport answers is dropped.
    pub fn create(&self, options: QueryOptions) {
        let req = KuzzleRequest::new("document", "create");
        let _ = self.kuzzle().query(req, options);
    }

    fn kuzzle(&self) -> (r: &'a Kuzzle<P>)
        ensures
            r == self.0,
    {
        self.0
    }
}

} // verus!
