//! The actions on the memory storage, through one client.
use crate::kuzzle::Kuzzle;
use crate::protocols::Protocol;
use vstd::prelude::*;

verus! {

/// The actions on the memory storage, through one client.
pub struct MemoryStorageController<'a, P: Protocol>(pub &'a Kuzzle<P>);

} // verus!
