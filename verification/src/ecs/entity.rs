//! Handles of scene entities.

use vstd::prelude::*;

verus! {

/// The handle by which the scene knows an entity.
#[derive(Copy, Clone, Debug, PartialEq, Eq, Structural)]
pub struct Entity(pub u64);

} // verus!
