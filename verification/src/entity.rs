//! Entity identifiers.

use vstd::prelude::*;

verus! {

/// An opaque integer handle naming one entity. Ids are unique within a
/// world's lifetime, strictly increasing, and never reused; the id carries
/// no payload beyond its identity.
#[derive(Clone, Copy, PartialEq, Eq, Structural, Hash, Debug)]
pub struct EntityId(pub u32);

} // verus!

