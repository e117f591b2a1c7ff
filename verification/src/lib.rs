//! An address-keyed registry ("bucket") of network-reachable peer
//! descriptors ("nodes"), explored in three designs: a registry fixed to one
//! concrete node type, a registry generic over a node capability, and a
//! registry holding a heterogeneous collection of nodes behind a dynamic
//! handle. A small side demo contrasts static and dynamic invocation of a
//! formatting capability on plain integers.

use vstd::prelude::*;

pub mod dispatch;
pub mod generics;
pub mod homogeneous;
pub mod laws;
pub mod trait_objects;

verus! {

/// An opaque, unique, copyable identifier for a node; the registry key.
/// Equal addresses denote the same logical node.
pub type Address = u64;

} // verus!
