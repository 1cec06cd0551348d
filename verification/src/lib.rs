//! Client-side model of a remote accessibility object tree.
//!
//! Each node of the tree is a remote object addressed by an endpoint name and
//! an object path. The library holds the verified logic of the client: node
//! identity, the null-child sentinel, the child-enumeration state machine and
//! the composite snapshot assembly. The remote calls themselves are issued by
//! the surrounding program, which feeds their replies into these functions.

use vstd::prelude::*;

pub mod handle;
pub mod snapshot;
pub mod stream;

verus! {

/// Default per-call deadline, in milliseconds, used when a node handle is
/// constructed without an explicit deadline.
pub const TIMEOUT_MS: u64 = 1000;

} // verus!
