//! The single rejection outcome surfaced at the client boundary.
//!
//! Decode failures, disallowed message kinds and non-client origins are all
//! collapsed into one error kind on purpose: a remote peer must not be able
//! to use the returned error as an oracle for the node's internal message
//! taxonomy.

use vstd::prelude::*;

verus! {

/// An error local to the input being processed; never fatal to the node.
#[derive(Debug)]
pub enum Error {
    /// A logic error: the input broke a rule of the boundary.
    Logic(String),
}

} // verus!
