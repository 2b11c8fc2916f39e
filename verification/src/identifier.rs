//! The `Id` type: a Controller Area Network (CAN) identifier specific to a
//! protocol.
//!
//! `Id` is parameterized over a protocol marker implementing [`IsProtocol`].
//! The marker fixes which packed bit layout the identifier wraps, which
//! accessors exist, and which numeric range the fallible constructors accept,
//! so identifiers of different protocols cannot be mixed even though each is
//! ultimately an unsigned integer.

use vstd::prelude::*;

verus! {

/// Marks a type, relating it to a specific protocol.
pub trait IsProtocol {}

/// A CAN identifier of the protocol whose bit layout is `P`.
#[derive(Debug, Clone, Copy, PartialEq, Eq, PartialOrd, Ord)]
pub struct Id<P: IsProtocol>(pub P);

} // verus!
