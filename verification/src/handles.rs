//! Kernel resource handles, held as the descriptor numbers the kernel gave out.
//!
//! None of them is `Clone`: a handle is moved to whoever has to close it.

use vstd::prelude::*;

verus! {

/// A program that the kernel holds.
#[derive(Debug, PartialEq, Eq, Structural)]
pub struct ProgramHandle {
    pub fd: i32,
}

/// A type description blob that the kernel holds.
#[derive(Debug, PartialEq, Eq, Structural)]
pub struct TypeGraphHandle {
    pub fd: i32,
}

/// A live link between an extension and the function it replaces.
#[derive(Debug, PartialEq, Eq, Structural)]
pub struct LinkHandle {
    pub fd: i32,
}

} // verus!
