//! Loading and attaching of extension programs: programs that replace one
//! function of a program which the kernel already holds.
//!
//! The kernel is never called from here. Each operation is cut at its kernel
//! calls: the functions of this crate say which call comes next and take the
//! kernel's answer as an argument, so that every decision between two calls is
//! stated and proved.

pub mod blob;
pub mod error;
pub mod extension;
pub mod handles;
pub mod links;
pub mod resolver;
pub mod type_graph;

pub use error::{ExtensionError, ProgramError, Syscall};
pub use extension::{
    AttachParameters, AttachRefused, Extension, ExtensionState, LinkPlan, LinkRequest,
    LoadRefused, LoadRequest,
};
pub use handles::{LinkHandle, ProgramHandle, TypeGraphHandle};
pub use links::{LinkId, LinkTable};
pub use resolver::{Resolution, Resolved};
