//! Error types.

use vstd::prelude::*;
use aya_obj::btf::BtfError;

verus! {

/// The reason why an extension cannot be loaded for a target.
#[derive(Debug, Clone, Copy, PartialEq, Eq, Structural)]
pub enum ExtensionError {
    /// The target program was loaded without type information.
    NoBTF,
}

impl ExtensionError {
    /// The text shown to a user.
    pub fn message(&self) -> (text: &'static str)
        ensures
            text@ == "target BPF program does not have BTF loaded to the kernel"@,
    {
        "target BPF program does not have BTF loaded to the kernel"
    }
}

/// The kernel calls that the operations of this crate ask for.
#[derive(Debug, Clone, Copy, PartialEq, Eq, Structural)]
pub enum Syscall {
    /// Reads the description of a program or of a type description blob.
    ObjGetInfoByFd,
    /// Opens a type description blob by its number.
    BtfGetFdById,
    /// Loads a program.
    ProgLoad,
    /// Creates a link.
    LinkCreate,
}

impl Syscall {
    pub open spec fn spec_name(self) -> Seq<char> {
        match self {
            Syscall::ObjGetInfoByFd => "bpf_obj_get_info_by_fd"@,
            Syscall::BtfGetFdById => "bpf_btf_get_fd_by_id"@,
            Syscall::ProgLoad => "bpf_prog_load"@,
            Syscall::LinkCreate => "bpf_link_create"@,
        }
    }

    /// The name under which the call is reported.
    pub fn name(self) -> (text: &'static str)
        ensures
            text@ == self.spec_name(),
    {
        match self {
            Syscall::ObjGetInfoByFd => "bpf_obj_get_info_by_fd",
            Syscall::BtfGetFdById => "bpf_btf_get_fd_by_id",
            Syscall::ProgLoad => "bpf_prog_load",
            Syscall::LinkCreate => "bpf_link_create",
        }
    }
}

/// What can go wrong while an extension is loaded or attached.
#[derive(Debug)]
pub enum ProgramError {
    /// The program is loaded, or is being loaded.
    AlreadyLoaded,
    /// The program has not been loaded.
    NotLoaded,
    /// No live link has the given id.
    NotAttached,
    /// The target cannot be extended.
    ExtensionError(ExtensionError),
    /// The target's type description could not be read, or holds no function
    /// of the name asked for.
    Btf(BtfError),
    /// The target's type description cannot be handed to the parser: it
    /// names a function through an offset that lies outside its strings,
    /// gives a variable a linkage that does not exist, or has a header
    /// whose lengths do not add up in a machine word.
    MalformedBtf,
    /// The kernel refused a call.
    SyscallError {
        /// The call that failed.
        call: Syscall,
        /// The error number that the kernel gave.
        io_error: i32,
    },
}

} // verus!
