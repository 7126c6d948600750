//! Finding a function of a loaded program: from the program to the handle of
//! its type description and the id of the function in it.
//!
//! A resolution takes three kernel calls. A `Resolution` says which call is
//! due, or how the resolution ended; each of its functions takes the answer
//! to one call and gives the `Resolution` that follows.

use vstd::prelude::*;
use crate::error::{ExtensionError, ProgramError, Syscall};
use crate::handles::TypeGraphHandle;
use crate::blob::{names_are_readable, names_readable, HEADER_LEN};
use crate::type_graph::{func_id_by_name, parse_type_graph};

verus! {

/// The length of the buffer that the first fetch of a blob is made with.
pub const INITIAL_BUFFER_LEN: usize = 4096;

/// What a resolution found.
#[derive(Debug, PartialEq, Eq, Structural)]
pub struct Resolved {
    /// The type description of the target program. Whoever holds it closes it.
    pub handle: TypeGraphHandle,
    /// The id of the function within that type description.
    pub type_id: u32,
}

/// Where a resolution stands.
#[derive(Debug)]
pub enum Resolution {
    /// Due: the description of the target program.
    NeedProgramInfo,
    /// Due: a handle to the type description with this number.
    NeedTypeGraph { type_info_id: u32 },
    /// Due: a fetch of the blob behind `handle` into `buf`.
    NeedBlob { handle: TypeGraphHandle, buf: Vec<u8> },
    /// The function was found.
    Resolved(Resolved),
    /// The resolution failed. `close` is the handle that it had opened by
    /// then, which the caller closes.
    Failed { error: ProgramError, close: Option<TypeGraphHandle> },
}

/// The failure of a kernel call.
pub open spec fn syscall_failure(
    call: Syscall,
    io_error: i32,
    close: Option<TypeGraphHandle>,
) -> Resolution {
    Resolution::Failed { error: ProgramError::SyscallError { call, io_error }, close }
}

/// The step after the description of the target program.
pub open spec fn after_program_info(info: Result<u32, i32>) -> Resolution {
    match info {
        Err(io_error) => syscall_failure(Syscall::ObjGetInfoByFd, io_error, None),
        Ok(type_info_id) => if type_info_id == 0 {
            Resolution::Failed {
                error: ProgramError::ExtensionError(ExtensionError::NoBTF),
                close: None,
            }
        } else {
            Resolution::NeedTypeGraph { type_info_id }
        },
    }
}

/// The end of a resolution whose blob was searched with the result `lookup`.
pub open spec fn after_lookup(handle: TypeGraphHandle, lookup: Result<u32, ProgramError>) -> Resolution {
    match lookup {
        Ok(type_id) => Resolution::Resolved(Resolved { handle, type_id }),
        Err(error) => Resolution::Failed { error, close: Some(handle) },
    }
}

/// `len` zero bytes.
pub open spec fn zeros(len: nat) -> Seq<u8> {
    Seq::new(len, |i: int| 0u8)
}

/// The length of the buffer for the next fetch, after a fetch into `len`
/// bytes of a blob that has `reported` bytes; `None` where the blob fitted.
pub open spec fn next_fetch_len(len: nat, reported: nat) -> Option<nat> {
    if reported > len {
        Some(reported)
    } else {
        None
    }
}

/// The buffer after a fetch into `buf` of a blob that has `reported` bytes:
/// grown with zeros to the blob's length where it was too short, else cut to
/// the blob's length.
pub open spec fn fitted(buf: Seq<u8>, reported: nat) -> Seq<u8> {
    if reported > buf.len() {
        buf + zeros((reported - buf.len()) as nat)
    } else {
        buf.subrange(0, reported as int)
    }
}

/// Makes `buf` as long as the blob whose length the kernel reported, and
/// says whether the blob has to be fetched again.
pub fn fit_buffer(buf: &mut Vec<u8>, reported: u32) -> (again: bool)
    ensures
        again == (next_fetch_len(old(buf)@.len(), reported as nat) is Some),
        final(buf)@ == fitted(old(buf)@, reported as nat),
        final(buf)@.len() == reported,
{
    let wanted: usize = reported as usize;
    let again = wanted > buf.len();
    if again {
        buf.resize(wanted, 0u8);
        assert(buf@ =~= fitted(old(buf)@, reported as nat));
    } else {
        buf.truncate(wanted);
    }
    again
}

/// Parses `data` as a type description and looks for the function `name`
/// in it.
///
/// A blob that `names_readable` does not hold of is refused with
/// `MalformedBtf`, and the parser never sees it. Of any other blob the
/// answer is the parser's: the id that it found, or its diagnostic, also
/// for a blob that it cannot parse.
pub fn find_function(data: &[u8], name: &str) -> (found: Result<u32, ProgramError>)
    ensures
        !names_readable(data@) <==> found matches Err(ProgramError::MalformedBtf),
        data@.len() < HEADER_LEN ==> found matches Err(ProgramError::Btf(_)),
        found matches Err(error) ==> error is Btf || error is MalformedBtf,
{
    if !names_are_readable(data) {
        return Err(ProgramError::MalformedBtf);
    }
    match parse_type_graph(data) {
        Err(diagnostic) => Err(ProgramError::Btf(diagnostic)),
        Ok(graph) => match func_id_by_name(&graph, name) {
            Ok(type_id) => Ok(type_id),
            Err(diagnostic) => Err(ProgramError::Btf(diagnostic)),
        },
    }
}

impl Resolution {
    /// A resolution before its first call.
    pub fn start() -> (first: Resolution)
        ensures
            first == Resolution::NeedProgramInfo,
    {
        Resolution::NeedProgramInfo
    }

    /// Takes the number of the type description that the target program's
    /// description names, or the error of that call. The number 0 says that
    /// the program has none: the resolution fails with `NoBTF`, and nothing
    /// was opened.
    pub fn program_info(info: Result<u32, i32>) -> (next: Resolution)
        ensures
            next == after_program_info(info),
    {
        match info {
            Err(io_error) => Resolution::Failed {
                error: ProgramError::SyscallError { call: Syscall::ObjGetInfoByFd, io_error },
                close: None,
            },
            Ok(type_info_id) => {
                if type_info_id == 0 {
                    Resolution::Failed {
                        error: ProgramError::ExtensionError(ExtensionError::NoBTF),
                        close: None,
                    }
                } else {
                    Resolution::NeedTypeGraph { type_info_id }
                }
            },
        }
    }

    /// Takes the handle of the type description, or the error of that call.
    /// The first fetch is made into a buffer of `INITIAL_BUFFER_LEN` zeros.
    pub fn type_graph_opened(opened: Result<TypeGraphHandle, i32>) -> (next: Resolution)
        ensures
            match opened {
                Err(io_error) => next == syscall_failure(Syscall::BtfGetFdById, io_error, None),
                Ok(opened_handle) => next matches Resolution::NeedBlob { handle, buf }
                    && handle == opened_handle && buf@ == zeros(INITIAL_BUFFER_LEN as nat),
            },
    {
        match opened {
            Err(io_error) => Resolution::Failed {
                error: ProgramError::SyscallError { call: Syscall::BtfGetFdById, io_error },
                close: None,
            },
            Ok(handle) => {
                let buf = vec![0u8; INITIAL_BUFFER_LEN];
                assert(buf@ =~= zeros(INITIAL_BUFFER_LEN as nat));
                Resolution::NeedBlob { handle, buf }
            },
        }
    }

    /// Takes the buffer after a fetch, with the blob's length as the kernel
    /// reported it, or the error of that call.
    ///
    /// A blob longer than the buffer is fetched again, into the buffer grown
    /// to the blob's length. One that fitted is cut to its length and
    /// searched for the function `func_name`, as `find_function` does: the
    /// resolution ends with the handle and the id found, or with the
    /// parser's diagnostic or `MalformedBtf`, and the handle to close.
    pub fn blob_fetched(
        handle: TypeGraphHandle,
        buf: Vec<u8>,
        reply: Result<u32, i32>,
        func_name: &str,
    ) -> (next: Resolution)
        ensures
            match reply {
                Err(io_error) => next == syscall_failure(
                    Syscall::ObjGetInfoByFd,
                    io_error,
                    Some(handle),
                ),
                Ok(reported) => if next_fetch_len(buf@.len(), reported as nat) is Some {
                    next matches Resolution::NeedBlob { handle: same, buf: grown } && same == handle
                        && grown@ == fitted(buf@, reported as nat)
                } else {
                    exists|lookup: Result<u32, ProgramError>|
                        {
                            &&& next == after_lookup(handle, lookup)
                            &&& reported < HEADER_LEN ==> lookup is Err && lookup->Err_0 is Btf
                            &&& !names_readable(fitted(buf@, reported as nat)) <==> lookup is Err
                                && lookup->Err_0 is MalformedBtf
                            &&& lookup is Err ==> lookup->Err_0 is Btf || lookup->Err_0 is MalformedBtf
                        }
                },
            },
    {
        match reply {
            Err(io_error) => Resolution::Failed {
                error: ProgramError::SyscallError { call: Syscall::ObjGetInfoByFd, io_error },
                close: Some(handle),
            },
            Ok(reported) => {
                let mut buf = buf;
                if fit_buffer(&mut buf, reported) {
                    Resolution::NeedBlob { handle, buf }
                } else {
                    let lookup = find_function(buf.as_slice(), func_name);
                    let ghost found = lookup;
                    let next = Resolution::conclude(handle, lookup);
                    assert(next == after_lookup(handle, found));
                    next
                }
            },
        }
    }

    /// Ends a resolution whose blob was searched with the result `lookup`.
    pub fn conclude(handle: TypeGraphHandle, lookup: Result<u32, ProgramError>) -> (last: Resolution)
        ensures
            last == after_lookup(handle, lookup),
    {
        match lookup {
            Ok(type_id) => Resolution::Resolved(Resolved { handle, type_id }),
            Err(error) => Resolution::Failed { error, close: Some(handle) },
        }
    }

    /// Whether the resolution has ended.
    pub fn is_finished(&self) -> (finished: bool)
        ensures
            finished == (self is Resolved || self is Failed),
    {
        match self {
            Resolution::Resolved(_) => true,
            Resolution::Failed { .. } => true,
            _ => false,
        }
    }
}

/// A fetch into the buffer that the kernel's report asked for is the last:
/// where a fetch of a blob of `reported` bytes calls for another, the next
/// buffer has exactly `reported` bytes, and a fetch into it of the same blob
/// calls for no more. From the first buffer, a blob is fetched twice where
/// it has more than `INITIAL_BUFFER_LEN` bytes, and once where it has not.
pub proof fn lemma_second_fetch_fits(len: nat, reported: nat)
    ensures
        next_fetch_len(len, reported) matches Some(grown) ==> grown == reported
            && next_fetch_len(grown, reported) is None,
        next_fetch_len(len, reported) is None ==> reported <= len,
        next_fetch_len(INITIAL_BUFFER_LEN as nat, reported) == if reported > 4096 {
            Some(reported)
        } else {
            None
        },
{
}

/// The buffer after a fetch has the blob's length and keeps what the fetch
/// wrote into it, as far as the blob reaches.
pub proof fn lemma_fitted_keeps_prefix(buf: Seq<u8>, reported: nat)
    ensures
        fitted(buf, reported).len() == reported,
        forall|i: int|
            0 <= i < buf.len() && i < reported ==> #[trigger] fitted(buf, reported)[i] == buf[i],
        forall|i: int| buf.len() <= i < reported ==> #[trigger] fitted(buf, reported)[i] == 0u8,
{
}

/// A resolution that ends in failure hands back every handle it opened, and
/// one that succeeds hands back the one it opened: before the handle is
/// there nothing is to be closed, and after it each end carries it.
pub proof fn lemma_no_handle_is_lost(
    info: Result<u32, i32>,
    handle: TypeGraphHandle,
    lookup: Result<u32, ProgramError>,
    io_error: i32,
)
    ensures
        after_program_info(info) matches Resolution::Failed { close, .. } ==> close is None,
        !(after_program_info(info) is Resolved),
        info == Ok::<u32, i32>(0) ==> after_program_info(info) == (Resolution::Failed {
            error: ProgramError::ExtensionError(ExtensionError::NoBTF),
            close: None,
        }),
        match after_lookup(handle, lookup) {
            Resolution::Resolved(found) => found.handle == handle,
            Resolution::Failed { close, .. } => close == Some(handle),
            _ => false,
        },
        syscall_failure(Syscall::ObjGetInfoByFd, io_error, Some(handle)) matches Resolution::Failed {
            close,
            ..
        } && close == Some(handle),
{
}

} // verus!
