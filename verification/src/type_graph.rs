//! The type description parser of `aya_obj`, as far as this crate calls it.
//!
//! Nothing in this file is proved: each contract is a claim about `aya_obj`.

use vstd::prelude::*;
use aya_obj::btf::{Btf, BtfError, BtfKind};
use aya_obj::generated::bpf_attach_type::BPF_CGROUP_INET_INGRESS;
use aya_obj::generated::bpf_prog_type::BPF_PROG_TYPE_EXT;
use object::Endianness;
use crate::blob::{names_readable, HEADER_LEN};

verus! {

/// `aya_obj::btf::Btf`: a parsed type description. Opaque here.
#[verifier::external_type_specification]
#[verifier::external_body]
pub struct ExBtf(Btf);

/// `aya_obj::btf::BtfError`: the parser's diagnostic. Opaque here.
#[verifier::external_type_specification]
#[verifier::external_body]
pub struct ExBtfError(BtfError);

/// The name offsets of the function records that a parsed type description
/// holds, in the order of the records.
pub uninterp spec fn function_name_offsets(graph: Btf) -> Seq<u32>;

/// The length of the string section that a parsed type description holds.
pub uninterp spec fn strings_len(graph: Btf) -> nat;

/// The sum of the header's own length, the offset of the string section and
/// its length, as the header of a parsed type description gives them.
pub uninterp spec fn strings_end(graph: Btf) -> nat;

/// Whether `Btf::id_by_type_name_kind` can read the name of every function
/// record of `graph`: each name starts within the string section, and the
/// end of that section, which the method adds up in 32 bits, fits in them.
pub open spec fn function_names_in_reach(graph: Btf) -> bool {
    &&& strings_end(graph) <= u32::MAX
    &&& forall|i: int|
        0 <= i < function_name_offsets(graph).len() ==> function_name_offsets(graph)[i]
            <= strings_len(graph)
}

/// Calls `Btf::parse` with the byte order of this machine.
///
/// `requires` leaves out a blob with a variable record whose linkage is none
/// of the four, which the parser takes unchecked, and one whose header adds
/// up to more than `usize` holds, which the parser adds up unchecked.
///
/// Claimed: input shorter than the header is refused. The string section of
/// what was parsed ends within the input. The name offset of each function
/// record that was parsed lies within the string section that was parsed:
/// the parser reads the header and the records as `names_readable` does in
/// the order of this machine. The parser reads the header in the machine's
/// own byte order, so nothing more is said of what it makes of given bytes.
#[verifier::external_body]
pub(crate) fn parse_type_graph(data: &[u8]) -> (parsed: Result<Btf, BtfError>)
    requires
        names_readable(data@),
    ensures
        data@.len() < HEADER_LEN ==> parsed is Err,
        parsed matches Ok(graph) ==> strings_end(graph) <= data@.len(),
        parsed matches Ok(graph) ==> forall|i: int|
            0 <= i < function_name_offsets(graph).len() ==> function_name_offsets(graph)[i]
                <= strings_len(graph),
{
    Btf::parse(data, Endianness::default())
}

/// Calls `Btf::id_by_type_name_kind` for the kind `BtfKind::Func`.
///
/// The method reads the names of the function records through their
/// offsets, and slices the string section at each; `requires` leaves out a
/// graph in which one lies past that section. Nothing is claimed of the
/// result.
#[verifier::external_body]
pub(crate) fn func_id_by_name(graph: &Btf, name: &str) -> (found: Result<u32, BtfError>)
    requires
        function_names_in_reach(*graph),
{
    graph.id_by_type_name_kind(name, BtfKind::Func)
}

/// The number of `bpf_prog_type::BPF_PROG_TYPE_EXT` in the kernel's interface.
#[verifier::external_body]
pub(crate) fn extension_program_type() -> (tag: u32)
    ensures
        tag == 28,
{
    BPF_PROG_TYPE_EXT as u32
}

/// The number of `bpf_attach_type::BPF_CGROUP_INET_INGRESS`, the attach type
/// that the kernel wants for the link of an extension.
#[verifier::external_body]
pub(crate) fn extension_attach_type() -> (tag: u32)
    ensures
        tag == 0,
{
    BPF_CGROUP_INET_INGRESS as u32
}

} // verus!
