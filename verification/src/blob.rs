//! A check of a type description blob, made before the parser sees it.
//!
//! The parser looks a function's name up through an offset that it has not
//! held against the length of the string section, and takes a variable's
//! linkage as it finds it. The check here walks the records as the parser
//! does and finds every such offset and linkage; what the parser refuses by
//! itself is left to it. The parser reads the blob in the byte order of the
//! machine, which this crate does not know, so a blob passes only where it
//! is safe in both orders.

use vstd::prelude::*;

verus! {

/// The length of the header that every type description starts with.
pub const HEADER_LEN: usize = 24;

/// The number that the four bytes at `at` hold, read in the given order.
pub open spec fn word_at(data: Seq<u8>, at: int, big_endian: bool) -> int {
    if big_endian {
        data[at] * 16777216 + data[at + 1] * 65536 + data[at + 2] * 256 + data[at + 3]
    } else {
        data[at] + data[at + 1] * 256 + data[at + 2] * 65536 + data[at + 3] * 16777216
    }
}

/// The kind of a record, from its second word.
pub open spec fn record_kind(info: int) -> int {
    (info / 16777216) % 32
}

/// The number of entries that follow a record's three words, from its
/// second word.
pub open spec fn record_vlen(info: int) -> int {
    info % 65536
}

/// The bytes that follow the three words of a record of the given kind.
pub open spec fn record_tail(kind: int, vlen: int) -> int {
    if kind == 1 || kind == 14 || kind == 17 {
        4
    } else if kind == 3 {
        12
    } else if kind == 4 || kind == 5 || kind == 15 || kind == 19 {
        12 * vlen
    } else if kind == 6 || kind == 13 {
        8 * vlen
    } else {
        0
    }
}

/// Whether the parser can walk the records from `pos` to `end`: up to the
/// first record that it refuses by itself, which is one cut short or of a
/// kind it does not know, each function's name starts within `str_len`
/// bytes and each variable has one of the four linkages.
pub open spec fn records_readable(
    data: Seq<u8>,
    big_endian: bool,
    pos: int,
    end: int,
    str_len: int,
) -> bool
    decreases end - pos,
{
    if pos >= end || end - pos < 12 {
        true
    } else {
        let info = word_at(data, pos + 4, big_endian);
        let kind = record_kind(info);
        let tail = record_tail(kind, record_vlen(info));
        if kind > 19 || tail > end - pos - 12 {
            true
        } else {
            &&& kind == 12 ==> word_at(data, pos, big_endian) <= str_len
            &&& kind == 14 ==> word_at(data, pos + 12, big_endian) <= 3
            &&& records_readable(data, big_endian, pos + 12 + tail, end, str_len)
        }
    }
}

/// Whether the parser can take the blob, read in the given order. The
/// parser adds the header's lengths and offsets up in `usize`, so the two
/// sums have to fit in it. Then either the header sends the string section
/// or the records past the end of the blob, so that the parser refuses it,
/// or the records are readable.
pub open spec fn readable_in_order(data: Seq<u8>, big_endian: bool) -> bool {
    let hdr_len = word_at(data, 4, big_endian);
    let type_off = word_at(data, 8, big_endian);
    let type_len = word_at(data, 12, big_endian);
    let str_off = word_at(data, 16, big_endian);
    let str_len = word_at(data, 20, big_endian);
    &&& hdr_len + str_off + str_len <= usize::MAX
    &&& hdr_len + type_off + type_len <= usize::MAX
    &&& {
        ||| hdr_len + str_off + str_len > data.len()
        ||| hdr_len + type_off + type_len > data.len()
        ||| records_readable(
            data,
            big_endian,
            hdr_len + type_off,
            hdr_len + type_off + type_len,
            str_len,
        )
    }
}

/// Whether the parser can take `data`, and look up a function's name in
/// what it made of it, on any machine: the length fits in 32 bits, and the
/// blob is too short for a header, which the parser refuses, or readable in
/// both byte orders.
pub open spec fn names_readable(data: Seq<u8>) -> bool {
    &&& data.len() <= u32::MAX
    &&& data.len() < HEADER_LEN || (readable_in_order(data, false) && readable_in_order(
        data,
        true,
    ))
}

fn read_word(data: &[u8], at: u64, big_endian: bool) -> (word: u64)
    requires
        at + 4 <= data@.len(),
    ensures
        word == word_at(data@, at as int, big_endian),
        word < 4294967296,
{
    let first: usize = at as usize;
    let b0: u64 = data[first] as u64;
    let b1: u64 = data[first + 1] as u64;
    let b2: u64 = data[first + 2] as u64;
    let b3: u64 = data[first + 3] as u64;
    if big_endian {
        b0 * 16777216 + b1 * 65536 + b2 * 256 + b3
    } else {
        b0 + b1 * 256 + b2 * 65536 + b3 * 16777216
    }
}

fn tail_of(kind: u64, vlen: u64) -> (tail: u64)
    requires
        vlen < 65536,
    ensures
        tail == record_tail(kind as int, vlen as int),
        tail <= 12 * 65535,
{
    if kind == 1 || kind == 14 || kind == 17 {
        4
    } else if kind == 3 {
        12
    } else if kind == 4 || kind == 5 || kind == 15 || kind == 19 {
        12 * vlen
    } else if kind == 6 || kind == 13 {
        8 * vlen
    } else {
        0
    }
}

fn records_checked(data: &[u8], big_endian: bool, start: u64, end: u64, str_len: u64) -> (ok: bool)
    requires
        start <= end <= data@.len(),
    ensures
        ok == records_readable(data@, big_endian, start as int, end as int, str_len as int),
{
    let mut pos: u64 = start;
    while pos < end
        invariant
            start <= pos <= end <= data@.len(),
            records_readable(data@, big_endian, start as int, end as int, str_len as int)
                == records_readable(data@, big_endian, pos as int, end as int, str_len as int),
        decreases end - pos,
    {
        if end - pos < 12 {
            return true;
        }
        let info: u64 = read_word(data, pos + 4, big_endian);
        let kind: u64 = (info / 16777216) % 32;
        let vlen: u64 = info % 65536;
        if kind > 19 {
            return true;
        }
        let tail: u64 = tail_of(kind, vlen);
        if tail > end - pos - 12 {
            return true;
        }
        if kind == 12 && read_word(data, pos, big_endian) > str_len {
            return false;
        }
        if kind == 14 && read_word(data, pos + 12, big_endian) > 3 {
            return false;
        }
        pos = pos + 12 + tail;
    }
    true
}

fn order_checked(data: &[u8], big_endian: bool) -> (ok: bool)
    requires
        HEADER_LEN <= data@.len() <= u32::MAX,
    ensures
        ok == readable_in_order(data@, big_endian),
{
    let len: u64 = data.len() as u64;
    let hdr_len: u64 = read_word(data, 4, big_endian);
    let type_off: u64 = read_word(data, 8, big_endian);
    let type_len: u64 = read_word(data, 12, big_endian);
    let str_off: u64 = read_word(data, 16, big_endian);
    let str_len: u64 = read_word(data, 20, big_endian);
    let limit: u64 = usize::MAX as u64;
    if hdr_len + str_off + str_len > limit || hdr_len + type_off + type_len > limit {
        false
    } else if hdr_len + str_off + str_len > len || hdr_len + type_off + type_len > len {
        true
    } else {
        records_checked(
            data,
            big_endian,
            hdr_len + type_off,
            hdr_len + type_off + type_len,
            str_len,
        )
    }
}

/// Whether the parser can take `data` and look up a function's name in it.
pub fn names_are_readable(data: &[u8]) -> (ok: bool)
    ensures
        ok == names_readable(data@),
{
    if data.len() > 4294967295 {
        false
    } else if data.len() < HEADER_LEN {
        true
    } else {
        order_checked(data, false) && order_checked(data, true)
    }
}

} // verus!
