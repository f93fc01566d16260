//! The bit layout of an error value.
//!
//! An error value is a `u32`. Its low 16 bits hold the error code and bits 24
//! to 30 hold the error source. The model below states the layout in
//! arithmetic: the code is the value modulo 2^16, the source is the quotient
//! by 2^24 modulo 2^7. The executable functions work with masks and shifts and
//! are proved to compute the same numbers.

use vstd::prelude::*;
use crate::codes::{
    ErrorCode, ErrorSource, GPG_ERR_CODE_MASK, GPG_ERR_SOURCE_MASK, GPG_ERR_SOURCE_SHIFT,
};

verus! {

/// The code field of an error value.
pub open spec fn code_of(err: u32) -> u32 {
    err % 65536
}

/// The source field of an error value.
pub open spec fn source_of(err: u32) -> u32 {
    (err / 16777216) % 128
}

/// The error value made of a source and a code. Both are first cut to the
/// width of their field. A code whose field is zero gives the value zero,
/// whatever the source: success has no source.
pub open spec fn make(source: u32, code: u32) -> u32 {
    if code % 65536 == 0 {
        0
    } else {
        ((source % 128) * 16777216 + code % 65536) as u32
    }
}

/// Whether an error value is one that [`make`] can give: either zero, or a
/// nonzero code and a source with nothing outside the two fields.
pub open spec fn is_packed(err: u32) -> bool {
    err == 0 || (code_of(err) != 0 && err == source_of(err) * 16777216 + code_of(err))
}

/// Masking and shifting an error value gives its two fields.
proof fn lemma_unpack_bits(err: u32)
    by (bit_vector)
    ensures
        err & 65535 == err % 65536,
        (err >> 24u32) & 127 == (err / 16777216) % 128,
{
}

/// Masking a source and a code and joining them gives the sum of the two
/// fields, each in its place.
proof fn lemma_pack_bits(source: u32, code: u32)
    by (bit_vector)
    ensures
        code & 65535 == code % 65536,
        source & 127 == source % 128,
        (code & 65535) | ((source & 127) << 24u32) == (source % 128) * 16777216 + code % 65536,
{
}

/// Packs a source and a code into an error value.
pub fn gpg_err_make(source: ErrorSource, code: ErrorCode) -> (err: u32)
    ensures
        err == make(source, code),
{
    proof {
        lemma_pack_bits(source, code);
    }
    let code: u32 = code & GPG_ERR_CODE_MASK;
    let source: u32 = source & GPG_ERR_SOURCE_MASK;
    if code == 0 {
        code
    } else {
        code | (source << GPG_ERR_SOURCE_SHIFT)
    }
}

/// Extracts the code from an error value.
pub fn gpg_err_code(err: u32) -> (code: ErrorCode)
    ensures
        code == code_of(err),
{
    proof {
        lemma_unpack_bits(err);
    }
    err & GPG_ERR_CODE_MASK
}

/// Extracts the source from an error value.
pub fn gpg_err_source(err: u32) -> (source: ErrorSource)
    ensures
        source == source_of(err),
{
    proof {
        lemma_unpack_bits(err);
    }
    (err >> GPG_ERR_SOURCE_SHIFT) & GPG_ERR_SOURCE_MASK
}

/// A source and a code that fit their fields are read back from the value
/// that they were packed into, unless the code is zero.
pub proof fn lemma_fields_come_back(source: u32, code: u32)
    requires
        source < 128,
        0 < code < 65536,
    ensures
        source_of(make(source, code)) == source,
        code_of(make(source, code)) == code,
{
}

/// What is read back from a packed value, whatever was packed: the code cut
/// to its field, and the source cut to its field unless the code field is
/// zero, in which case the whole value is zero. The top bit is never set.
pub proof fn lemma_make_fields(source: u32, code: u32)
    ensures
        code_of(make(source, code)) == code % 65536,
        code % 65536 != 0 ==> source_of(make(source, code)) == source % 128,
        code % 65536 == 0 ==> make(source, code) == 0,
        make(source, code) < 2147483648,
{
}

/// Packing looks at the two fields of its arguments only.
pub proof fn lemma_make_cut(source: u32, code: u32)
    ensures
        make(source % 128, code % 65536) == make(source, code),
{
}

/// Every value that packing gives is a packed one.
pub proof fn lemma_make_is_packed(source: u32, code: u32)
    ensures
        is_packed(make(source, code)),
{
    lemma_make_fields(source, code);
}

/// The packed values are exactly those that are made again from their own
/// two fields.
pub proof fn lemma_packed_round_trip(err: u32)
    ensures
        is_packed(err) <==> make(source_of(err), code_of(err)) == err,
{
    lemma_make_fields(source_of(err), code_of(err));
}

/// Giving a value another source keeps its code, and giving it the source
/// zero leaves the code alone.
pub proof fn lemma_resource_keeps_code(source: u32, err: u32)
    ensures
        code_of(make(source, code_of(err))) == code_of(err),
        make(0, code_of(err)) == code_of(err),
{
    lemma_make_fields(source, code_of(err));
}

} // verus!
