//! Cursor-free primitive reads over a borrowed byte slice.
//!
//! Every reader names the position it reads from and, where the field has a
//! variable size, returns the position just past it.
use vstd::prelude::*;
use crate::common::Error;

verus! {

/// Kinds below this value are legacy kinds whose strings carry a one-byte length prefix.
pub const S_ST_MAX: u16 = 0x1100;

/// Little-endian value of the two bytes at `i`.
pub open spec fn le16(d: Seq<u8>, i: int) -> int {
    d[i] as int + 256 * d[i + 1] as int
}

/// Little-endian value of the four bytes at `i`.
pub open spec fn le32(d: Seq<u8>, i: int) -> int {
    le16(d, i) + 65536 * le16(d, i + 2)
}

/// Little-endian value of the eight bytes at `i`.
pub open spec fn le64(d: Seq<u8>, i: int) -> int {
    le32(d, i) + 4294967296 * le32(d, i + 4)
}

/// Whether the `n` bytes at `i` lie inside `d`.
pub open spec fn fits(d: Seq<u8>, i: int, n: int) -> bool {
    0 <= i && i + n <= d.len()
}

/// The byte at `i`.
pub fn read_u8(d: &[u8], i: usize) -> (r: u8)
    requires
        i < d@.len(),
    ensures
        r == d@[i as int],
{
    d[i]
}

/// The little-endian `u16` at `i`.
pub fn read_u16(d: &[u8], i: usize) -> (r: u16)
    requires
        fits(d@, i as int, 2),
    ensures
        r == le16(d@, i as int),
{
    d[i] as u16 + (d[i + 1] as u16) * 256
}

/// The little-endian `u32` at `i`.
pub fn read_u32(d: &[u8], i: usize) -> (r: u32)
    requires
        fits(d@, i as int, 4),
    ensures
        r == le32(d@, i as int),
{
    let b0 = d[i] as u32;
    let b1 = d[i + 1] as u32;
    let b2 = d[i + 2] as u32;
    let b3 = d[i + 3] as u32;
    b0 + b1 * 256 + b2 * 65536 + b3 * 16777216
}

/// The little-endian `u64` at `i`.
pub fn read_u64(d: &[u8], i: usize) -> (r: u64)
    requires
        fits(d@, i as int, 8),
    ensures
        r == le64(d@, i as int),
{
    let _n = d.len();
    let lo = read_u32(d, i) as u64;
    let rest = vstd::slice::slice_subrange(d, i + 4, i + 8);
    let hi = read_u32(rest, 0) as u64;
    assert(rest@ =~= d@.subrange(i + 4, i + 8));
    lo + hi * 4294967296
}

/// The little-endian `i32` at `i`.
pub fn read_i32(d: &[u8], i: usize) -> (r: i32)
    requires
        fits(d@, i as int, 4),
    ensures
        r == le32(d@, i as int) as i32,
{
    read_u32(d, i) as i32
}

/// Position of the first zero byte at or after `i`, or `d.len()` if there is none.
pub open spec fn first_zero(d: Seq<u8>, i: int) -> int
    decreases d.len() - i,
{
    if i < 0 || i >= d.len() {
        d.len() as int
    } else if d[i] == 0 {
        i
    } else {
        first_zero(d, i + 1)
    }
}

/// The first zero at or after `i` lies between `i` and the end, and no zero comes before it.
pub proof fn lemma_first_zero_bounds(d: Seq<u8>, i: int)
    requires
        0 <= i <= d.len(),
    ensures
        i <= first_zero(d, i) <= d.len(),
        first_zero(d, i) < d.len() ==> d[first_zero(d, i)] == 0,
        forall|j: int| i <= j < first_zero(d, i) ==> d[j] != 0,
    decreases d.len() - i,
{
    if i < d.len() && d[i] != 0 {
        lemma_first_zero_bounds(d, i + 1);
    }
}

/// Names of legacy kinds (below `S_ST_MAX`) are the bytes after a one-byte length prefix;
/// names of all other kinds are the bytes up to the first NUL, which ends them.
pub proof fn lemma_name_encoding_by_threshold(d: Seq<u8>, i: int, kind: u16)
    requires
        name_fits(d, i, kind),
    ensures
        kind < S_ST_MAX ==> name_bytes(d, i, kind) == d.subrange(i + 1, i + 1 + d[i]) && name_end(
            d,
            i,
            kind,
        ) == i + 1 + d[i],
        kind >= S_ST_MAX ==> ({
            let z = first_zero(d, i);
            &&& name_bytes(d, i, kind) == d.subrange(i, z)
            &&& d[z] == 0
            &&& forall|j: int| i <= j < z ==> d[j] != 0
            &&& name_end(d, i, kind) == z + 1
        }),
{
    if kind >= S_ST_MAX {
        lemma_first_zero_bounds(d, i);
    }
}

/// Whether a NUL-terminated string starts at `i`.
pub open spec fn cstring_fits(d: Seq<u8>, i: int) -> bool {
    0 <= i <= d.len() && first_zero(d, i) < d.len()
}

/// Whether a string in the encoding chosen by `kind` starts at `i`.
pub open spec fn name_fits(d: Seq<u8>, i: int, kind: u16) -> bool {
    if kind < S_ST_MAX {
        0 <= i < d.len() && i + 1 + d[i] <= d.len()
    } else {
        cstring_fits(d, i)
    }
}

/// The bytes of the string at `i` in the encoding chosen by `kind`.
pub open spec fn name_bytes(d: Seq<u8>, i: int, kind: u16) -> Seq<u8> {
    if kind < S_ST_MAX {
        d.subrange(i + 1, i + 1 + d[i])
    } else {
        d.subrange(i, first_zero(d, i))
    }
}

/// Position just past the string at `i` in the encoding chosen by `kind`.
pub open spec fn name_end(d: Seq<u8>, i: int, kind: u16) -> int {
    if kind < S_ST_MAX {
        i + 1 + d[i]
    } else {
        first_zero(d, i) + 1
    }
}

/// The text of the string at `i` in the encoding chosen by `kind`.
pub open spec fn name_text(d: Seq<u8>, i: int, kind: u16) -> Seq<char> {
    lossy_text(name_bytes(d, i, kind))
}

/// The text of a NUL-terminated string at `i`.
pub open spec fn cstring_text(d: Seq<u8>, i: int) -> Seq<char> {
    lossy_text(d.subrange(i, first_zero(d, i)))
}

/// Text decoded from bytes as UTF-8, with each invalid sequence replaced.
pub uninterp spec fn lossy_text(b: Seq<u8>) -> Seq<char>;

/// Relies on `String::from_utf8_lossy`: the text depends on the bytes alone.
#[verifier::external_body]
fn text_of(b: &[u8]) -> (r: String)
    ensures
        r@ == lossy_text(b@),
{
    String::from_utf8_lossy(b).into_owned()
}

/// Reads the bytes of a NUL-terminated string at `i`; returns them and the position past the NUL.
pub fn read_cstring_bytes(d: &[u8], i: usize) -> (r: Result<(&[u8], usize), Error>)
    ensures
        r is Ok <==> cstring_fits(d@, i as int),
        r matches Ok((s, p)) ==> s@ == d@.subrange(i as int, first_zero(d@, i as int))
            && p == first_zero(d@, i as int) + 1,
        r matches Err(e) ==> e == Error::UnexpectedEof,
{
    if i > d.len() {
        return Err(Error::UnexpectedEof);
    }
    let mut j = i;
    while j < d.len() && d[j] != 0
        invariant
            i <= j <= d@.len(),
            first_zero(d@, i as int) == first_zero(d@, j as int),
        decreases d@.len() - j,
    {
        j = j + 1;
    }
    proof {
        lemma_first_zero_bounds(d@, i as int);
    }
    if j == d.len() {
        Err(Error::UnexpectedEof)
    } else {
        Ok((vstd::slice::slice_subrange(d, i, j), j + 1))
    }
}

/// Reads a NUL-terminated string at `i`.
pub fn read_cstring(d: &[u8], i: usize) -> (r: Result<(String, usize), Error>)
    ensures
        r is Ok <==> cstring_fits(d@, i as int),
        r matches Ok((s, p)) ==> s@ == cstring_text(d@, i as int)
            && p == first_zero(d@, i as int) + 1,
        r matches Err(e) ==> e == Error::UnexpectedEof,
{
    let (b, p) = read_cstring_bytes(d, i)?;
    Ok((text_of(b), p))
}

/// Reads the bytes of a string at `i`: legacy kinds (below `S_ST_MAX`) use a one-byte
/// length prefix, all other kinds a NUL terminator.
pub fn read_name_bytes(d: &[u8], i: usize, kind: u16) -> (r: Result<(&[u8], usize), Error>)
    ensures
        r is Ok <==> name_fits(d@, i as int, kind),
        r matches Ok((s, p)) ==> s@ == name_bytes(d@, i as int, kind)
            && p == name_end(d@, i as int, kind),
        r matches Err(e) ==> e == Error::UnexpectedEof,
{
    if kind < S_ST_MAX {
        if i >= d.len() {
            return Err(Error::UnexpectedEof);
        }
        let n = d[i] as usize;
        if n > d.len() - i - 1 {
            return Err(Error::UnexpectedEof);
        }
        Ok((vstd::slice::slice_subrange(d, i + 1, i + 1 + n), i + 1 + n))
    } else {
        read_cstring_bytes(d, i)
    }
}

/// Reads the name of a record of kind `kind` at `i`: a length-prefixed string for
/// legacy kinds, a NUL-terminated one otherwise.
pub fn parse_symbol_name(d: &[u8], i: usize, kind: u16) -> (r: Result<(String, usize), Error>)
    ensures
        r is Ok <==> name_fits(d@, i as int, kind),
        r matches Ok((s, p)) ==> s@ == name_text(d@, i as int, kind)
            && p == name_end(d@, i as int, kind) && i < p <= d@.len(),
        r matches Err(e) ==> e == Error::UnexpectedEof,
        kind < S_ST_MAX && r is Ok ==> name_end(d@, i as int, kind) == i + 1 + d@[i as int],
        kind >= S_ST_MAX && r is Ok ==> d@[name_end(d@, i as int, kind) - 1] == 0,
{
    let (b, p) = read_name_bytes(d, i, kind)?;
    proof {
        if kind >= S_ST_MAX {
            lemma_first_zero_bounds(d@, i as int);
        }
    }
    Ok((text_of(b), p))
}

/// Reads the optional name of a record of kind `kind` at `i`: legacy kinds carry none,
/// the others a NUL-terminated one.
pub fn parse_optional_name(d: &[u8], i: usize, kind: u16) -> (r: Result<
    (Option<String>, usize),
    Error,
>)
    ensures
        r is Ok <==> (kind < S_ST_MAX || cstring_fits(d@, i as int)),
        r matches Ok((s, p)) ==> if kind < S_ST_MAX {
            s is None && p == i
        } else {
            s matches Some(t) && t@ == cstring_text(d@, i as int) && p == first_zero(d@, i as int)
                + 1
        },
        r matches Err(e) ==> e == Error::UnexpectedEof,
{
    if kind < S_ST_MAX {
        Ok((None, i))
    } else {
        let (s, p) = read_cstring(d, i)?;
        Ok((Some(s), p))
    }
}

} // verus!
