//! Small fields shared by many record layouts: section offsets, optional indices,
//! module numbers, numeric leaves and flag sets.
use vstd::prelude::*;
use crate::bytes::{fits, le16, le32, le64, read_u16, read_u32, read_u64, read_u8};
use crate::common::{Error, PdbInternalSectionOffset, SymbolIndex};

verus! {

/// The section offset stored as a four-byte offset then a two-byte section at `i`.
pub open spec fn section_offset_at(d: Seq<u8>, i: int) -> PdbInternalSectionOffset {
    PdbInternalSectionOffset { offset: le32(d, i) as u32, section: le16(d, i + 4) as u16 }
}

/// Reads a section offset at `i`: four bytes of offset, then two of section.
pub fn read_section_offset(d: &[u8], i: usize) -> (r: PdbInternalSectionOffset)
    requires
        fits(d@, i as int, 6),
    ensures
        r == section_offset_at(d@, i as int),
{
    let _n = d.len();
    let offset = read_u32(d, i);
    let section = read_u16(d, i + 4);
    PdbInternalSectionOffset { offset, section }
}

/// A symbol reference where zero stands for none.
pub open spec fn optional_index(raw: u32) -> Option<SymbolIndex> {
    if raw == 0 {
        None
    } else {
        Some(SymbolIndex(raw))
    }
}

/// Reads a four-byte symbol reference at `i`, zero meaning none.
pub fn parse_optional_index(d: &[u8], i: usize) -> (r: Option<SymbolIndex>)
    requires
        fits(d@, i as int, 4),
    ensures
        r == optional_index(le32(d@, i as int) as u32),
{
    let raw = read_u32(d, i);
    if raw == 0 {
        None
    } else {
        Some(SymbolIndex(raw))
    }
}

/// A one-based module number where zero stands for none.
pub open spec fn module_index(raw: u16) -> Option<usize> {
    if raw == 0 {
        None
    } else {
        Some((raw - 1) as usize)
    }
}

/// Turns a one-based module number into a zero-based index; zero means absent.
pub fn parse_module_index(raw: u16) -> (r: Option<usize>)
    ensures
        r == module_index(raw),
        raw == 0 ==> r is None,
        raw > 0 ==> r == Some((raw - 1) as usize),
{
    if raw == 0 {
        None
    } else {
        Some((raw - 1) as usize)
    }
}

pub const LF_NUMERIC: u16 = 0x8000;
pub const LF_CHAR: u16 = 0x8000;
pub const LF_SHORT: u16 = 0x8001;
pub const LF_USHORT: u16 = 0x8002;
pub const LF_LONG: u16 = 0x8003;
pub const LF_ULONG: u16 = 0x8004;
pub const LF_QUADWORD: u16 = 0x8009;
pub const LF_UQUADWORD: u16 = 0x800a;

/// A numeric value of a constant, with the width it was stored in.
#[derive(Clone, Copy, Debug, PartialEq, Eq, Structural)]
pub enum Variant {
    U8(u8),
    U16(u16),
    U32(u32),
    U64(u64),
    I8(i8),
    I16(i16),
    I32(i32),
    I64(i64),
}

/// Bytes that follow a numeric leaf's two-byte prefix `leaf`, or `-1` for an unknown prefix.
pub open spec fn leaf_width(leaf: u16) -> int {
    if leaf < LF_NUMERIC {
        0
    } else if leaf == LF_CHAR {
        1
    } else if leaf == LF_SHORT || leaf == LF_USHORT {
        2
    } else if leaf == LF_LONG || leaf == LF_ULONG {
        4
    } else if leaf == LF_QUADWORD || leaf == LF_UQUADWORD {
        8
    } else {
        -1
    }
}

/// The value of the numeric leaf at `i`, when its prefix is known and it fits.
pub open spec fn variant_at(d: Seq<u8>, i: int) -> Variant {
    let leaf = le16(d, i) as u16;
    if leaf < LF_NUMERIC {
        Variant::U16(leaf)
    } else if leaf == LF_CHAR {
        Variant::U8(d[i + 2])
    } else if leaf == LF_SHORT {
        Variant::I16(le16(d, i + 2) as i16)
    } else if leaf == LF_USHORT {
        Variant::U16(le16(d, i + 2) as u16)
    } else if leaf == LF_LONG {
        Variant::I32(le32(d, i + 2) as i32)
    } else if leaf == LF_ULONG {
        Variant::U32(le32(d, i + 2) as u32)
    } else if leaf == LF_QUADWORD {
        Variant::I64(le64(d, i + 2) as i64)
    } else {
        Variant::U64(le64(d, i + 2) as u64)
    }
}

/// Reads the numeric leaf at `i`; returns it and the position past it.
pub fn parse_variant(d: &[u8], i: usize) -> (r: Result<(Variant, usize), Error>)
    ensures
        (r is Ok) <==> (fits(d@, i as int, 2) && leaf_width(le16(d@, i as int) as u16) >= 0 && fits(
            d@,
            i + 2,
            leaf_width(le16(d@, i as int) as u16),
        )),
        r matches Ok((v, p)) ==> v == variant_at(d@, i as int) && p == i + 2 + leaf_width(
            le16(d@, i as int) as u16,
        ),
        r matches Err(e) ==> if fits(d@, i as int, 2) && leaf_width(le16(d@, i as int) as u16) < 0 {
            e == Error::UnexpectedNumericPrefix(le16(d@, i as int) as u16)
        } else {
            e == Error::UnexpectedEof
        },
{
    let n = d.len();
    if i > n || n - i < 2 {
        return Err(Error::UnexpectedEof);
    }
    let leaf = read_u16(d, i);
    let p = i + 2;
    let width: usize = if leaf < LF_NUMERIC {
        0
    } else if leaf == LF_CHAR {
        1
    } else if leaf == LF_SHORT || leaf == LF_USHORT {
        2
    } else if leaf == LF_LONG || leaf == LF_ULONG {
        4
    } else if leaf == LF_QUADWORD || leaf == LF_UQUADWORD {
        8
    } else {
        return Err(Error::UnexpectedNumericPrefix(leaf));
    };
    if n - p < width {
        return Err(Error::UnexpectedEof);
    }
    let v = if leaf < LF_NUMERIC {
        Variant::U16(leaf)
    } else if leaf == LF_CHAR {
        Variant::U8(read_u8(d, p))
    } else if leaf == LF_SHORT {
        Variant::I16(read_u16(d, p) as i16)
    } else if leaf == LF_USHORT {
        Variant::U16(read_u16(d, p))
    } else if leaf == LF_LONG {
        Variant::I32(read_u32(d, p) as i32)
    } else if leaf == LF_ULONG {
        Variant::U32(read_u32(d, p))
    } else if leaf == LF_QUADWORD {
        Variant::I64(read_u64(d, p) as i64)
    } else {
        Variant::U64(read_u64(d, p))
    };
    Ok((v, p + width))
}

} // verus!
