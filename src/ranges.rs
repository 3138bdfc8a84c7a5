//! Decoders of the live-range records: where a variable's value can be found over which
//! addresses, with the gaps in between.
//!
//! The gap list has no count. Its length follows from the record length: the bytes of the
//! record including its two-byte length prefix, less the fixed header size of the layout
//! (16 or 20 bytes), divided by the four bytes of a gap. A remainder that is not a whole
//! gap is reported as `Error::MalformedGapList` rather than dropped.
use vstd::prelude::*;
use crate::bytes::{fits, le16, le32, read_i32, read_u16, read_u32};
use crate::common::{Error, PdbInternalSectionOffset, Register};
use crate::fields::{read_section_offset, section_offset_at};
use crate::flags::{range_flags, RangeFlags};

verus! {

/// Fixed wire size of the base, register and frame-pointer live-range layouts.
pub const DEFRANGE_HEADER: usize = 16;
/// Fixed wire size of the sub-field and register-relative live-range layouts.
pub const DEFRANGE_SUBFIELD_HEADER: usize = 20;
/// Wire size of one address gap.
pub const GAP_SIZE: usize = 4;

/// An address range of a live range.
#[derive(Clone, Copy, Debug, PartialEq, Eq, Structural)]
pub struct AddressRange {
    /// Offset of the range.
    pub offset: PdbInternalSectionOffset,
    /// Length of the range.
    pub cb_range: u16,
}

pub open spec fn address_range_at(d: Seq<u8>, i: int) -> AddressRange {
    AddressRange { offset: section_offset_at(d, i), cb_range: le16(d, i + 6) as u16 }
}

/// Reads an address range at `i`: a section offset, then a two-byte length.
pub fn read_address_range(d: &[u8], i: usize) -> (r: AddressRange)
    requires
        fits(d@, i as int, 8),
    ensures
        r == address_range_at(d@, i as int),
{
    let _n = d.len();
    let offset = read_section_offset(d, i);
    let cb_range = read_u16(d, i + 6);
    AddressRange { offset, cb_range }
}

/// A gap in a live range.
#[derive(Clone, Copy, Debug, PartialEq, Eq, Structural)]
pub struct AddressGap {
    /// Relative offset from the beginning of the live range
    pub gap_start_offset: u16,
    /// Length of the gap
    pub cb_range: u16,
}

pub open spec fn address_gap_at(d: Seq<u8>, i: int) -> AddressGap {
    AddressGap { gap_start_offset: le16(d, i) as u16, cb_range: le16(d, i + 2) as u16 }
}

/// Whether the fixed part of a live range of wire header size `header` fits in the record
/// bytes `d`; `d` lacks the two-byte length prefix that `header` counts.
pub open spec fn header_fits(d: Seq<u8>, header: int) -> bool {
    d.len() + 2 >= header
}

/// Whether the bytes after the fixed part form a whole number of gaps.
pub open spec fn gaps_whole(d: Seq<u8>, header: int) -> bool {
    (d.len() + 2 - header) % (GAP_SIZE as int) == 0
}

/// The number of gaps, by the record length.
pub open spec fn gap_count(d: Seq<u8>, header: int) -> int {
    (d.len() + 2 - header) / (GAP_SIZE as int)
}

/// The gap list that follows a fixed part of wire size `header`.
pub open spec fn gaps_of(d: Seq<u8>, header: int, gaps: Seq<AddressGap>) -> bool {
    &&& gaps.len() == gap_count(d, header)
    &&& forall|i: int|
        0 <= i < gaps.len() ==> #[trigger] gaps[i] == address_gap_at(d, header - 2 + 4 * i)
}

/// The error a live range with header size `header` gives when it does not decode.
pub open spec fn gaps_error(d: Seq<u8>, header: int) -> Error {
    if header_fits(d, header) {
        Error::MalformedGapList
    } else {
        Error::UnexpectedEof
    }
}

/// Reads the gap list after a fixed part of wire size `header`.
pub fn parse_gaps(d: &[u8], header: usize) -> (r: Result<Vec<AddressGap>, Error>)
    requires
        header == DEFRANGE_HEADER || header == DEFRANGE_SUBFIELD_HEADER,
        header_fits(d@, header as int),
    ensures
        (r is Ok) <==> gaps_whole(d@, header as int),
        r matches Ok(g) ==> gaps_of(d@, header as int, g@),
        r matches Err(e) ==> e == Error::MalformedGapList,
{
    let n = d.len();
    let start = header - 2;
    let rem = n - start;
    if rem % GAP_SIZE != 0 {
        return Err(Error::MalformedGapList);
    }
    let count = rem / GAP_SIZE;
    let mut gaps: Vec<AddressGap> = Vec::new();
    let mut i: usize = 0;
    let mut pos = start;
    while i < count
        invariant
            start == header - 2,
            count == gap_count(d@, header as int),
            n == d@.len(),
            rem == n - start,
            rem % 4 == 0,
            count * 4 == rem,
            i <= count,
            pos == start + 4 * i,
            gaps@.len() == i,
            forall|j: int|
                0 <= j < i ==> #[trigger] gaps@[j] == address_gap_at(d@, start + 4 * j),
        decreases count - i,
    {
        assert(pos + 4 <= n) by (nonlinear_arith)
            requires
                pos == start + 4 * i,
                i < count,
                count * 4 == rem,
                rem == n - start,
        ;
        let gap_start_offset = read_u16(d, pos);
        let cb_range = read_u16(d, pos + 2);
        gaps.push(AddressGap { gap_start_offset, cb_range });
        i = i + 1;
        pos = pos + 4;
    }
    Ok(gaps)
}

/// A live range of a variable, evaluated by a program.
#[derive(Clone, Debug, PartialEq, Eq)]
pub struct DefRangeSymbol {
    /// Program to evaluate the value of the symbol
    pub program: u32,
    /// Range of addresses where this program is valid
    pub range: AddressRange,
    /// The value is not available in following gaps
    pub gaps: Vec<AddressGap>,
}

pub open spec fn def_range_of(d: Seq<u8>, v: DefRangeSymbol) -> bool {
    &&& v.program == le32(d, 2)
    &&& v.range == address_range_at(d, 6)
    &&& gaps_of(d, DEFRANGE_HEADER as int, v.gaps@)
}

impl DefRangeSymbol {
    /// Decodes the record bytes `d`, kind first.
    pub fn decode(d: &[u8]) -> (r: Result<(Self, usize), Error>)
        ensures
            (r is Ok) <==> header_fits(d@, DEFRANGE_HEADER as int) && gaps_whole(
                d@,
                DEFRANGE_HEADER as int,
            ),
            r matches Ok((v, n)) ==> n == d@.len() && def_range_of(d@, v),
            r matches Err(e) ==> e == gaps_error(d@, DEFRANGE_HEADER as int),
    {
        if d.len() < 14 {
            return Err(Error::UnexpectedEof);
        }
        let program = read_u32(d, 2);
        let range = read_address_range(d, 6);
        let gaps = parse_gaps(d, DEFRANGE_HEADER)?;
        Ok((DefRangeSymbol { program, range, gaps }, d.len()))
    }
}

/// A live range of a sub field of a variable.
#[derive(Clone, Debug, PartialEq, Eq)]
pub struct DefRangeSubFieldSymbol {
    /// Program to evaluate the value of the symbol
    pub program: u32,
    /// Offset in parent variable.
    pub parent_offset: u32,
    /// Range of addresses where this program is valid
    pub range: AddressRange,
    /// The value is not available in following gaps
    pub gaps: Vec<AddressGap>,
}

pub open spec fn def_range_sub_field_of(d: Seq<u8>, v: DefRangeSubFieldSymbol) -> bool {
    &&& v.program == le32(d, 2)
    &&& v.parent_offset == le32(d, 6)
    &&& v.range == address_range_at(d, 10)
    &&& gaps_of(d, DEFRANGE_SUBFIELD_HEADER as int, v.gaps@)
}

impl DefRangeSubFieldSymbol {
    /// Decodes the record bytes `d`, kind first.
    pub fn decode(d: &[u8]) -> (r: Result<(Self, usize), Error>)
        ensures
            (r is Ok) <==> header_fits(d@, DEFRANGE_SUBFIELD_HEADER as int) && gaps_whole(
                d@,
                DEFRANGE_SUBFIELD_HEADER as int,
            ),
            r matches Ok((v, n)) ==> n == d@.len() && def_range_sub_field_of(d@, v),
            r matches Err(e) ==> e == gaps_error(d@, DEFRANGE_SUBFIELD_HEADER as int),
    {
        if d.len() < 18 {
            return Err(Error::UnexpectedEof);
        }
        let program = read_u32(d, 2);
        let parent_offset = read_u32(d, 6);
        let range = read_address_range(d, 10);
        let gaps = parse_gaps(d, DEFRANGE_SUBFIELD_HEADER)?;
        Ok((DefRangeSubFieldSymbol { program, parent_offset, range, gaps }, d.len()))
    }
}

/// A live range of a variable held in a register.
#[derive(Clone, Debug, PartialEq, Eq)]
pub struct DefRangeRegisterSymbol {
    /// Register to hold the value of the symbol
    pub register: Register,
    /// Attribute of the register range.
    pub flags: RangeFlags,
    /// Range of addresses where this program is valid
    pub range: AddressRange,
    /// The value is not available in following gaps
    pub gaps: Vec<AddressGap>,
}

pub open spec fn def_range_register_of(d: Seq<u8>, v: DefRangeRegisterSymbol) -> bool {
    &&& v.register.0 == le16(d, 2)
    &&& v.flags == range_flags(le16(d, 4) as u16)
    &&& v.range == address_range_at(d, 6)
    &&& gaps_of(d, DEFRANGE_HEADER as int, v.gaps@)
}

impl DefRangeRegisterSymbol {
    /// Decodes the record bytes `d`, kind first.
    pub fn decode(d: &[u8]) -> (r: Result<(Self, usize), Error>)
        ensures
            (r is Ok) <==> header_fits(d@, DEFRANGE_HEADER as int) && gaps_whole(
                d@,
                DEFRANGE_HEADER as int,
            ),
            r matches Ok((v, n)) ==> n == d@.len() && def_range_register_of(d@, v),
            r matches Err(e) ==> e == gaps_error(d@, DEFRANGE_HEADER as int),
    {
        if d.len() < 14 {
            return Err(Error::UnexpectedEof);
        }
        let register = Register(read_u16(d, 2));
        let flags = RangeFlags::from_raw(read_u16(d, 4));
        let range = read_address_range(d, 6);
        let gaps = parse_gaps(d, DEFRANGE_HEADER)?;
        Ok((DefRangeRegisterSymbol { register, flags, range, gaps }, d.len()))
    }
}

/// A live range of a variable at a fixed offset from the frame pointer.
#[derive(Clone, Debug, PartialEq, Eq)]
pub struct DefRangeFramePointerRelativeSymbol {
    /// offset to frame pointer
    pub offset: i32,
    /// Range of addresses where this program is valid
    pub range: AddressRange,
    /// The value is not available in following gaps
    pub gaps: Vec<AddressGap>,
}

pub open spec fn def_range_frame_pointer_relative_of(
    d: Seq<u8>,
    v: DefRangeFramePointerRelativeSymbol,
) -> bool {
    &&& v.offset == le32(d, 2) as i32
    &&& v.range == address_range_at(d, 6)
    &&& gaps_of(d, DEFRANGE_HEADER as int, v.gaps@)
}

impl DefRangeFramePointerRelativeSymbol {
    /// Decodes the record bytes `d`, kind first.
    pub fn decode(d: &[u8]) -> (r: Result<(Self, usize), Error>)
        ensures
            (r is Ok) <==> header_fits(d@, DEFRANGE_HEADER as int) && gaps_whole(
                d@,
                DEFRANGE_HEADER as int,
            ),
            r matches Ok((v, n)) ==> n == d@.len() && def_range_frame_pointer_relative_of(d@, v),
            r matches Err(e) ==> e == gaps_error(d@, DEFRANGE_HEADER as int),
    {
        if d.len() < 14 {
            return Err(Error::UnexpectedEof);
        }
        let offset = read_i32(d, 2);
        let range = read_address_range(d, 6);
        let gaps = parse_gaps(d, DEFRANGE_HEADER)?;
        Ok((DefRangeFramePointerRelativeSymbol { offset, range, gaps }, d.len()))
    }
}

/// A frame-pointer-relative variable valid in the whole scope of its function.
#[derive(Clone, Copy, Debug, PartialEq, Eq)]
pub struct DefRangeFramePointerRelativeFullScopeSymbol {
    /// offset to frame pointer
    pub offset: i32,
}

impl DefRangeFramePointerRelativeFullScopeSymbol {
    /// Decodes the record bytes `d`, kind first.
    pub fn decode(d: &[u8]) -> (r: Result<(Self, usize), Error>)
        ensures
            (r is Ok) <==> d@.len() >= 6,
            r matches Ok((v, n)) ==> n == 6 && v.offset == le32(d@, 2) as i32,
            r matches Err(e) ==> e == Error::UnexpectedEof,
    {
        if d.len() < 6 {
            return Err(Error::UnexpectedEof);
        }
        Ok((DefRangeFramePointerRelativeFullScopeSymbol { offset: read_i32(d, 2) }, 6))
    }
}

/// A live range of a sub field of a variable held in a register.
#[derive(Clone, Debug, PartialEq, Eq)]
pub struct DefRangeSubFieldRegisterSymbol {
    /// Register to hold the value of the symbol
    pub register: Register,
    /// Attribute of the register range.
    pub flags: RangeFlags,
    /// Offset in parent variable: the low twelve bits of its word.
    pub offset: u32,
    /// Range of addresses where this program is valid
    pub range: AddressRange,
    /// The value is not available in following gaps
    pub gaps: Vec<AddressGap>,
}

pub open spec fn def_range_sub_field_register_of(
    d: Seq<u8>,
    v: DefRangeSubFieldRegisterSymbol,
) -> bool {
    &&& v.register.0 == le16(d, 2)
    &&& v.flags == range_flags(le16(d, 4) as u16)
    &&& v.offset == (le32(d, 6) as u32) & 0xFFFu32
    &&& v.range == address_range_at(d, 10)
    &&& gaps_of(d, DEFRANGE_SUBFIELD_HEADER as int, v.gaps@)
}

impl DefRangeSubFieldRegisterSymbol {
    /// Decodes the record bytes `d`, kind first.
    pub fn decode(d: &[u8]) -> (r: Result<(Self, usize), Error>)
        ensures
            (r is Ok) <==> header_fits(d@, DEFRANGE_SUBFIELD_HEADER as int) && gaps_whole(
                d@,
                DEFRANGE_SUBFIELD_HEADER as int,
            ),
            r matches Ok((v, n)) ==> n == d@.len() && def_range_sub_field_register_of(d@, v),
            r matches Err(e) ==> e == gaps_error(d@, DEFRANGE_SUBFIELD_HEADER as int),
    {
        if d.len() < 18 {
            return Err(Error::UnexpectedEof);
        }
        let register = Register(read_u16(d, 2));
        let flags = RangeFlags::from_raw(read_u16(d, 4));
        let offset = read_u32(d, 6) & 0xFFFu32;
        let range = read_address_range(d, 10);
        let gaps = parse_gaps(d, DEFRANGE_SUBFIELD_HEADER)?;
        Ok((DefRangeSubFieldRegisterSymbol { register, flags, offset, range, gaps }, d.len()))
    }
}

/// A live range of a variable addressed relative to a register.
#[derive(Clone, Debug, PartialEq, Eq)]
pub struct DefRangeRegisterRelativeSymbol {
    /// Register to hold the base pointer of the symbol
    pub base_register: Register,
    /// Spilled member for s.i.
    pub spilled_udt_member: u16,
    /// Offset in parent variable.
    pub offset_parent: u16,
    /// offset to register
    pub offset_base_pointer: i32,
    /// Range of addresses where this program is valid
    pub range: AddressRange,
    /// The value is not available in following gaps
    pub gaps: Vec<AddressGap>,
}

pub open spec fn def_range_register_relative_of(
    d: Seq<u8>,
    v: DefRangeRegisterRelativeSymbol,
) -> bool {
    let bits = le16(d, 4) as u16;
    &&& v.base_register.0 == le16(d, 2)
    &&& v.spilled_udt_member == bits & 0x1
    &&& v.offset_parent == (bits >> 4u16) & 0xFFF
    &&& v.offset_base_pointer == le32(d, 6) as i32
    &&& v.range == address_range_at(d, 10)
    &&& gaps_of(d, DEFRANGE_SUBFIELD_HEADER as int, v.gaps@)
}

impl DefRangeRegisterRelativeSymbol {
    /// Decodes the record bytes `d`, kind first.
    pub fn decode(d: &[u8]) -> (r: Result<(Self, usize), Error>)
        ensures
            (r is Ok) <==> header_fits(d@, DEFRANGE_SUBFIELD_HEADER as int) && gaps_whole(
                d@,
                DEFRANGE_SUBFIELD_HEADER as int,
            ),
            r matches Ok((v, n)) ==> n == d@.len() && def_range_register_relative_of(d@, v),
            r matches Err(e) ==> e == gaps_error(d@, DEFRANGE_SUBFIELD_HEADER as int),
    {
        if d.len() < 18 {
            return Err(Error::UnexpectedEof);
        }
        let base_register = Register(read_u16(d, 2));
        let bits = read_u16(d, 4);
        let offset_base_pointer = read_i32(d, 6);
        let range = read_address_range(d, 10);
        let gaps = parse_gaps(d, DEFRANGE_SUBFIELD_HEADER)?;
        Ok((DefRangeRegisterRelativeSymbol {
            base_register,
            spilled_udt_member: bits & 0x1,
            offset_parent: (bits >> 4u16) & 0xFFF,
            offset_base_pointer,
            range,
            gaps,
        }, d.len()))
    }
}

} // verus!
