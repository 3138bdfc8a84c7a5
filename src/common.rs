//! Plain identifiers and error values shared by the decoders.
use vstd::prelude::*;

verus! {

/// Byte offset within the symbol stream at which a record, its length prefix first, starts.
#[derive(Clone, Copy, Debug, PartialEq, Eq, Structural)]
pub struct SymbolIndex(pub u32);

/// Index into the type stream, passed through uninterpreted.
#[derive(Clone, Copy, Debug, PartialEq, Eq, Structural)]
pub struct TypeIndex(pub u32);

/// Index into the id stream, passed through uninterpreted.
#[derive(Clone, Copy, Debug, PartialEq, Eq, Structural)]
pub struct IdIndex(pub u32);

/// A machine register number.
#[derive(Clone, Copy, Debug, PartialEq, Eq, Structural)]
pub struct Register(pub u16);

/// A managed metadata token.
#[derive(Clone, Copy, Debug, PartialEq, Eq, Structural)]
pub struct COMToken(pub u32);

/// Characteristics flags of a section, passed through uninterpreted.
#[derive(Clone, Copy, Debug, PartialEq, Eq, Structural)]
pub struct SectionCharacteristics(pub u32);

/// A section-relative offset, resolved to an address only by an address map.
#[derive(Clone, Copy, Debug, PartialEq, Eq, Structural)]
pub struct PdbInternalSectionOffset {
    /// Offset within the section.
    pub offset: u32,
    /// Section number.
    pub section: u16,
}

impl PdbInternalSectionOffset {
    /// Builds an offset from its section and its offset within it.
    pub fn new(section: u16, offset: u32) -> (r: Self)
        ensures
            r.section == section,
            r.offset == offset,
    {
        PdbInternalSectionOffset { offset, section }
    }
}

/// Errors reported while walking or decoding symbol records.
#[derive(Clone, Copy, Debug, PartialEq, Eq, Structural)]
pub enum Error {
    /// Fewer bytes remain than a field requires.
    UnexpectedEof,
    /// A record's declared length cannot even hold its kind.
    SymbolTooShort,
    /// The record kind is not one this decoder knows.
    UnimplementedSymbolKind(u16),
    /// A numeric leaf starts with an unknown prefix.
    UnexpectedNumericPrefix(u16),
    /// The trailing gap list of a live range is not a whole number of entries.
    MalformedGapList,
}

} // verus!
