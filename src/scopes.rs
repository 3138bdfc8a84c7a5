//! Decoders of the records that open a scope, and of labels.
//!
//! As in `records`, each type has a predicate `*_ok` for the record bytes on which it
//! decodes and a predicate `*_of` giving every decoded field.
use vstd::prelude::*;
use crate::bytes::{
    cstring_fits, cstring_text, first_zero, fits, le16, le32, name_end, name_fits, name_text,
    parse_optional_name, parse_symbol_name, read_cstring, read_u16, read_u32, read_u8,
};
use crate::common::{COMToken, Error, IdIndex, PdbInternalSectionOffset, SymbolIndex, TypeIndex};
use crate::fields::{optional_index, parse_optional_index, read_section_offset, section_offset_at};
use crate::flags::{procedure_flags, separated_code_flags, ProcedureFlags, SeparatedCodeFlags};
use crate::kinds::{
    S_GMANPROC, S_GPROC32, S_GPROC32_ID, S_GPROC32_ST, S_INLINESITE2, S_LPROC32_DPC,
    S_LPROC32_DPC_ID,
};
use crate::records::{optional_name_end, optional_name_is, optional_name_ok};

verus! {

/// A procedure, such as a function or method.
#[derive(Clone, Debug, PartialEq, Eq)]
pub struct ProcedureSymbol {
    /// Whether this is a global or local procedure.
    pub global: bool,
    /// Indicates Deferred Procedure Calls (DPC).
    pub dpc: bool,
    /// The parent scope that this procedure is nested in.
    pub parent: Option<SymbolIndex>,
    /// The end symbol of this procedure.
    pub end: SymbolIndex,
    /// The next procedure symbol.
    pub next: Option<SymbolIndex>,
    /// The length of the code block covered by this procedure.
    pub len: u32,
    /// Start offset of the procedure's body code, which marks the end of the prologue.
    pub dbg_start_offset: u32,
    /// End offset of the procedure's body code, which marks the start of the epilogue.
    pub dbg_end_offset: u32,
    /// Identifier of the procedure type.
    pub type_index: TypeIndex,
    /// Code offset of the start of this procedure.
    pub offset: PdbInternalSectionOffset,
    /// Detailed flags of this procedure.
    pub flags: ProcedureFlags,
    /// The full, demangled name of the procedure.
    pub name: String,
}

pub open spec fn procedure_ok(d: Seq<u8>, kind: u16) -> bool {
    name_fits(d, 37, kind)
}

pub open spec fn procedure_of(d: Seq<u8>, kind: u16, v: ProcedureSymbol) -> bool {
    &&& v.global == (kind == S_GPROC32 || kind == S_GPROC32_ST || kind == S_GPROC32_ID)
    &&& v.dpc == (kind == S_LPROC32_DPC || kind == S_LPROC32_DPC_ID)
    &&& v.parent == optional_index(le32(d, 2) as u32)
    &&& v.end.0 == le32(d, 6)
    &&& v.next == optional_index(le32(d, 10) as u32)
    &&& v.len == le32(d, 14)
    &&& v.dbg_start_offset == le32(d, 18)
    &&& v.dbg_end_offset == le32(d, 22)
    &&& v.type_index.0 == le32(d, 26)
    &&& v.offset == section_offset_at(d, 30)
    &&& v.flags == procedure_flags(d[36])
    &&& v.name@ == name_text(d, 37, kind)
}

impl ProcedureSymbol {
    /// Decodes the record bytes `d`, kind first, as a record of kind `kind`.
    pub fn decode(d: &[u8], kind: u16) -> (r: Result<(Self, usize), Error>)
        ensures
            (r is Ok) <==> procedure_ok(d@, kind),
            r matches Ok((v, n)) ==> n == name_end(d@, 37, kind) && procedure_of(d@, kind, v),
            r matches Err(e) ==> e == Error::UnexpectedEof,
    {
        if d.len() < 37 {
            return Err(Error::UnexpectedEof);
        }
        let parent = parse_optional_index(d, 2);
        let end = SymbolIndex(read_u32(d, 6));
        let next = parse_optional_index(d, 10);
        let len = read_u32(d, 14);
        let dbg_start_offset = read_u32(d, 18);
        let dbg_end_offset = read_u32(d, 22);
        let type_index = TypeIndex(read_u32(d, 26));
        let offset = read_section_offset(d, 30);
        let flags = ProcedureFlags::from_raw(read_u8(d, 36));
        let (name, read_to) = parse_symbol_name(d, 37, kind)?;
        Ok((ProcedureSymbol {
            global: kind == S_GPROC32 || kind == S_GPROC32_ST || kind == S_GPROC32_ID,
            dpc: kind == S_LPROC32_DPC || kind == S_LPROC32_DPC_ID,
            parent,
            end,
            next,
            len,
            dbg_start_offset,
            dbg_end_offset,
            type_index,
            offset,
            flags,
            name,
        }, read_to))
    }
}

/// A managed procedure, such as a function or method.
#[derive(Clone, Debug, PartialEq, Eq)]
pub struct ManagedProcedureSymbol {
    /// Whether this is a global or local procedure.
    pub global: bool,
    /// The parent scope that this procedure is nested in.
    pub parent: Option<SymbolIndex>,
    /// The end symbol of this procedure.
    pub end: SymbolIndex,
    /// The next procedure symbol.
    pub next: Option<SymbolIndex>,
    /// The length of the code block covered by this procedure.
    pub len: u32,
    /// Start offset of the procedure's body code, which marks the end of the prologue.
    pub dbg_start_offset: u32,
    /// End offset of the procedure's body code, which marks the start of the epilogue.
    pub dbg_end_offset: u32,
    /// Managed metadata token.
    pub token: COMToken,
    /// Code offset of the start of this procedure.
    pub offset: PdbInternalSectionOffset,
    /// Detailed flags of this procedure.
    pub flags: ProcedureFlags,
    /// Register the return value is in.
    pub return_register: u16,
    /// Optional name of the procedure.
    pub name: Option<String>,
}

pub open spec fn managed_procedure_ok(d: Seq<u8>, kind: u16) -> bool {
    fits(d, 0, 39) && optional_name_ok(d, 39, kind)
}

pub open spec fn managed_procedure_of(d: Seq<u8>, kind: u16, v: ManagedProcedureSymbol) -> bool {
    &&& v.global == (kind == S_GMANPROC)
    &&& v.parent == optional_index(le32(d, 2) as u32)
    &&& v.end.0 == le32(d, 6)
    &&& v.next == optional_index(le32(d, 10) as u32)
    &&& v.len == le32(d, 14)
    &&& v.dbg_start_offset == le32(d, 18)
    &&& v.dbg_end_offset == le32(d, 22)
    &&& v.token.0 == le32(d, 26)
    &&& v.offset == section_offset_at(d, 30)
    &&& v.flags == procedure_flags(d[36])
    &&& v.return_register == le16(d, 37)
    &&& optional_name_is(d, 39, kind, v.name)
}

impl ManagedProcedureSymbol {
    /// Decodes the record bytes `d`, kind first, as a record of kind `kind`.
    pub fn decode(d: &[u8], kind: u16) -> (r: Result<(Self, usize), Error>)
        ensures
            (r is Ok) <==> managed_procedure_ok(d@, kind),
            r matches Ok((v, n)) ==> n == optional_name_end(d@, 39, kind)
                && managed_procedure_of(d@, kind, v),
            r matches Err(e) ==> e == Error::UnexpectedEof,
    {
        if d.len() < 39 {
            return Err(Error::UnexpectedEof);
        }
        let parent = parse_optional_index(d, 2);
        let end = SymbolIndex(read_u32(d, 6));
        let next = parse_optional_index(d, 10);
        let len = read_u32(d, 14);
        let dbg_start_offset = read_u32(d, 18);
        let dbg_end_offset = read_u32(d, 22);
        let token = COMToken(read_u32(d, 26));
        let offset = read_section_offset(d, 30);
        let flags = ProcedureFlags::from_raw(read_u8(d, 36));
        let return_register = read_u16(d, 37);
        let (name, read_to) = parse_optional_name(d, 39, kind)?;
        Ok((ManagedProcedureSymbol {
            global: kind == S_GMANPROC,
            parent,
            end,
            next,
            len,
            dbg_start_offset,
            dbg_end_offset,
            token,
            offset,
            flags,
            return_register,
            name,
        }, read_to))
    }
}

/// A label.
#[derive(Clone, Debug, PartialEq, Eq)]
pub struct LabelSymbol {
    /// Code offset of the start of this label.
    pub offset: PdbInternalSectionOffset,
    /// Detailed flags of this label.
    pub flags: ProcedureFlags,
    /// Name of the symbol.
    pub name: String,
}

pub open spec fn label_ok(d: Seq<u8>, kind: u16) -> bool {
    name_fits(d, 9, kind)
}

pub open spec fn label_of(d: Seq<u8>, kind: u16, v: LabelSymbol) -> bool {
    &&& v.offset == section_offset_at(d, 2)
    &&& v.flags == procedure_flags(d[8])
    &&& v.name@ == name_text(d, 9, kind)
}

impl LabelSymbol {
    /// Decodes the record bytes `d`, kind first, as a record of kind `kind`.
    pub fn decode(d: &[u8], kind: u16) -> (r: Result<(Self, usize), Error>)
        ensures
            (r is Ok) <==> label_ok(d@, kind),
            r matches Ok((v, n)) ==> n == name_end(d@, 9, kind) && label_of(d@, kind, v),
            r matches Err(e) ==> e == Error::UnexpectedEof,
    {
        if d.len() < 9 {
            return Err(Error::UnexpectedEof);
        }
        let offset = read_section_offset(d, 2);
        let flags = ProcedureFlags::from_raw(read_u8(d, 8));
        let (name, read_to) = parse_symbol_name(d, 9, kind)?;
        Ok((LabelSymbol { offset, flags, name }, read_to))
    }
}

/// A block.
#[derive(Clone, Debug, PartialEq, Eq)]
pub struct BlockSymbol {
    /// The parent scope that this block is nested in.
    pub parent: SymbolIndex,
    /// The end symbol of this block.
    pub end: SymbolIndex,
    /// The length of the block.
    pub len: u32,
    /// Code offset of the start of this block.
    pub offset: PdbInternalSectionOffset,
    /// The block name.
    pub name: String,
}

pub open spec fn block_ok(d: Seq<u8>, kind: u16) -> bool {
    name_fits(d, 20, kind)
}

pub open spec fn block_of(d: Seq<u8>, kind: u16, v: BlockSymbol) -> bool {
    &&& v.parent.0 == le32(d, 2)
    &&& v.end.0 == le32(d, 6)
    &&& v.len == le32(d, 10)
    &&& v.offset == section_offset_at(d, 14)
    &&& v.name@ == name_text(d, 20, kind)
}

impl BlockSymbol {
    /// Decodes the record bytes `d`, kind first, as a record of kind `kind`.
    pub fn decode(d: &[u8], kind: u16) -> (r: Result<(Self, usize), Error>)
        ensures
            (r is Ok) <==> block_ok(d@, kind),
            r matches Ok((v, n)) ==> n == name_end(d@, 20, kind) && block_of(d@, kind, v),
            r matches Err(e) ==> e == Error::UnexpectedEof,
    {
        if d.len() < 20 {
            return Err(Error::UnexpectedEof);
        }
        let parent = SymbolIndex(read_u32(d, 2));
        let end = SymbolIndex(read_u32(d, 6));
        let len = read_u32(d, 10);
        let offset = read_section_offset(d, 14);
        let (name, read_to) = parse_symbol_name(d, 20, kind)?;
        Ok((BlockSymbol { parent, end, len, offset, name }, read_to))
    }
}

/// The target of a "this"-adjusting thunk.
#[derive(Clone, Debug, PartialEq, Eq)]
pub struct ThunkAdjustor {
    /// Amount added to "this".
    pub delta: u16,
    /// Name of the function called after the adjustment.
    pub target: String,
}

/// The kind of a thunk.
#[derive(Clone, Debug, PartialEq, Eq)]
pub enum ThunkKind {
    /// Standard thunk
    NoType,
    /// "this" adjustor thunk with delta and target
    Adjustor(ThunkAdjustor),
    /// Virtual call thunk with table entry
    VCall(u16),
    /// pcode thunk
    PCode,
    /// thunk which loads the address to jump to via unknown means
    Load,
    /// Unknown with ordinal value
    Unknown(u8),
}

/// A thunk.
#[derive(Clone, Debug, PartialEq, Eq)]
pub struct ThunkSymbol {
    /// The parent scope that this thunk is nested in.
    pub parent: Option<SymbolIndex>,
    /// The end symbol of this thunk.
    pub end: SymbolIndex,
    /// The next symbol.
    pub next: Option<SymbolIndex>,
    /// Code offset of the start of this thunk.
    pub offset: PdbInternalSectionOffset,
    /// The length of the thunk.
    pub len: u16,
    /// The kind of the thunk.
    pub kind: ThunkKind,
    /// The thunk name.
    pub name: String,
}

pub open spec fn thunk_ok(d: Seq<u8>, kind: u16) -> bool {
    name_fits(d, 23, kind) && ({
        let p = name_end(d, 23, kind);
        if d[22] == 1 {
            fits(d, p, 2) && cstring_fits(d, p + 2)
        } else if d[22] == 2 {
            fits(d, p, 2)
        } else {
            true
        }
    })
}

/// The thunk kind given by ordinal `ord`, with its data at `p`.
pub open spec fn thunk_kind_of(d: Seq<u8>, ord: u8, p: int, k: ThunkKind) -> bool {
    if ord == 0 {
        k is NoType
    } else if ord == 1 {
        k matches ThunkKind::Adjustor(a) && a.delta == le16(d, p) && a.target@ == cstring_text(
            d,
            p + 2,
        )
    } else if ord == 2 {
        k == ThunkKind::VCall(le16(d, p) as u16)
    } else if ord == 3 {
        k is PCode
    } else if ord == 4 {
        k is Load
    } else {
        k == ThunkKind::Unknown(ord)
    }
}

/// Position just past a thunk record's last field: its name, or the data its kind adds.
pub open spec fn thunk_end(d: Seq<u8>, kind: u16) -> int {
    let p = name_end(d, 23, kind);
    if d[22] == 1 {
        first_zero(d, p + 2) + 1
    } else if d[22] == 2 {
        p + 2
    } else {
        p
    }
}

pub open spec fn thunk_of(d: Seq<u8>, kind: u16, v: ThunkSymbol) -> bool {
    &&& v.parent == optional_index(le32(d, 2) as u32)
    &&& v.end.0 == le32(d, 6)
    &&& v.next == optional_index(le32(d, 10) as u32)
    &&& v.offset == section_offset_at(d, 14)
    &&& v.len == le16(d, 20)
    &&& thunk_kind_of(d, d[22], name_end(d, 23, kind), v.kind)
    &&& v.name@ == name_text(d, 23, kind)
}

impl ThunkSymbol {
    /// Decodes the record bytes `d`, kind first, as a record of kind `kind`.
    pub fn decode(d: &[u8], kind: u16) -> (r: Result<(Self, usize), Error>)
        ensures
            (r is Ok) <==> thunk_ok(d@, kind),
            r matches Ok((v, n)) ==> n == thunk_end(d@, kind) && thunk_of(d@, kind, v),
            r matches Err(e) ==> e == Error::UnexpectedEof,
    {
        if d.len() < 23 {
            return Err(Error::UnexpectedEof);
        }
        let parent = parse_optional_index(d, 2);
        let end = SymbolIndex(read_u32(d, 6));
        let next = parse_optional_index(d, 10);
        let offset = read_section_offset(d, 14);
        let len = read_u16(d, 20);
        let ord = read_u8(d, 22);
        let (name, p) = parse_symbol_name(d, 23, kind)?;
        let (thunk_kind, read_to) = if ord == 0 {
            (ThunkKind::NoType, p)
        } else if ord == 1 {
            if d.len() - p < 2 {
                return Err(Error::UnexpectedEof);
            }
            let delta = read_u16(d, p);
            let (target, q) = read_cstring(d, p + 2)?;
            (ThunkKind::Adjustor(ThunkAdjustor { delta, target }), q)
        } else if ord == 2 {
            if d.len() - p < 2 {
                return Err(Error::UnexpectedEof);
            }
            (ThunkKind::VCall(read_u16(d, p)), p + 2)
        } else if ord == 3 {
            (ThunkKind::PCode, p)
        } else if ord == 4 {
            (ThunkKind::Load, p)
        } else {
            (ThunkKind::Unknown(ord), p)
        };
        Ok((ThunkSymbol { parent, end, next, offset, len, kind: thunk_kind, name }, read_to))
    }
}

/// A block of separated code.
#[derive(Clone, Copy, Debug, PartialEq, Eq)]
pub struct SeparatedCodeSymbol {
    /// The parent scope that this block is nested in.
    pub parent: SymbolIndex,
    /// The end symbol of this block.
    pub end: SymbolIndex,
    /// The length of the block.
    pub len: u32,
    /// Flags for this symbol
    pub flags: SeparatedCodeFlags,
    /// Code offset of the start of the separated code.
    pub offset: PdbInternalSectionOffset,
    /// Parent offset.
    pub parent_offset: PdbInternalSectionOffset,
}

pub open spec fn separated_code_ok(d: Seq<u8>) -> bool {
    d.len() >= 30
}

pub open spec fn separated_code_of(d: Seq<u8>, v: SeparatedCodeSymbol) -> bool {
    &&& v.parent.0 == le32(d, 2)
    &&& v.end.0 == le32(d, 6)
    &&& v.len == le32(d, 10)
    &&& v.flags == separated_code_flags(le32(d, 14) as u32)
    &&& v.offset == PdbInternalSectionOffset {
        offset: le32(d, 18) as u32,
        section: le16(d, 26) as u16,
    }
    &&& v.parent_offset == PdbInternalSectionOffset {
        offset: le32(d, 22) as u32,
        section: le16(d, 28) as u16,
    }
}

impl SeparatedCodeSymbol {
    /// Decodes the record bytes `d`, kind first.
    pub fn decode(d: &[u8]) -> (r: Result<(Self, usize), Error>)
        ensures
            (r is Ok) <==> separated_code_ok(d@),
            r matches Ok((v, n)) ==> n == 30 && separated_code_of(d@, v),
            r matches Err(e) ==> e == Error::UnexpectedEof,
    {
        if d.len() < 30 {
            return Err(Error::UnexpectedEof);
        }
        let parent = SymbolIndex(read_u32(d, 2));
        let end = SymbolIndex(read_u32(d, 6));
        let len = read_u32(d, 10);
        let flags = SeparatedCodeFlags::from_raw(read_u32(d, 14));
        let offset = read_u32(d, 18);
        let parent_offset = read_u32(d, 22);
        let section = read_u16(d, 26);
        let parent_section = read_u16(d, 28);
        Ok((SeparatedCodeSymbol {
            parent,
            end,
            len,
            flags,
            offset: PdbInternalSectionOffset { offset, section },
            parent_offset: PdbInternalSectionOffset {
                offset: parent_offset,
                section: parent_section,
            },
        }, 30))
    }
}

/// The line program of an inline call site, kept as its raw bytes.
#[derive(Clone, Debug, PartialEq, Eq)]
pub struct BinaryAnnotations {
    data: Vec<u8>,
}

impl BinaryAnnotations {
    /// The raw bytes of the line program.
    pub closed spec fn spec_bytes(&self) -> Seq<u8> {
        self.data@
    }

    /// Wraps a copy of the raw line-program bytes `data`.
    pub fn new(data: &[u8]) -> (r: Self)
        ensures
            r.spec_bytes() == data@,
    {
        let mut v: Vec<u8> = Vec::new();
        let mut i: usize = 0;
        while i < data.len()
            invariant
                i <= data@.len(),
                v@ == data@.subrange(0, i as int),
            decreases data@.len() - i,
        {
            v.push(data[i]);
            i = i + 1;
        }
        assert(v@ =~= data@);
        BinaryAnnotations { data: v }
    }

    /// The raw bytes of the line program.
    pub fn as_bytes(&self) -> (r: &[u8])
        ensures
            r@ == self.spec_bytes(),
    {
        self.data.as_slice()
    }
}

/// The call site of an inlined function.
#[derive(Clone, Debug, PartialEq, Eq)]
pub struct InlineSiteSymbol {
    /// Index of the parent function or call site.
    pub parent: Option<SymbolIndex>,
    /// The end symbol of this call site.
    pub end: SymbolIndex,
    /// Identifier of the inlined function.
    pub inlinee: IdIndex,
    /// The total number of invocations of the inline function.
    pub invocations: Option<u32>,
    /// Binary annotations containing the line program of this call site.
    pub annotations: BinaryAnnotations,
}

/// Where an inline site's annotations start.
pub open spec fn inline_site_tail(kind: u16) -> int {
    if kind == S_INLINESITE2 {
        18
    } else {
        14
    }
}

pub open spec fn inline_site_ok(d: Seq<u8>, kind: u16) -> bool {
    d.len() >= inline_site_tail(kind)
}

pub open spec fn inline_site_of(d: Seq<u8>, kind: u16, v: InlineSiteSymbol) -> bool {
    &&& v.parent == optional_index(le32(d, 2) as u32)
    &&& v.end.0 == le32(d, 6)
    &&& v.inlinee.0 == le32(d, 10)
    &&& v.invocations == if kind == S_INLINESITE2 {
        Some(le32(d, 14) as u32)
    } else {
        None
    }
    &&& v.annotations.spec_bytes() == d.subrange(inline_site_tail(kind), d.len() as int)
}

impl InlineSiteSymbol {
    /// Decodes the record bytes `d`, kind first, as a record of kind `kind`.
    pub fn decode(d: &[u8], kind: u16) -> (r: Result<(Self, usize), Error>)
        ensures
            (r is Ok) <==> inline_site_ok(d@, kind),
            r matches Ok((v, n)) ==> n == d@.len() && inline_site_of(d@, kind, v),
            r matches Err(e) ==> e == Error::UnexpectedEof,
    {
        let tail: usize = if kind == S_INLINESITE2 {
            18
        } else {
            14
        };
        if d.len() < tail {
            return Err(Error::UnexpectedEof);
        }
        let parent = parse_optional_index(d, 2);
        let end = SymbolIndex(read_u32(d, 6));
        let inlinee = IdIndex(read_u32(d, 10));
        let invocations = if kind == S_INLINESITE2 {
            Some(read_u32(d, 14))
        } else {
            None
        };
        let annotations = BinaryAnnotations::new(vstd::slice::slice_subrange(d, tail, d.len()));
        Ok((InlineSiteSymbol { parent, end, inlinee, invocations, annotations }, d.len()))
    }
}

} // verus!
