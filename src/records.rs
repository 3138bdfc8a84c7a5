//! Decoders of the records that carry a name after a fixed header.
//!
//! Each record type has a predicate `*_ok` saying on which record bytes it decodes, and a
//! predicate `*_of` saying what every field of the decoded value is. The bytes `d` start
//! with the two-byte kind; the fixed fields follow at the offsets named in the predicates.
use vstd::prelude::*;
use crate::bytes::{
    cstring_fits, cstring_text, first_zero, fits, le16, le32, name_end, name_fits, name_text,
    parse_optional_name, parse_symbol_name, read_u16, read_u32, S_ST_MAX,
};
use crate::common::{Error, PdbInternalSectionOffset, SymbolIndex, TypeIndex};
use crate::fields::{
    leaf_width, module_index, parse_module_index, parse_variant, read_section_offset,
    section_offset_at, variant_at, Variant,
};
use crate::kinds::{
    S_GDATA32, S_GDATA32_ST, S_GMANDATA, S_GMANDATA_ST, S_GTHREAD32, S_GTHREAD32_ST, S_LMANDATA,
    S_LMANDATA_ST, S_MANCONSTANT, S_PROCREF, S_PROCREF_ST,
};

verus! {

/// Name of the object file of this module.
#[derive(Clone, Debug, PartialEq, Eq)]
pub struct ObjNameSymbol {
    /// Signature.
    pub signature: u32,
    /// Path to the object file.
    pub name: String,
}

pub open spec fn obj_name_ok(d: Seq<u8>, kind: u16) -> bool {
    name_fits(d, 6, kind)
}

pub open spec fn obj_name_of(d: Seq<u8>, kind: u16, v: ObjNameSymbol) -> bool {
    v.signature == le32(d, 2) && v.name@ == name_text(d, 6, kind)
}

impl ObjNameSymbol {
    /// Decodes the record bytes `d`, kind first, as a record of kind `kind`.
    pub fn decode(d: &[u8], kind: u16) -> (r: Result<(Self, usize), Error>)
        ensures
            (r is Ok) <==> obj_name_ok(d@, kind),
            r matches Ok((v, n)) ==> n == name_end(d@, 6, kind) && obj_name_of(d@, kind, v),
            r matches Err(e) ==> e == Error::UnexpectedEof,
    {
        if d.len() < 6 {
            return Err(Error::UnexpectedEof);
        }
        let signature = read_u32(d, 2);
        let (name, read_to) = parse_symbol_name(d, 6, kind)?;
        Ok((ObjNameSymbol { signature, name }, read_to))
    }
}

/// A constant value.
#[derive(Clone, Debug, PartialEq, Eq)]
pub struct ConstantSymbol {
    /// Whether this constant has metadata type information.
    pub managed: bool,
    /// The type of this constant or metadata token.
    pub type_index: TypeIndex,
    /// The value of this constant.
    pub value: Variant,
    /// Name of the constant.
    pub name: String,
}

/// Whether the numeric leaf at `i` has a known prefix and fits.
pub open spec fn leaf_ok(d: Seq<u8>, i: int) -> bool {
    let width = leaf_width(le16(d, i) as u16);
    fits(d, i, 2) && width >= 0 && fits(d, i + 2, width)
}

/// Position of a constant's name: past its numeric leaf.
pub open spec fn constant_name_at(d: Seq<u8>) -> int {
    8 + leaf_width(le16(d, 6) as u16)
}

pub open spec fn constant_ok(d: Seq<u8>, kind: u16) -> bool {
    leaf_ok(d, 6) && name_fits(d, constant_name_at(d), kind)
}

/// The error a constant record gives when it does not decode.
pub open spec fn constant_error(d: Seq<u8>) -> Error {
    if fits(d, 6, 2) && leaf_width(le16(d, 6) as u16) < 0 {
        Error::UnexpectedNumericPrefix(le16(d, 6) as u16)
    } else {
        Error::UnexpectedEof
    }
}

pub open spec fn constant_of(d: Seq<u8>, kind: u16, v: ConstantSymbol) -> bool {
    &&& v.managed == (kind == S_MANCONSTANT)
    &&& v.type_index.0 == le32(d, 2)
    &&& v.value == variant_at(d, 6)
    &&& v.name@ == name_text(d, constant_name_at(d), kind)
}

impl ConstantSymbol {
    /// Decodes the record bytes `d`, kind first, as a record of kind `kind`.
    pub fn decode(d: &[u8], kind: u16) -> (r: Result<(Self, usize), Error>)
        ensures
            (r is Ok) <==> constant_ok(d@, kind),
            r matches Ok((v, n)) ==> n == name_end(d@, constant_name_at(d@), kind)
                && constant_of(d@, kind, v),
            r matches Err(e) ==> e == constant_error(d@),
    {
        if d.len() < 6 {
            return Err(Error::UnexpectedEof);
        }
        let type_index = TypeIndex(read_u32(d, 2));
        let (value, p) = parse_variant(d, 6)?;
        let (name, read_to) = parse_symbol_name(d, p, kind)?;
        Ok((ConstantSymbol { managed: kind == S_MANCONSTANT, type_index, value, name }, read_to))
    }
}

/// A user defined type.
#[derive(Clone, Debug, PartialEq, Eq)]
pub struct UserDefinedTypeSymbol {
    /// Identifier of the type.
    pub type_index: TypeIndex,
    /// Name of the type.
    pub name: String,
}

pub open spec fn udt_ok(d: Seq<u8>, kind: u16) -> bool {
    name_fits(d, 6, kind)
}

pub open spec fn udt_of(d: Seq<u8>, kind: u16, v: UserDefinedTypeSymbol) -> bool {
    v.type_index.0 == le32(d, 2) && v.name@ == name_text(d, 6, kind)
}

impl UserDefinedTypeSymbol {
    /// Decodes the record bytes `d`, kind first, as a record of kind `kind`.
    pub fn decode(d: &[u8], kind: u16) -> (r: Result<(Self, usize), Error>)
        ensures
            (r is Ok) <==> udt_ok(d@, kind),
            r matches Ok((v, n)) ==> n == name_end(d@, 6, kind) && udt_of(d@, kind, v),
            r matches Err(e) ==> e == Error::UnexpectedEof,
    {
        if d.len() < 6 {
            return Err(Error::UnexpectedEof);
        }
        let type_index = TypeIndex(read_u32(d, 2));
        let (name, read_to) = parse_symbol_name(d, 6, kind)?;
        Ok((UserDefinedTypeSymbol { type_index, name }, read_to))
    }
}

/// Static data, such as a global variable.
#[derive(Clone, Debug, PartialEq, Eq)]
pub struct DataSymbol {
    /// Whether this data is global or local.
    pub global: bool,
    /// Whether this data is managed or unmanaged.
    pub managed: bool,
    /// Type identifier of the type of data.
    pub type_index: TypeIndex,
    /// Code offset of the start of the data region.
    pub offset: PdbInternalSectionOffset,
    /// Name of the data variable.
    pub name: String,
}

pub open spec fn data_ok(d: Seq<u8>, kind: u16) -> bool {
    name_fits(d, 12, kind)
}

pub open spec fn data_of(d: Seq<u8>, kind: u16, v: DataSymbol) -> bool {
    &&& v.global == (kind == S_GDATA32 || kind == S_GDATA32_ST || kind == S_GMANDATA || kind
        == S_GMANDATA_ST)
    &&& v.managed == (kind == S_LMANDATA || kind == S_LMANDATA_ST || kind == S_GMANDATA || kind
        == S_GMANDATA_ST)
    &&& v.type_index.0 == le32(d, 2)
    &&& v.offset == section_offset_at(d, 6)
    &&& v.name@ == name_text(d, 12, kind)
}

impl DataSymbol {
    /// Decodes the record bytes `d`, kind first, as a record of kind `kind`.
    pub fn decode(d: &[u8], kind: u16) -> (r: Result<(Self, usize), Error>)
        ensures
            (r is Ok) <==> data_ok(d@, kind),
            r matches Ok((v, n)) ==> n == name_end(d@, 12, kind) && data_of(d@, kind, v),
            r matches Err(e) ==> e == Error::UnexpectedEof,
    {
        if d.len() < 12 {
            return Err(Error::UnexpectedEof);
        }
        let type_index = TypeIndex(read_u32(d, 2));
        let offset = read_section_offset(d, 6);
        let (name, read_to) = parse_symbol_name(d, 12, kind)?;
        Ok((DataSymbol {
            global: kind == S_GDATA32 || kind == S_GDATA32_ST || kind == S_GMANDATA || kind
                == S_GMANDATA_ST,
            managed: kind == S_LMANDATA || kind == S_LMANDATA_ST || kind == S_GMANDATA || kind
                == S_GMANDATA_ST,
            type_index,
            offset,
            name,
        }, read_to))
    }
}

pub const CVPSF_CODE: u32 = 0x1;
pub const CVPSF_FUNCTION: u32 = 0x2;
pub const CVPSF_MANAGED: u32 = 0x4;
pub const CVPSF_MSIL: u32 = 0x8;

/// A public symbol with a mangled name.
#[derive(Clone, Debug, PartialEq, Eq)]
pub struct PublicSymbol {
    /// The public symbol refers to executable code.
    pub code: bool,
    /// The public symbol is a function.
    pub function: bool,
    /// The symbol is in managed code (native or IL).
    pub managed: bool,
    /// The symbol is managed IL code.
    pub msil: bool,
    /// Start offset of the symbol.
    pub offset: PdbInternalSectionOffset,
    /// Mangled name of the symbol.
    pub name: String,
}

pub open spec fn public_ok(d: Seq<u8>, kind: u16) -> bool {
    name_fits(d, 12, kind)
}

pub open spec fn public_of(d: Seq<u8>, kind: u16, v: PublicSymbol) -> bool {
    let flags = le32(d, 2) as u32;
    &&& v.code == (flags & CVPSF_CODE != 0)
    &&& v.function == (flags & CVPSF_FUNCTION != 0)
    &&& v.managed == (flags & CVPSF_MANAGED != 0)
    &&& v.msil == (flags & CVPSF_MSIL != 0)
    &&& v.offset == section_offset_at(d, 6)
    &&& v.name@ == name_text(d, 12, kind)
}

impl PublicSymbol {
    /// Decodes the record bytes `d`, kind first, as a record of kind `kind`.
    pub fn decode(d: &[u8], kind: u16) -> (r: Result<(Self, usize), Error>)
        ensures
            (r is Ok) <==> public_ok(d@, kind),
            r matches Ok((v, n)) ==> n == name_end(d@, 12, kind) && public_of(d@, kind, v),
            r matches Err(e) ==> e == Error::UnexpectedEof,
    {
        if d.len() < 12 {
            return Err(Error::UnexpectedEof);
        }
        let flags = read_u32(d, 2);
        let offset = read_section_offset(d, 6);
        let (name, read_to) = parse_symbol_name(d, 12, kind)?;
        Ok((PublicSymbol {
            code: flags & CVPSF_CODE != 0,
            function: flags & CVPSF_FUNCTION != 0,
            managed: flags & CVPSF_MANAGED != 0,
            msil: flags & CVPSF_MSIL != 0,
            offset,
            name,
        }, read_to))
    }
}

/// A thread local variable.
#[derive(Clone, Debug, PartialEq, Eq)]
pub struct ThreadStorageSymbol {
    /// Whether this is a global or local thread storage.
    pub global: bool,
    /// Identifier of the stored type.
    pub type_index: TypeIndex,
    /// Code offset of the thread local.
    pub offset: PdbInternalSectionOffset,
    /// Name of the thread local.
    pub name: String,
}

pub open spec fn thread_storage_ok(d: Seq<u8>, kind: u16) -> bool {
    name_fits(d, 12, kind)
}

pub open spec fn thread_storage_of(d: Seq<u8>, kind: u16, v: ThreadStorageSymbol) -> bool {
    &&& v.global == (kind == S_GTHREAD32 || kind == S_GTHREAD32_ST)
    &&& v.type_index.0 == le32(d, 2)
    &&& v.offset == section_offset_at(d, 6)
    &&& v.name@ == name_text(d, 12, kind)
}

impl ThreadStorageSymbol {
    /// Decodes the record bytes `d`, kind first, as a record of kind `kind`.
    pub fn decode(d: &[u8], kind: u16) -> (r: Result<(Self, usize), Error>)
        ensures
            (r is Ok) <==> thread_storage_ok(d@, kind),
            r matches Ok((v, n)) ==> n == name_end(d@, 12, kind) && thread_storage_of(d@, kind, v),
            r matches Err(e) ==> e == Error::UnexpectedEof,
    {
        if d.len() < 12 {
            return Err(Error::UnexpectedEof);
        }
        let type_index = TypeIndex(read_u32(d, 2));
        let offset = read_section_offset(d, 6);
        let (name, read_to) = parse_symbol_name(d, 12, kind)?;
        Ok((ThreadStorageSymbol {
            global: kind == S_GTHREAD32 || kind == S_GTHREAD32_ST,
            type_index,
            offset,
            name,
        }, read_to))
    }
}

/// A using namespace directive.
#[derive(Clone, Debug, PartialEq, Eq)]
pub struct UsingNamespaceSymbol {
    /// The name of the imported namespace.
    pub name: String,
}

pub open spec fn using_namespace_ok(d: Seq<u8>, kind: u16) -> bool {
    name_fits(d, 2, kind)
}

pub open spec fn using_namespace_of(d: Seq<u8>, kind: u16, v: UsingNamespaceSymbol) -> bool {
    v.name@ == name_text(d, 2, kind)
}

impl UsingNamespaceSymbol {
    /// Decodes the record bytes `d`, kind first, as a record of kind `kind`.
    pub fn decode(d: &[u8], kind: u16) -> (r: Result<(Self, usize), Error>)
        ensures
            (r is Ok) <==> using_namespace_ok(d@, kind),
            r matches Ok((v, n)) ==> n == name_end(d@, 2, kind) && using_namespace_of(d@, kind, v),
            r matches Err(e) ==> e == Error::UnexpectedEof,
    {
        let (name, read_to) = parse_symbol_name(d, 2, kind)?;
        Ok((UsingNamespaceSymbol { name }, read_to))
    }
}

/// The fields shared by the four kinds of cross-module reference: a name checksum at 2, a
/// symbol index at 6 and a one-based module number at 10.
pub open spec fn reference_of(
    d: Seq<u8>,
    sum_name: u32,
    symbol_index: SymbolIndex,
    module: Option<usize>,
) -> bool {
    &&& sum_name == le32(d, 2)
    &&& symbol_index.0 == le32(d, 6)
    &&& module == module_index(le16(d, 10) as u16)
}

/// Whether an optional name may be read at `i`: legacy kinds have none.
pub open spec fn optional_name_ok(d: Seq<u8>, i: int, kind: u16) -> bool {
    i <= d.len() && (kind < S_ST_MAX || cstring_fits(d, i))
}

/// Position just past the optional name at `i`.
pub open spec fn optional_name_end(d: Seq<u8>, i: int, kind: u16) -> int {
    if kind < S_ST_MAX {
        i
    } else {
        first_zero(d, i) + 1
    }
}

/// The optional name at `i`: none for legacy kinds.
pub open spec fn optional_name_is(d: Seq<u8>, i: int, kind: u16, name: Option<String>) -> bool {
    if kind < S_ST_MAX {
        name is None
    } else {
        name matches Some(t) && t@ == cstring_text(d, i)
    }
}

/// Reference to an imported procedure.
#[derive(Clone, Debug, PartialEq, Eq)]
pub struct ProcedureReferenceSymbol {
    /// Whether the referenced procedure is global or local.
    pub global: bool,
    /// Checksum of the name.
    pub sum_name: u32,
    /// Symbol index of the referenced procedure; it may lie in another module.
    pub symbol_index: SymbolIndex,
    /// Zero-based index of the module holding the referenced symbol.
    pub module: Option<usize>,
    /// Name of the procedure reference.
    pub name: Option<String>,
}

pub open spec fn procedure_reference_ok(d: Seq<u8>, kind: u16) -> bool {
    fits(d, 2, 10) && optional_name_ok(d, 12, kind)
}

pub open spec fn procedure_reference_of(
    d: Seq<u8>,
    kind: u16,
    v: ProcedureReferenceSymbol,
) -> bool {
    &&& v.global == (kind == S_PROCREF || kind == S_PROCREF_ST)
    &&& reference_of(d, v.sum_name, v.symbol_index, v.module)
    &&& optional_name_is(d, 12, kind, v.name)
}

impl ProcedureReferenceSymbol {
    /// Decodes the record bytes `d`, kind first, as a record of kind `kind`.
    pub fn decode(d: &[u8], kind: u16) -> (r: Result<(Self, usize), Error>)
        ensures
            (r is Ok) <==> procedure_reference_ok(d@, kind),
            r matches Ok((v, n)) ==> n == optional_name_end(d@, 12, kind)
                && procedure_reference_of(d@, kind, v),
            r matches Err(e) ==> e == Error::UnexpectedEof,
    {
        if d.len() < 12 {
            return Err(Error::UnexpectedEof);
        }
        let sum_name = read_u32(d, 2);
        let symbol_index = SymbolIndex(read_u32(d, 6));
        let module = parse_module_index(read_u16(d, 10));
        let (name, read_to) = parse_optional_name(d, 12, kind)?;
        Ok((ProcedureReferenceSymbol {
            global: kind == S_PROCREF || kind == S_PROCREF_ST,
            sum_name,
            symbol_index,
            module,
            name,
        }, read_to))
    }
}

/// Reference to an imported variable.
#[derive(Clone, Debug, PartialEq, Eq)]
pub struct DataReferenceSymbol {
    /// Checksum of the name.
    pub sum_name: u32,
    /// Symbol index of the referenced data; it may lie in another module.
    pub symbol_index: SymbolIndex,
    /// Zero-based index of the module holding the referenced symbol.
    pub module: Option<usize>,
    /// Name of the data reference.
    pub name: Option<String>,
}

pub open spec fn data_reference_ok(d: Seq<u8>, kind: u16) -> bool {
    fits(d, 2, 10) && optional_name_ok(d, 12, kind)
}

pub open spec fn data_reference_of(d: Seq<u8>, kind: u16, v: DataReferenceSymbol) -> bool {
    &&& reference_of(d, v.sum_name, v.symbol_index, v.module)
    &&& optional_name_is(d, 12, kind, v.name)
}

impl DataReferenceSymbol {
    /// Decodes the record bytes `d`, kind first, as a record of kind `kind`.
    pub fn decode(d: &[u8], kind: u16) -> (r: Result<(Self, usize), Error>)
        ensures
            (r is Ok) <==> data_reference_ok(d@, kind),
            r matches Ok((v, n)) ==> n == optional_name_end(d@, 12, kind)
                && data_reference_of(d@, kind, v),
            r matches Err(e) ==> e == Error::UnexpectedEof,
    {
        if d.len() < 12 {
            return Err(Error::UnexpectedEof);
        }
        let sum_name = read_u32(d, 2);
        let symbol_index = SymbolIndex(read_u32(d, 6));
        let module = parse_module_index(read_u16(d, 10));
        let (name, read_to) = parse_optional_name(d, 12, kind)?;
        Ok((DataReferenceSymbol { sum_name, symbol_index, module, name }, read_to))
    }
}

/// Reference to an annotation.
#[derive(Clone, Debug, PartialEq, Eq)]
pub struct AnnotationReferenceSymbol {
    /// Checksum of the name.
    pub sum_name: u32,
    /// Symbol index of the referenced symbol; it may lie in another module.
    pub symbol_index: SymbolIndex,
    /// Zero-based index of the module holding the referenced symbol.
    pub module: Option<usize>,
    /// Name of the annotation reference.
    pub name: String,
}

pub open spec fn annotation_reference_ok(d: Seq<u8>, kind: u16) -> bool {
    name_fits(d, 12, kind)
}

pub open spec fn annotation_reference_of(
    d: Seq<u8>,
    kind: u16,
    v: AnnotationReferenceSymbol,
) -> bool {
    reference_of(d, v.sum_name, v.symbol_index, v.module) && v.name@ == name_text(d, 12, kind)
}

impl AnnotationReferenceSymbol {
    /// Decodes the record bytes `d`, kind first, as a record of kind `kind`.
    pub fn decode(d: &[u8], kind: u16) -> (r: Result<(Self, usize), Error>)
        ensures
            (r is Ok) <==> annotation_reference_ok(d@, kind),
            r matches Ok((v, n)) ==> n == name_end(d@, 12, kind)
                && annotation_reference_of(d@, kind, v),
            r matches Err(e) ==> e == Error::UnexpectedEof,
    {
        if d.len() < 12 {
            return Err(Error::UnexpectedEof);
        }
        let sum_name = read_u32(d, 2);
        let symbol_index = SymbolIndex(read_u32(d, 6));
        let module = parse_module_index(read_u16(d, 10));
        let (name, read_to) = parse_symbol_name(d, 12, kind)?;
        Ok((AnnotationReferenceSymbol { sum_name, symbol_index, module, name }, read_to))
    }
}

/// Reference to a managed procedure.
#[derive(Clone, Debug, PartialEq, Eq)]
pub struct TokenReferenceSymbol {
    /// Checksum of the name.
    pub sum_name: u32,
    /// Symbol index of the referenced managed procedure; it may lie in another module.
    pub symbol_index: SymbolIndex,
    /// Zero-based index of the module holding the referenced symbol.
    pub module: Option<usize>,
    /// Name of the procedure reference.
    pub name: String,
}

pub open spec fn token_reference_ok(d: Seq<u8>, kind: u16) -> bool {
    name_fits(d, 12, kind)
}

pub open spec fn token_reference_of(d: Seq<u8>, kind: u16, v: TokenReferenceSymbol) -> bool {
    reference_of(d, v.sum_name, v.symbol_index, v.module) && v.name@ == name_text(d, 12, kind)
}

impl TokenReferenceSymbol {
    /// Decodes the record bytes `d`, kind first, as a record of kind `kind`.
    pub fn decode(d: &[u8], kind: u16) -> (r: Result<(Self, usize), Error>)
        ensures
            (r is Ok) <==> token_reference_ok(d@, kind),
            r matches Ok((v, n)) ==> n == name_end(d@, 12, kind) && token_reference_of(d@, kind, v),
            r matches Err(e) ==> e == Error::UnexpectedEof,
    {
        if d.len() < 12 {
            return Err(Error::UnexpectedEof);
        }
        let sum_name = read_u32(d, 2);
        let symbol_index = SymbolIndex(read_u32(d, 6));
        let module = parse_module_index(read_u16(d, 10));
        let (name, read_to) = parse_symbol_name(d, 12, kind)?;
        Ok((TokenReferenceSymbol { sum_name, symbol_index, module, name }, read_to))
    }
}

} // verus!
