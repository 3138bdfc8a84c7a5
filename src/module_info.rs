//! Decoders of the records that describe a module or an image: compile flags, the
//! environment block, OEM data, exports, sections, COFF groups and build information.
use vstd::prelude::*;
use crate::bytes::{
    cstring_fits, cstring_text, first_zero, fits, le16, le32, name_end, name_fits, name_text,
    parse_symbol_name, read_cstring, read_u16, read_u32, read_u8,
};
use crate::common::{
    Error, IdIndex, PdbInternalSectionOffset, SectionCharacteristics, TypeIndex,
};
use crate::fields::{read_section_offset, section_offset_at};
use crate::flags::{compile_flags, export_flags, CompileFlags, ExportSymbolFlags};
use crate::kinds::S_COMPILE3;
use crate::machine::{cpu_type, source_language, CPUType, SourceLanguage};

verus! {

/// A compiler version.
#[derive(Clone, Copy, Debug, PartialEq, Eq, Structural)]
pub struct CompilerVersion {
    /// The major version number.
    pub major: u16,
    /// The minor version number.
    pub minor: u16,
    /// The build (patch) version number.
    pub build: u16,
    /// The quick-fix number, present in the newer layout only.
    pub qfe: Option<u16>,
}

/// Wire size of a compiler version: the quick-fix number is there only in the newer layout.
pub open spec fn version_size(has_qfe: bool) -> int {
    if has_qfe {
        8
    } else {
        6
    }
}

pub open spec fn compiler_version_at(d: Seq<u8>, i: int, has_qfe: bool) -> CompilerVersion {
    CompilerVersion {
        major: le16(d, i) as u16,
        minor: le16(d, i + 2) as u16,
        build: le16(d, i + 4) as u16,
        qfe: if has_qfe {
            Some(le16(d, i + 6) as u16)
        } else {
            None
        },
    }
}

impl CompilerVersion {
    /// Reads a version at `i`.
    pub fn read(d: &[u8], i: usize, has_qfe: bool) -> (r: Self)
        requires
            fits(d@, i as int, version_size(has_qfe)),
        ensures
            r == compiler_version_at(d@, i as int, has_qfe),
    {
        let _n = d.len();
        let major = read_u16(d, i);
        let minor = read_u16(d, i + 2);
        let build = read_u16(d, i + 4);
        let qfe = if has_qfe {
            Some(read_u16(d, i + 6))
        } else {
            None
        };
        CompilerVersion { major, minor, build, qfe }
    }
}

/// Flags and versions with which a module was compiled.
#[derive(Clone, Debug, PartialEq, Eq)]
pub struct CompileFlagsSymbol {
    /// The source code language.
    pub language: SourceLanguage,
    /// Compiler flags.
    pub flags: CompileFlags,
    /// Machine type of the compilation target.
    pub cpu_type: CPUType,
    /// Version of the compiler frontend.
    pub frontend_version: CompilerVersion,
    /// Version of the compiler backend.
    pub backend_version: CompilerVersion,
    /// Display name of the compiler.
    pub version_string: String,
}

/// Where the compiler's display name starts.
pub open spec fn compile_name_at(kind: u16) -> int {
    8 + 2 * version_size(kind == S_COMPILE3)
}

pub open spec fn compile_flags_ok(d: Seq<u8>, kind: u16) -> bool {
    name_fits(d, compile_name_at(kind), kind)
}

pub open spec fn compile_flags_of(d: Seq<u8>, kind: u16, v: CompileFlagsSymbol) -> bool {
    let newer = kind == S_COMPILE3;
    &&& v.language == source_language(d[2])
    &&& v.flags == compile_flags(le16(d, 3) as u16, newer)
    &&& v.cpu_type == cpu_type(le16(d, 6) as u16)
    &&& v.frontend_version == compiler_version_at(d, 8, newer)
    &&& v.backend_version == compiler_version_at(d, 8 + version_size(newer), newer)
    &&& v.version_string@ == name_text(d, compile_name_at(kind), kind)
}

impl CompileFlagsSymbol {
    /// Decodes the record bytes `d`, kind first, as a record of kind `kind`.
    pub fn decode(d: &[u8], kind: u16) -> (r: Result<(Self, usize), Error>)
        ensures
            (r is Ok) <==> compile_flags_ok(d@, kind),
            r matches Ok((v, n)) ==> n == name_end(d@, compile_name_at(kind), kind)
                && compile_flags_of(d@, kind, v),
            r matches Err(e) ==> e == Error::UnexpectedEof,
    {
        let newer = kind == S_COMPILE3;
        let size: usize = if newer {
            8
        } else {
            6
        };
        if d.len() < 8 + 2 * size {
            return Err(Error::UnexpectedEof);
        }
        let language = SourceLanguage::from_raw(read_u8(d, 2));
        let flags = CompileFlags::from_raw(read_u16(d, 3), newer);
        let cpu_type = CPUType::from_raw(read_u16(d, 6));
        let frontend_version = CompilerVersion::read(d, 8, newer);
        let backend_version = CompilerVersion::read(d, 8 + size, newer);
        let (version_string, read_to) = parse_symbol_name(d, 8 + 2 * size, kind)?;
        Ok((CompileFlagsSymbol {
            language,
            flags,
            cpu_type,
            frontend_version,
            backend_version,
            version_string,
        }, read_to))
    }
}

/// The environment block: a flag byte and a list of strings running to the record's end.
#[derive(Clone, Debug, PartialEq, Eq)]
pub struct EnvBlockSymbol {
    /// Edit-and-continue flag.
    pub edit_and_continue: bool,
    /// The strings, in order.
    pub rgsz: Vec<String>,
}

/// Position of the `i`th string of an environment block.
pub open spec fn env_string_at(d: Seq<u8>, kind: u16, i: nat) -> int
    decreases i,
{
    if i == 0 {
        3
    } else {
        name_end(d, env_string_at(d, kind, (i - 1) as nat), kind)
    }
}

/// Whether the `i`th string of an environment block starts before the end and fits.
pub open spec fn env_string_ok(d: Seq<u8>, kind: u16, i: nat) -> bool {
    env_string_at(d, kind, i) < d.len() && name_fits(d, env_string_at(d, kind, i), kind)
}

/// Whether the first `n` strings of an environment block fit and exactly fill the record.
pub open spec fn env_strings_fill(d: Seq<u8>, kind: u16, n: nat) -> bool {
    &&& env_string_at(d, kind, n) >= d.len()
    &&& forall|i: nat| i < n ==> #[trigger] env_string_ok(d, kind, i)
}

pub open spec fn env_block_ok(d: Seq<u8>, kind: u16) -> bool {
    d.len() >= 3 && exists|n: nat| env_strings_fill(d, kind, n)
}

pub open spec fn env_block_of(d: Seq<u8>, kind: u16, v: EnvBlockSymbol) -> bool {
    &&& v.edit_and_continue == (d[2] & 1 != 0)
    &&& env_strings_fill(d, kind, v.rgsz@.len())
    &&& forall|i: int|
        0 <= i < v.rgsz@.len() ==> (#[trigger] v.rgsz@[i])@ == name_text(
            d,
            env_string_at(d, kind, i as nat),
            kind,
        )
}

impl EnvBlockSymbol {
    /// Decodes the record bytes `d`, kind first, as a record of kind `kind`.
    pub fn decode(d: &[u8], kind: u16) -> (r: Result<(Self, usize), Error>)
        ensures
            (r is Ok) <==> env_block_ok(d@, kind),
            r matches Ok((v, n)) ==> n == d@.len() && env_block_of(d@, kind, v),
            r matches Err(e) ==> e == Error::UnexpectedEof,
    {
        let n = d.len();
        if n < 3 {
            return Err(Error::UnexpectedEof);
        }
        let flags = read_u8(d, 2);
        let mut strings: Vec<String> = Vec::new();
        let mut pos: usize = 3;
        while pos < n
            invariant
                n == d@.len(),
                3 <= pos <= n,
                pos == env_string_at(d@, kind, strings@.len()),
                forall|i: nat| i < strings@.len() ==> #[trigger] env_string_ok(d@, kind, i),
                forall|i: int|
                    0 <= i < strings@.len() ==> (#[trigger] strings@[i])@ == name_text(
                        d@,
                        env_string_at(d@, kind, i as nat),
                        kind,
                    ),
            decreases n - pos,
        {
            let (s, p) = match parse_symbol_name(d, pos, kind) {
                Ok(x) => x,
                Err(e) => {
                    let ghost k = strings@.len();
                    assert(!env_block_ok(d@, kind)) by {
                        assert forall|m: nat| !env_strings_fill(d@, kind, m) by {
                            if m > k {
                                assert(!env_string_ok(d@, kind, k));
                            } else if m < k {
                                assert(env_string_ok(d@, kind, m));
                            }
                        }
                    }
                    return Err(e);
                },
            };
            let ghost before = strings@;
            assert(env_string_ok(d@, kind, before.len()));
            strings.push(s);
            pos = p;
            assert forall|i: nat| i < strings@.len() implies #[trigger] env_string_ok(
                d@,
                kind,
                i,
            ) by {
                if i < before.len() {
                    assert(env_string_ok(d@, kind, i));
                }
            }
            assert forall|i: int| 0 <= i < strings@.len() implies (#[trigger] strings@[i])@
                == name_text(d@, env_string_at(d@, kind, i as nat), kind) by {
                if i < before.len() {
                    assert(strings@[i] == before[i]);
                }
            }
        }
        assert(env_strings_fill(d@, kind, strings@.len()));
        Ok((EnvBlockSymbol { edit_and_continue: flags & 1 != 0, rgsz: strings }, pos))
    }
}

/// OEM data.
#[derive(Clone, Debug, PartialEq, Eq)]
pub struct OemSymbol {
    /// The OEM's identifier.
    pub id_oem: String,
    /// Type index.
    pub type_index: TypeIndex,
    /// The first four bytes of the user data.
    pub rgl: u32,
}

pub open spec fn oem_ok(d: Seq<u8>) -> bool {
    cstring_fits(d, 2) && fits(d, first_zero(d, 2) + 1, 8)
}

pub open spec fn oem_of(d: Seq<u8>, v: OemSymbol) -> bool {
    let p = first_zero(d, 2) + 1;
    &&& v.id_oem@ == cstring_text(d, 2)
    &&& v.type_index.0 == le32(d, p)
    &&& v.rgl == le32(d, p + 4)
}

impl OemSymbol {
    /// Decodes the record bytes `d`, kind first.
    pub fn decode(d: &[u8]) -> (r: Result<(Self, usize), Error>)
        ensures
            (r is Ok) <==> oem_ok(d@),
            r matches Ok((v, n)) ==> n == first_zero(d@, 2) + 9 && oem_of(d@, v),
            r matches Err(e) ==> e == Error::UnexpectedEof,
    {
        let (id_oem, p) = read_cstring(d, 2)?;
        if d.len() - p < 8 {
            return Err(Error::UnexpectedEof);
        }
        let type_index = TypeIndex(read_u32(d, p));
        let rgl = read_u32(d, p + 4);
        Ok((OemSymbol { id_oem, type_index, rgl }, p + 8))
    }
}

/// An exported symbol.
#[derive(Clone, Debug, PartialEq, Eq)]
pub struct ExportSymbol {
    /// Ordinal of the symbol.
    pub ordinal: u16,
    /// Flags declaring the type of the exported symbol.
    pub flags: ExportSymbolFlags,
    /// The name of the exported symbol.
    pub name: String,
}

pub open spec fn export_ok(d: Seq<u8>, kind: u16) -> bool {
    name_fits(d, 6, kind)
}

pub open spec fn export_of(d: Seq<u8>, kind: u16, v: ExportSymbol) -> bool {
    &&& v.ordinal == le16(d, 2)
    &&& v.flags == export_flags(le16(d, 4) as u16)
    &&& v.name@ == name_text(d, 6, kind)
}

impl ExportSymbol {
    /// Decodes the record bytes `d`, kind first, as a record of kind `kind`.
    pub fn decode(d: &[u8], kind: u16) -> (r: Result<(Self, usize), Error>)
        ensures
            (r is Ok) <==> export_ok(d@, kind),
            r matches Ok((v, n)) ==> n == name_end(d@, 6, kind) && export_of(d@, kind, v),
            r matches Err(e) ==> e == Error::UnexpectedEof,
    {
        if d.len() < 6 {
            return Err(Error::UnexpectedEof);
        }
        let ordinal = read_u16(d, 2);
        let flags = ExportSymbolFlags::from_raw(read_u16(d, 4));
        let (name, read_to) = parse_symbol_name(d, 6, kind)?;
        Ok((ExportSymbol { ordinal, flags, name }, read_to))
    }
}

/// A section of an image.
#[derive(Clone, Debug, PartialEq, Eq)]
pub struct SectionSymbol {
    /// Section number.
    pub isec: u16,
    /// Alignment of this section (power of 2).
    pub align: u8,
    /// Reserved.
    pub reserved: u8,
    /// Section's RVA.
    pub rva: u32,
    /// Section's size in bytes.
    pub cb: u32,
    /// Section characteristics.
    pub characteristics: SectionCharacteristics,
    /// Section name.
    pub name: String,
}

pub open spec fn section_ok(d: Seq<u8>, kind: u16) -> bool {
    name_fits(d, 18, kind)
}

pub open spec fn section_of(d: Seq<u8>, kind: u16, v: SectionSymbol) -> bool {
    &&& v.isec == le16(d, 2)
    &&& v.align == d[4]
    &&& v.reserved == d[5]
    &&& v.rva == le32(d, 6)
    &&& v.cb == le32(d, 10)
    &&& v.characteristics.0 == le32(d, 14)
    &&& v.name@ == name_text(d, 18, kind)
}

impl SectionSymbol {
    /// Decodes the record bytes `d`, kind first, as a record of kind `kind`.
    pub fn decode(d: &[u8], kind: u16) -> (r: Result<(Self, usize), Error>)
        ensures
            (r is Ok) <==> section_ok(d@, kind),
            r matches Ok((v, n)) ==> n == name_end(d@, 18, kind) && section_of(d@, kind, v),
            r matches Err(e) ==> e == Error::UnexpectedEof,
    {
        if d.len() < 18 {
            return Err(Error::UnexpectedEof);
        }
        let isec = read_u16(d, 2);
        let align = read_u8(d, 4);
        let reserved = read_u8(d, 5);
        let rva = read_u32(d, 6);
        let cb = read_u32(d, 10);
        let characteristics = SectionCharacteristics(read_u32(d, 14));
        let (name, read_to) = parse_symbol_name(d, 18, kind)?;
        Ok((SectionSymbol { isec, align, reserved, rva, cb, characteristics, name }, read_to))
    }
}

/// A COFF group.
#[derive(Clone, Debug, PartialEq, Eq)]
pub struct CoffGroupSymbol {
    /// The group's size in bytes.
    pub cb: u32,
    /// The group's characteristics.
    pub characteristics: u32,
    /// Symbol offset.
    pub offset: PdbInternalSectionOffset,
    /// The group's name.
    pub name: String,
}

pub open spec fn coff_group_ok(d: Seq<u8>, kind: u16) -> bool {
    name_fits(d, 16, kind)
}

pub open spec fn coff_group_of(d: Seq<u8>, kind: u16, v: CoffGroupSymbol) -> bool {
    &&& v.cb == le32(d, 2)
    &&& v.characteristics == le32(d, 6)
    &&& v.offset == section_offset_at(d, 10)
    &&& v.name@ == name_text(d, 16, kind)
}

impl CoffGroupSymbol {
    /// Decodes the record bytes `d`, kind first, as a record of kind `kind`.
    pub fn decode(d: &[u8], kind: u16) -> (r: Result<(Self, usize), Error>)
        ensures
            (r is Ok) <==> coff_group_ok(d@, kind),
            r matches Ok((v, n)) ==> n == name_end(d@, 16, kind) && coff_group_of(d@, kind, v),
            r matches Err(e) ==> e == Error::UnexpectedEof,
    {
        if d.len() < 16 {
            return Err(Error::UnexpectedEof);
        }
        let cb = read_u32(d, 2);
        let characteristics = read_u32(d, 6);
        let offset = read_section_offset(d, 10);
        let (name, read_to) = parse_symbol_name(d, 16, kind)?;
        Ok((CoffGroupSymbol { cb, characteristics, offset, name }, read_to))
    }
}

/// Reference to build information.
#[derive(Clone, Copy, Debug, PartialEq, Eq)]
pub struct BuildInfoSymbol {
    /// Index of the build information record.
    pub id: IdIndex,
}

impl BuildInfoSymbol {
    /// Decodes the record bytes `d`, kind first.
    pub fn decode(d: &[u8]) -> (r: Result<(Self, usize), Error>)
        ensures
            (r is Ok) <==> d@.len() >= 6,
            r matches Ok((v, n)) ==> n == 6 && v.id.0 == le32(d@, 2),
            r matches Err(e) ==> e == Error::UnexpectedEof,
    {
        if d.len() < 6 {
            return Err(Error::UnexpectedEof);
        }
        Ok((BuildInfoSymbol { id: IdIndex(read_u32(d, 2)) }, 6))
    }
}

} // verus!
