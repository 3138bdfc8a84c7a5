//! The decoded form of a symbol record, and the dispatch from a record's kind to the
//! decoder of its layout family.
use vstd::prelude::*;
use crate::bytes::{le16, le32};
use crate::common::Error;
use crate::fields::section_offset_at;
use crate::frames::{
    ArmSwitchTableSymbol, CallSiteInfoSymbol, FrameCookieSymbol, FrameProcedureSymbol,
    FunctionListSymbol, HeapAllocationSiteSymbol, InlineesSymbol, TrampolineSymbol,
};
use crate::locals::{
    BasePointerRelativeSymbol, LocalSymbol, ManagedSlotSymbol, MultiRegisterVariableSymbol,
    RegisterRelativeSymbol, RegisterVariableSymbol,
};
use crate::module_info::{
    BuildInfoSymbol, CoffGroupSymbol, CompileFlagsSymbol, EnvBlockSymbol, ExportSymbol, OemSymbol,
    SectionSymbol,
};
use crate::ranges::{
    DefRangeFramePointerRelativeFullScopeSymbol, DefRangeFramePointerRelativeSymbol,
    DefRangeRegisterRelativeSymbol, DefRangeRegisterSymbol, DefRangeSubFieldRegisterSymbol,
    DefRangeSubFieldSymbol, DefRangeSymbol, DEFRANGE_HEADER, DEFRANGE_SUBFIELD_HEADER,
};
use crate::records::{
    AnnotationReferenceSymbol, ConstantSymbol, DataReferenceSymbol, DataSymbol, ObjNameSymbol,
    ProcedureReferenceSymbol, PublicSymbol, ThreadStorageSymbol, TokenReferenceSymbol,
    UserDefinedTypeSymbol, UsingNamespaceSymbol,
};
use crate::scopes::{
    BlockSymbol, InlineSiteSymbol, LabelSymbol, ManagedProcedureSymbol, ProcedureSymbol,
    SeparatedCodeSymbol, ThunkSymbol,
};
use crate::{frames, locals, module_info, ranges, records, scopes};
use crate::kinds::{
    S_ANNOTATIONREF, S_ARMSWITCHTABLE, S_BLOCK32, S_BLOCK32_ST, S_BPREL32, S_BPREL32_16T,
    S_BPREL32_ST, S_BUILDINFO, S_CALLEES, S_CALLERS, S_CALLSITEINFO, S_COBOLUDT, S_COBOLUDT_ST,
    S_COFFGROUP, S_COMPILE2, S_COMPILE2_ST, S_COMPILE3, S_CONSTANT, S_CONSTANT_ST, S_DATAREF,
    S_DATAREF_ST, S_DEFRANGE, S_DEFRANGE_FRAMEPOINTER_REL, S_DEFRANGE_FRAMEPOINTER_REL_FULL_SCOPE,
    S_DEFRANGE_REGISTER, S_DEFRANGE_REGISTER_REL, S_DEFRANGE_SUBFIELD, S_DEFRANGE_SUBFIELD_REGISTER,
    S_END, S_ENVBLOCK, S_EXPORT, S_FRAMECOOKIE, S_FRAMEPROC, S_GDATA32, S_GDATA32_ST, S_GMANDATA,
    S_GMANDATA_ST, S_GMANPROC, S_GPROC32, S_GPROC32_ID, S_GPROC32_ST, S_GTHREAD32, S_GTHREAD32_ST,
    S_HEAPALLOCSITE, S_INLINEES, S_INLINESITE, S_INLINESITE2, S_INLINESITE_END, S_LABEL32,
    S_LABEL32_ST, S_LDATA32, S_LDATA32_ST, S_LMANDATA, S_LMANDATA_ST, S_LMANPROC, S_LOCAL,
    S_LPROC32, S_LPROC32_DPC, S_LPROC32_DPC_ID, S_LPROC32_ID, S_LPROC32_ST, S_LPROCREF,
    S_LPROCREF_ST, S_LTHREAD32, S_LTHREAD32_ST, S_MANCONSTANT, S_MANSLOT, S_MANSLOT_ST, S_MANYREG,
    S_MANYREG2, S_MANYREG2_ST, S_MANYREG_ST, S_OBJNAME, S_OBJNAME_ST, S_OEM, S_PROCREF,
    S_PROCREF_ST, S_PROC_ID_END, S_PUB32, S_PUB32_ST, S_REGISTER, S_REGISTER_ST, S_REGREL32,
    S_SECTION, S_SEPCODE, S_THUNK32, S_THUNK32_ST, S_TOKENREF, S_TRAMPOLINE, S_UDT, S_UDT_ST,
    S_UNAMESPACE, S_UNAMESPACE_ST,
};

verus! {

/// Information decoded from a symbol record.
#[derive(Clone, Debug, PartialEq, Eq)]
pub enum SymbolData {
    /// End of a scope, such as a procedure.
    ScopeEnd,
    /// Name of the object file of this module.
    ObjName(ObjNameSymbol),
    /// A register variable.
    RegisterVariable(RegisterVariableSymbol),
    /// A constant value.
    Constant(ConstantSymbol),
    /// A user defined type.
    UserDefinedType(UserDefinedTypeSymbol),
    /// A register variable spanning multiple registers.
    MultiRegisterVariable(MultiRegisterVariableSymbol),
    /// Static data, such as a global variable.
    Data(DataSymbol),
    /// A public symbol with a mangled name.
    Public(PublicSymbol),
    /// A procedure, such as a function or method.
    Procedure(ProcedureSymbol),
    /// A managed procedure, such as a function or method.
    ManagedProcedure(ManagedProcedureSymbol),
    /// A thread local variable.
    ThreadStorage(ThreadStorageSymbol),
    /// Flags used to compile a module.
    CompileFlags(CompileFlagsSymbol),
    /// A using namespace directive.
    UsingNamespace(UsingNamespaceSymbol),
    /// Reference to a procedure.
    ProcedureReference(ProcedureReferenceSymbol),
    /// Reference to an imported variable.
    DataReference(DataReferenceSymbol),
    /// Reference to an annotation.
    AnnotationReference(AnnotationReferenceSymbol),
    /// Reference to a managed procedure.
    TokenReference(TokenReferenceSymbol),
    /// Trampoline thunk.
    Trampoline(TrampolineSymbol),
    /// An exported symbol.
    Export(ExportSymbol),
    /// A local symbol in optimized code.
    Local(LocalSymbol),
    /// A managed local variable slot.
    ManagedSlot(ManagedSlotSymbol),
    /// Reference to build information.
    BuildInfo(BuildInfoSymbol),
    /// The call site of an inlined function.
    InlineSite(InlineSiteSymbol),
    /// End of an inline call site.
    InlineSiteEnd,
    /// End of a procedure.
    ProcedureEnd,
    /// A label.
    Label(LabelSymbol),
    /// A block.
    Block(BlockSymbol),
    /// Data allocated relative to a register.
    RegisterRelative(RegisterRelativeSymbol),
    /// A thunk.
    Thunk(ThunkSymbol),
    /// A block of separated code.
    SeparatedCode(SeparatedCodeSymbol),
    /// OEM information.
    OEM(OemSymbol),
    /// Environment block split off from the compile flags.
    EnvBlock(EnvBlockSymbol),
    /// A section in an image.
    Section(SectionSymbol),
    /// A COFF group.
    CoffGroup(CoffGroupSymbol),
    /// A live range of a variable.
    DefRange(DefRangeSymbol),
    /// A live range of a sub field of a variable.
    DefRangeSubField(DefRangeSubFieldSymbol),
    /// A live range of a register variable.
    DefRangeRegister(DefRangeRegisterSymbol),
    /// A live range of a frame pointer-relative variable.
    DefRangeFramePointerRelative(DefRangeFramePointerRelativeSymbol),
    /// A frame-pointer variable which is valid in the full scope of the function.
    DefRangeFramePointerRelativeFullScope(DefRangeFramePointerRelativeFullScopeSymbol),
    /// A live range of a sub field of a register variable.
    DefRangeSubFieldRegister(DefRangeSubFieldRegisterSymbol),
    /// A live range of a variable related to a register.
    DefRangeRegisterRelative(DefRangeRegisterRelativeSymbol),
    /// A base pointer-relative variable.
    BasePointerRelative(BasePointerRelativeSymbol),
    /// Extra frame and procedure information.
    FrameProcedure(FrameProcedureSymbol),
    /// Indirect call site information.
    CallSiteInfo(CallSiteInfoSymbol),
    /// Callers of a function.
    Callers(FunctionListSymbol),
    /// Callees of a function.
    Callees(FunctionListSymbol),
    /// Inlinees of a function.
    Inlinees(InlineesSymbol),
    /// The layout of a jump table.
    ArmSwitchTable(ArmSwitchTableSymbol),
    /// A heap allocation site.
    HeapAllocationSite(HeapAllocationSiteSymbol),
    /// A security cookie on a stack frame.
    FrameCookie(FrameCookieSymbol),
}

/// The layout families that record kinds fall into.
#[derive(Clone, Copy, Debug, PartialEq, Eq, Structural)]
pub enum RecordFamily {
    ScopeEnd,
    ObjName,
    RegisterVariable,
    Constant,
    UserDefinedType,
    MultiRegisterVariable,
    Data,
    Public,
    Procedure,
    ManagedProcedure,
    ThreadStorage,
    CompileFlags,
    UsingNamespace,
    ProcedureReference,
    DataReference,
    AnnotationReference,
    TokenReference,
    Trampoline,
    Export,
    Local,
    ManagedSlot,
    BuildInfo,
    InlineSite,
    InlineSiteEnd,
    ProcedureEnd,
    Label,
    Block,
    RegisterRelative,
    Thunk,
    SeparatedCode,
    OEM,
    EnvBlock,
    Section,
    CoffGroup,
    DefRange,
    DefRangeSubField,
    DefRangeRegister,
    DefRangeFramePointerRelative,
    DefRangeFramePointerRelativeFullScope,
    DefRangeSubFieldRegister,
    DefRangeRegisterRelative,
    BasePointerRelative,
    FrameProcedure,
    CallSiteInfo,
    Callers,
    Callees,
    Inlinees,
    ArmSwitchTable,
    HeapAllocationSite,
    FrameCookie,
    /// A kind that no decoder knows.
    Unknown,
}

/// The layout family of records of kind `k`.
pub open spec fn family_of(k: u16) -> RecordFamily {
    if k == S_END {
        RecordFamily::ScopeEnd
    } else if k == S_OBJNAME || k == S_OBJNAME_ST {
        RecordFamily::ObjName
    } else if k == S_REGISTER || k == S_REGISTER_ST {
        RecordFamily::RegisterVariable
    } else if k == S_CONSTANT || k == S_CONSTANT_ST || k == S_MANCONSTANT {
        RecordFamily::Constant
    } else if k == S_UDT || k == S_UDT_ST || k == S_COBOLUDT || k == S_COBOLUDT_ST {
        RecordFamily::UserDefinedType
    } else if k == S_MANYREG || k == S_MANYREG_ST || k == S_MANYREG2 || k == S_MANYREG2_ST {
        RecordFamily::MultiRegisterVariable
    } else if k == S_LDATA32 || k == S_LDATA32_ST || k == S_GDATA32 || k == S_GDATA32_ST
        || k == S_LMANDATA || k == S_LMANDATA_ST || k == S_GMANDATA || k == S_GMANDATA_ST {
        RecordFamily::Data
    } else if k == S_PUB32 || k == S_PUB32_ST {
        RecordFamily::Public
    } else if k == S_LPROC32 || k == S_LPROC32_ST || k == S_GPROC32 || k == S_GPROC32_ST
        || k == S_LPROC32_ID || k == S_GPROC32_ID || k == S_LPROC32_DPC || k == S_LPROC32_DPC_ID {
        RecordFamily::Procedure
    } else if k == S_LMANPROC || k == S_GMANPROC {
        RecordFamily::ManagedProcedure
    } else if k == S_LTHREAD32 || k == S_LTHREAD32_ST || k == S_GTHREAD32 || k == S_GTHREAD32_ST {
        RecordFamily::ThreadStorage
    } else if k == S_COMPILE2 || k == S_COMPILE2_ST || k == S_COMPILE3 {
        RecordFamily::CompileFlags
    } else if k == S_UNAMESPACE || k == S_UNAMESPACE_ST {
        RecordFamily::UsingNamespace
    } else if k == S_PROCREF || k == S_PROCREF_ST || k == S_LPROCREF || k == S_LPROCREF_ST {
        RecordFamily::ProcedureReference
    } else if k == S_DATAREF || k == S_DATAREF_ST {
        RecordFamily::DataReference
    } else if k == S_ANNOTATIONREF {
        RecordFamily::AnnotationReference
    } else if k == S_TOKENREF {
        RecordFamily::TokenReference
    } else if k == S_TRAMPOLINE {
        RecordFamily::Trampoline
    } else if k == S_EXPORT {
        RecordFamily::Export
    } else if k == S_LOCAL {
        RecordFamily::Local
    } else if k == S_MANSLOT || k == S_MANSLOT_ST {
        RecordFamily::ManagedSlot
    } else if k == S_BUILDINFO {
        RecordFamily::BuildInfo
    } else if k == S_INLINESITE || k == S_INLINESITE2 {
        RecordFamily::InlineSite
    } else if k == S_INLINESITE_END {
        RecordFamily::InlineSiteEnd
    } else if k == S_PROC_ID_END {
        RecordFamily::ProcedureEnd
    } else if k == S_LABEL32 || k == S_LABEL32_ST {
        RecordFamily::Label
    } else if k == S_BLOCK32 || k == S_BLOCK32_ST {
        RecordFamily::Block
    } else if k == S_REGREL32 {
        RecordFamily::RegisterRelative
    } else if k == S_THUNK32 || k == S_THUNK32_ST {
        RecordFamily::Thunk
    } else if k == S_SEPCODE {
        RecordFamily::SeparatedCode
    } else if k == S_OEM {
        RecordFamily::OEM
    } else if k == S_ENVBLOCK {
        RecordFamily::EnvBlock
    } else if k == S_SECTION {
        RecordFamily::Section
    } else if k == S_COFFGROUP {
        RecordFamily::CoffGroup
    } else if k == S_DEFRANGE {
        RecordFamily::DefRange
    } else if k == S_DEFRANGE_SUBFIELD {
        RecordFamily::DefRangeSubField
    } else if k == S_DEFRANGE_REGISTER {
        RecordFamily::DefRangeRegister
    } else if k == S_DEFRANGE_FRAMEPOINTER_REL {
        RecordFamily::DefRangeFramePointerRelative
    } else if k == S_DEFRANGE_FRAMEPOINTER_REL_FULL_SCOPE {
        RecordFamily::DefRangeFramePointerRelativeFullScope
    } else if k == S_DEFRANGE_SUBFIELD_REGISTER {
        RecordFamily::DefRangeSubFieldRegister
    } else if k == S_DEFRANGE_REGISTER_REL {
        RecordFamily::DefRangeRegisterRelative
    } else if k == S_BPREL32 || k == S_BPREL32_ST || k == S_BPREL32_16T {
        RecordFamily::BasePointerRelative
    } else if k == S_FRAMEPROC {
        RecordFamily::FrameProcedure
    } else if k == S_CALLSITEINFO {
        RecordFamily::CallSiteInfo
    } else if k == S_CALLERS {
        RecordFamily::Callers
    } else if k == S_CALLEES {
        RecordFamily::Callees
    } else if k == S_INLINEES {
        RecordFamily::Inlinees
    } else if k == S_ARMSWITCHTABLE {
        RecordFamily::ArmSwitchTable
    } else if k == S_HEAPALLOCSITE {
        RecordFamily::HeapAllocationSite
    } else if k == S_FRAMECOOKIE {
        RecordFamily::FrameCookie
    } else {
        RecordFamily::Unknown
    }
}

/// The kind of the record bytes `d`: its first two bytes, little-endian.
pub open spec fn record_kind(d: Seq<u8>) -> u16 {
    le16(d, 0) as u16
}

/// Whether the record bytes `d` (kind first) decode.
pub open spec fn record_ok(d: Seq<u8>) -> bool {
    let k = record_kind(d);
    d.len() >= 2 && match family_of(k) {
        RecordFamily::ScopeEnd => true,
        RecordFamily::ObjName => records::obj_name_ok(d, k),
        RecordFamily::RegisterVariable => locals::register_variable_ok(d, k),
        RecordFamily::Constant => records::constant_ok(d, k),
        RecordFamily::UserDefinedType => records::udt_ok(d, k),
        RecordFamily::MultiRegisterVariable => locals::multi_register_ok(d, k),
        RecordFamily::Data => records::data_ok(d, k),
        RecordFamily::Public => records::public_ok(d, k),
        RecordFamily::Procedure => scopes::procedure_ok(d, k),
        RecordFamily::ManagedProcedure => scopes::managed_procedure_ok(d, k),
        RecordFamily::ThreadStorage => records::thread_storage_ok(d, k),
        RecordFamily::CompileFlags => module_info::compile_flags_ok(d, k),
        RecordFamily::UsingNamespace => records::using_namespace_ok(d, k),
        RecordFamily::ProcedureReference => records::procedure_reference_ok(d, k),
        RecordFamily::DataReference => records::data_reference_ok(d, k),
        RecordFamily::AnnotationReference => records::annotation_reference_ok(d, k),
        RecordFamily::TokenReference => records::token_reference_ok(d, k),
        RecordFamily::Trampoline => d.len() >= 18,
        RecordFamily::Export => module_info::export_ok(d, k),
        RecordFamily::Local => locals::local_ok(d, k),
        RecordFamily::ManagedSlot => locals::managed_slot_ok(d, k),
        RecordFamily::BuildInfo => d.len() >= 6,
        RecordFamily::InlineSite => scopes::inline_site_ok(d, k),
        RecordFamily::InlineSiteEnd => true,
        RecordFamily::ProcedureEnd => true,
        RecordFamily::Label => scopes::label_ok(d, k),
        RecordFamily::Block => scopes::block_ok(d, k),
        RecordFamily::RegisterRelative => locals::register_relative_ok(d, k),
        RecordFamily::Thunk => scopes::thunk_ok(d, k),
        RecordFamily::SeparatedCode => scopes::separated_code_ok(d),
        RecordFamily::OEM => module_info::oem_ok(d),
        RecordFamily::EnvBlock => module_info::env_block_ok(d, k),
        RecordFamily::Section => module_info::section_ok(d, k),
        RecordFamily::CoffGroup => module_info::coff_group_ok(d, k),
        RecordFamily::DefRange =>
            ranges::header_fits(d, DEFRANGE_HEADER as int)
                && ranges::gaps_whole(d, DEFRANGE_HEADER as int),
        RecordFamily::DefRangeSubField =>
            ranges::header_fits(d, DEFRANGE_SUBFIELD_HEADER as int)
                && ranges::gaps_whole(d, DEFRANGE_SUBFIELD_HEADER as int),
        RecordFamily::DefRangeRegister =>
            ranges::header_fits(d, DEFRANGE_HEADER as int)
                && ranges::gaps_whole(d, DEFRANGE_HEADER as int),
        RecordFamily::DefRangeFramePointerRelative =>
            ranges::header_fits(d, DEFRANGE_HEADER as int)
                && ranges::gaps_whole(d, DEFRANGE_HEADER as int),
        RecordFamily::DefRangeFramePointerRelativeFullScope => d.len() >= 6,
        RecordFamily::DefRangeSubFieldRegister =>
            ranges::header_fits(d, DEFRANGE_SUBFIELD_HEADER as int)
                && ranges::gaps_whole(d, DEFRANGE_SUBFIELD_HEADER as int),
        RecordFamily::DefRangeRegisterRelative =>
            ranges::header_fits(d, DEFRANGE_SUBFIELD_HEADER as int)
                && ranges::gaps_whole(d, DEFRANGE_SUBFIELD_HEADER as int),
        RecordFamily::BasePointerRelative => locals::base_pointer_relative_ok(d, k),
        RecordFamily::FrameProcedure => d.len() >= 28,
        RecordFamily::CallSiteInfo => d.len() >= 14,
        RecordFamily::Callers => frames::function_list_ok(d),
        RecordFamily::Callees => frames::function_list_ok(d),
        RecordFamily::Inlinees => frames::inlinees_ok(d),
        RecordFamily::ArmSwitchTable => d.len() >= 26,
        RecordFamily::HeapAllocationSite => d.len() >= 14,
        RecordFamily::FrameCookie => d.len() >= 10,
        RecordFamily::Unknown => false,
    }
}

/// Position just past the last field that decoding the record bytes `d` reads: the bytes
/// after it, if any, are trailing padding or a sniffed parameter slot.
pub open spec fn record_end(d: Seq<u8>) -> int {
    let k = record_kind(d);
    match family_of(k) {
        RecordFamily::ObjName => crate::bytes::name_end(d, 6, k),
        RecordFamily::RegisterVariable => crate::bytes::name_end(d, 8, k),
        RecordFamily::Constant => crate::bytes::name_end(d, records::constant_name_at(d), k),
        RecordFamily::UserDefinedType => crate::bytes::name_end(d, 6, k),
        RecordFamily::MultiRegisterVariable =>
            locals::register_entry_at(d, k, locals::register_count(d, k) as nat),
        RecordFamily::Data => crate::bytes::name_end(d, 12, k),
        RecordFamily::Public => crate::bytes::name_end(d, 12, k),
        RecordFamily::Procedure => crate::bytes::name_end(d, 37, k),
        RecordFamily::ManagedProcedure => records::optional_name_end(d, 39, k),
        RecordFamily::ThreadStorage => crate::bytes::name_end(d, 12, k),
        RecordFamily::CompileFlags => crate::bytes::name_end(d, module_info::compile_name_at(k), k),
        RecordFamily::UsingNamespace => crate::bytes::name_end(d, 2, k),
        RecordFamily::ProcedureReference => records::optional_name_end(d, 12, k),
        RecordFamily::DataReference => records::optional_name_end(d, 12, k),
        RecordFamily::AnnotationReference => crate::bytes::name_end(d, 12, k),
        RecordFamily::TokenReference => crate::bytes::name_end(d, 12, k),
        RecordFamily::Trampoline => 18,
        RecordFamily::Export => crate::bytes::name_end(d, 6, k),
        RecordFamily::Local => crate::bytes::name_end(d, 8, k),
        RecordFamily::ManagedSlot => crate::bytes::name_end(d, 18, k),
        RecordFamily::BuildInfo => 6,
        RecordFamily::InlineSite => d.len() as int,
        RecordFamily::Label => crate::bytes::name_end(d, 9, k),
        RecordFamily::Block => crate::bytes::name_end(d, 20, k),
        RecordFamily::RegisterRelative => crate::bytes::name_end(d, 12, k),
        RecordFamily::Thunk => scopes::thunk_end(d, k),
        RecordFamily::SeparatedCode => 30,
        RecordFamily::OEM => crate::bytes::first_zero(d, 2) + 9,
        RecordFamily::EnvBlock => d.len() as int,
        RecordFamily::Section => crate::bytes::name_end(d, 18, k),
        RecordFamily::CoffGroup => crate::bytes::name_end(d, 16, k),
        RecordFamily::DefRange => d.len() as int,
        RecordFamily::DefRangeSubField => d.len() as int,
        RecordFamily::DefRangeRegister => d.len() as int,
        RecordFamily::DefRangeFramePointerRelative => d.len() as int,
        RecordFamily::DefRangeFramePointerRelativeFullScope => 6,
        RecordFamily::DefRangeSubFieldRegister => d.len() as int,
        RecordFamily::DefRangeRegisterRelative => d.len() as int,
        RecordFamily::BasePointerRelative =>
            crate::bytes::name_end(d, locals::base_pointer_name_at(k), k),
        RecordFamily::FrameProcedure => 28,
        RecordFamily::CallSiteInfo => 14,
        RecordFamily::Callers => d.len() as int,
        RecordFamily::Callees => d.len() as int,
        RecordFamily::Inlinees => d.len() as int,
        RecordFamily::ArmSwitchTable => 26,
        RecordFamily::HeapAllocationSite => 14,
        RecordFamily::FrameCookie => 10,
        _ => 2,
    }
}

/// Decoding consumes exactly the record: for record bytes that decode, the position just past
/// the last field read lies after the kind and within the bytes, and the layouts that run to
/// the end of the record (live ranges, function lists, environment blocks, inline sites) read
/// every byte of it. A record written as exactly its fields, with no trailing padding, is
/// therefore read to its last byte: `record_end(d) == d.len()`.
pub proof fn lemma_decode_consumes_record(d: Seq<u8>)
    requires
        record_ok(d),
    ensures
        2 <= record_end(d) <= d.len(),
        ({
            let f = family_of(record_kind(d));
            f == RecordFamily::InlineSite || f == RecordFamily::EnvBlock || f
                == RecordFamily::Callers || f == RecordFamily::Callees || f
                == RecordFamily::Inlinees || f == RecordFamily::DefRange || f
                == RecordFamily::DefRangeSubField || f == RecordFamily::DefRangeRegister || f
                == RecordFamily::DefRangeFramePointerRelative || f
                == RecordFamily::DefRangeSubFieldRegister || f
                == RecordFamily::DefRangeRegisterRelative
        }) ==> record_end(d) == d.len(),
{
    assert forall|i: int| 0 <= i <= d.len() implies #[trigger] crate::bytes::first_zero(d, i)
        >= i by {
        crate::bytes::lemma_first_zero_bounds(d, i);
    }
    let k = record_kind(d);
    if family_of(k) == RecordFamily::MultiRegisterVariable {
        let c = locals::register_count(d, k);
        if c > 0 {
            assert(locals::register_entry_ok(d, k, (c - 1) as nat));
        }
    }
}

/// The error that the record bytes `d` give when they do not decode.
pub open spec fn record_error(d: Seq<u8>) -> Error {
    let k = record_kind(d);
    if d.len() < 2 {
        Error::UnexpectedEof
    } else {
        match family_of(k) {
            RecordFamily::Unknown => Error::UnimplementedSymbolKind(k),
            RecordFamily::Constant => records::constant_error(d),
            RecordFamily::BasePointerRelative => locals::base_pointer_relative_error(d, k),
            RecordFamily::DefRange => ranges::gaps_error(d, DEFRANGE_HEADER as int),
            RecordFamily::DefRangeSubField =>
                ranges::gaps_error(d, DEFRANGE_SUBFIELD_HEADER as int),
            RecordFamily::DefRangeRegister => ranges::gaps_error(d, DEFRANGE_HEADER as int),
            RecordFamily::DefRangeFramePointerRelative =>
                ranges::gaps_error(d, DEFRANGE_HEADER as int),
            RecordFamily::DefRangeSubFieldRegister =>
                ranges::gaps_error(d, DEFRANGE_SUBFIELD_HEADER as int),
            RecordFamily::DefRangeRegisterRelative =>
                ranges::gaps_error(d, DEFRANGE_SUBFIELD_HEADER as int),
            _ => Error::UnexpectedEof,
        }
    }
}

/// Whether `s` is what the record bytes `d` decode to.
pub open spec fn record_of(d: Seq<u8>, s: SymbolData) -> bool {
    let k = record_kind(d);
    match s {
        SymbolData::ScopeEnd => family_of(k) == RecordFamily::ScopeEnd,
        SymbolData::ObjName(v) =>
            family_of(k) == RecordFamily::ObjName && records::obj_name_of(d, k, v),
        SymbolData::RegisterVariable(v) =>
            family_of(k) == RecordFamily::RegisterVariable && locals::register_variable_of(d, k, v),
        SymbolData::Constant(v) =>
            family_of(k) == RecordFamily::Constant && records::constant_of(d, k, v),
        SymbolData::UserDefinedType(v) =>
            family_of(k) == RecordFamily::UserDefinedType && records::udt_of(d, k, v),
        SymbolData::MultiRegisterVariable(v) =>
            family_of(k) == RecordFamily::MultiRegisterVariable
                && locals::multi_register_of(d, k, v),
        SymbolData::Data(v) => family_of(k) == RecordFamily::Data && records::data_of(d, k, v),
        SymbolData::Public(v) =>
            family_of(k) == RecordFamily::Public && records::public_of(d, k, v),
        SymbolData::Procedure(v) =>
            family_of(k) == RecordFamily::Procedure && scopes::procedure_of(d, k, v),
        SymbolData::ManagedProcedure(v) =>
            family_of(k) == RecordFamily::ManagedProcedure && scopes::managed_procedure_of(d, k, v),
        SymbolData::ThreadStorage(v) =>
            family_of(k) == RecordFamily::ThreadStorage && records::thread_storage_of(d, k, v),
        SymbolData::CompileFlags(v) =>
            family_of(k) == RecordFamily::CompileFlags && module_info::compile_flags_of(d, k, v),
        SymbolData::UsingNamespace(v) =>
            family_of(k) == RecordFamily::UsingNamespace && records::using_namespace_of(d, k, v),
        SymbolData::ProcedureReference(v) =>
            family_of(k) == RecordFamily::ProcedureReference
                && records::procedure_reference_of(d, k, v),
        SymbolData::DataReference(v) =>
            family_of(k) == RecordFamily::DataReference && records::data_reference_of(d, k, v),
        SymbolData::AnnotationReference(v) =>
            family_of(k) == RecordFamily::AnnotationReference
                && records::annotation_reference_of(d, k, v),
        SymbolData::TokenReference(v) =>
            family_of(k) == RecordFamily::TokenReference && records::token_reference_of(d, k, v),
        SymbolData::Trampoline(v) =>
            family_of(k) == RecordFamily::Trampoline && v == frames::trampoline_of(d),
        SymbolData::Export(v) =>
            family_of(k) == RecordFamily::Export && module_info::export_of(d, k, v),
        SymbolData::Local(v) => family_of(k) == RecordFamily::Local && locals::local_of(d, k, v),
        SymbolData::ManagedSlot(v) =>
            family_of(k) == RecordFamily::ManagedSlot && locals::managed_slot_of(d, k, v),
        SymbolData::BuildInfo(v) => family_of(k) == RecordFamily::BuildInfo && v.id.0 == le32(d, 2),
        SymbolData::InlineSite(v) =>
            family_of(k) == RecordFamily::InlineSite && scopes::inline_site_of(d, k, v),
        SymbolData::InlineSiteEnd => family_of(k) == RecordFamily::InlineSiteEnd,
        SymbolData::ProcedureEnd => family_of(k) == RecordFamily::ProcedureEnd,
        SymbolData::Label(v) => family_of(k) == RecordFamily::Label && scopes::label_of(d, k, v),
        SymbolData::Block(v) => family_of(k) == RecordFamily::Block && scopes::block_of(d, k, v),
        SymbolData::RegisterRelative(v) =>
            family_of(k) == RecordFamily::RegisterRelative && locals::register_relative_of(d, k, v),
        SymbolData::Thunk(v) => family_of(k) == RecordFamily::Thunk && scopes::thunk_of(d, k, v),
        SymbolData::SeparatedCode(v) =>
            family_of(k) == RecordFamily::SeparatedCode && scopes::separated_code_of(d, v),
        SymbolData::OEM(v) => family_of(k) == RecordFamily::OEM && module_info::oem_of(d, v),
        SymbolData::EnvBlock(v) =>
            family_of(k) == RecordFamily::EnvBlock && module_info::env_block_of(d, k, v),
        SymbolData::Section(v) =>
            family_of(k) == RecordFamily::Section && module_info::section_of(d, k, v),
        SymbolData::CoffGroup(v) =>
            family_of(k) == RecordFamily::CoffGroup && module_info::coff_group_of(d, k, v),
        SymbolData::DefRange(v) =>
            family_of(k) == RecordFamily::DefRange && ranges::def_range_of(d, v),
        SymbolData::DefRangeSubField(v) =>
            family_of(k) == RecordFamily::DefRangeSubField && ranges::def_range_sub_field_of(d, v),
        SymbolData::DefRangeRegister(v) =>
            family_of(k) == RecordFamily::DefRangeRegister && ranges::def_range_register_of(d, v),
        SymbolData::DefRangeFramePointerRelative(v) =>
            family_of(k) == RecordFamily::DefRangeFramePointerRelative
                && ranges::def_range_frame_pointer_relative_of(d, v),
        SymbolData::DefRangeFramePointerRelativeFullScope(v) =>
            family_of(k) == RecordFamily::DefRangeFramePointerRelativeFullScope
                && v.offset == le32(d, 2) as i32,
        SymbolData::DefRangeSubFieldRegister(v) =>
            family_of(k) == RecordFamily::DefRangeSubFieldRegister
                && ranges::def_range_sub_field_register_of(d, v),
        SymbolData::DefRangeRegisterRelative(v) =>
            family_of(k) == RecordFamily::DefRangeRegisterRelative
                && ranges::def_range_register_relative_of(d, v),
        SymbolData::BasePointerRelative(v) =>
            family_of(k) == RecordFamily::BasePointerRelative
                && locals::base_pointer_relative_of(d, k, v),
        SymbolData::FrameProcedure(v) =>
            family_of(k) == RecordFamily::FrameProcedure && v == frames::frame_procedure_of(d),
        SymbolData::CallSiteInfo(v) =>
            family_of(k) == RecordFamily::CallSiteInfo && v.offset == section_offset_at(d, 2)
                && v.type_index.0 == le32(d, 10),
        SymbolData::Callers(v) =>
            family_of(k) == RecordFamily::Callers && frames::function_list_of(d, v),
        SymbolData::Callees(v) =>
            family_of(k) == RecordFamily::Callees && frames::function_list_of(d, v),
        SymbolData::Inlinees(v) =>
            family_of(k) == RecordFamily::Inlinees && frames::inlinees_of(d, v),
        SymbolData::ArmSwitchTable(v) =>
            family_of(k) == RecordFamily::ArmSwitchTable && v == frames::arm_switch_table_of(d),
        SymbolData::HeapAllocationSite(v) =>
            family_of(k) == RecordFamily::HeapAllocationSite && v.offset == section_offset_at(d, 2)
                && v.instr_length == le16(d, 8) && v.type_index.0 == le32(d, 10),
        SymbolData::FrameCookie(v) =>
            family_of(k) == RecordFamily::FrameCookie && v == frames::frame_cookie_of(d),
    }
}

/// The name that a decoded record carries, if its family has one.
pub open spec fn data_name(s: SymbolData) -> Option<Seq<char>> {
    match s {
        SymbolData::ObjName(v) => Some(v.name@),
        SymbolData::Constant(v) => Some(v.name@),
        SymbolData::UserDefinedType(v) => Some(v.name@),
        SymbolData::Data(v) => Some(v.name@),
        SymbolData::Public(v) => Some(v.name@),
        SymbolData::Procedure(v) => Some(v.name@),
        SymbolData::ManagedProcedure(v) => match v.name {
            Some(x) => Some(x@),
            None => None,
        },
        SymbolData::ThreadStorage(v) => Some(v.name@),
        SymbolData::UsingNamespace(v) => Some(v.name@),
        SymbolData::ProcedureReference(v) => match v.name {
            Some(x) => Some(x@),
            None => None,
        },
        SymbolData::DataReference(v) => match v.name {
            Some(x) => Some(x@),
            None => None,
        },
        SymbolData::AnnotationReference(v) => Some(v.name@),
        SymbolData::TokenReference(v) => Some(v.name@),
        SymbolData::Export(v) => Some(v.name@),
        SymbolData::Local(v) => Some(v.name@),
        SymbolData::ManagedSlot(v) => Some(v.name@),
        SymbolData::Label(v) => Some(v.name@),
        SymbolData::Block(v) => Some(v.name@),
        SymbolData::RegisterRelative(v) => Some(v.name@),
        SymbolData::Thunk(v) => Some(v.name@),
        SymbolData::Section(v) => Some(v.name@),
        SymbolData::CoffGroup(v) => Some(v.name@),
        SymbolData::BasePointerRelative(v) => Some(v.name@),
        _ => None,
    }
}

impl SymbolData {
    /// Decodes the record bytes `d`, kind first, by the layout family of the kind; returns the
    /// record and the number of bytes read, up to the end of its last field.
    pub fn decode(d: &[u8]) -> (r: Result<(Self, usize), Error>)
        ensures
            (r is Ok) <==> record_ok(d@),
            r matches Ok((s, n)) ==> record_of(d@, s) && n == record_end(d@),
            r matches Err(e) ==> e == record_error(d@),
    {
        if d.len() < 2 {
            return Err(Error::UnexpectedEof);
        }
        let k = crate::bytes::read_u16(d, 0);
        if k == S_END {
            Ok((SymbolData::ScopeEnd, 2))
        } else if k == S_OBJNAME || k == S_OBJNAME_ST {
            let (v, n) = ObjNameSymbol::decode(d, k)?;
            Ok((SymbolData::ObjName(v), n))
        } else if k == S_REGISTER || k == S_REGISTER_ST {
            let (v, n) = RegisterVariableSymbol::decode(d, k)?;
            Ok((SymbolData::RegisterVariable(v), n))
        } else if k == S_CONSTANT || k == S_CONSTANT_ST || k == S_MANCONSTANT {
            let (v, n) = ConstantSymbol::decode(d, k)?;
            Ok((SymbolData::Constant(v), n))
        } else if k == S_UDT || k == S_UDT_ST || k == S_COBOLUDT || k == S_COBOLUDT_ST {
            let (v, n) = UserDefinedTypeSymbol::decode(d, k)?;
            Ok((SymbolData::UserDefinedType(v), n))
        } else if k == S_MANYREG || k == S_MANYREG_ST || k == S_MANYREG2 || k == S_MANYREG2_ST {
            let (v, n) = MultiRegisterVariableSymbol::decode(d, k)?;
            Ok((SymbolData::MultiRegisterVariable(v), n))
        } else if k == S_LDATA32 || k == S_LDATA32_ST || k == S_GDATA32 || k == S_GDATA32_ST
            || k == S_LMANDATA || k == S_LMANDATA_ST || k == S_GMANDATA || k == S_GMANDATA_ST {
            let (v, n) = DataSymbol::decode(d, k)?;
            Ok((SymbolData::Data(v), n))
        } else if k == S_PUB32 || k == S_PUB32_ST {
            let (v, n) = PublicSymbol::decode(d, k)?;
            Ok((SymbolData::Public(v), n))
        } else if k == S_LPROC32 || k == S_LPROC32_ST || k == S_GPROC32 || k == S_GPROC32_ST
            || k == S_LPROC32_ID || k == S_GPROC32_ID || k == S_LPROC32_DPC
            || k == S_LPROC32_DPC_ID {
            let (v, n) = ProcedureSymbol::decode(d, k)?;
            Ok((SymbolData::Procedure(v), n))
        } else if k == S_LMANPROC || k == S_GMANPROC {
            let (v, n) = ManagedProcedureSymbol::decode(d, k)?;
            Ok((SymbolData::ManagedProcedure(v), n))
        } else if k == S_LTHREAD32 || k == S_LTHREAD32_ST || k == S_GTHREAD32
            || k == S_GTHREAD32_ST {
            let (v, n) = ThreadStorageSymbol::decode(d, k)?;
            Ok((SymbolData::ThreadStorage(v), n))
        } else if k == S_COMPILE2 || k == S_COMPILE2_ST || k == S_COMPILE3 {
            let (v, n) = CompileFlagsSymbol::decode(d, k)?;
            Ok((SymbolData::CompileFlags(v), n))
        } else if k == S_UNAMESPACE || k == S_UNAMESPACE_ST {
            let (v, n) = UsingNamespaceSymbol::decode(d, k)?;
            Ok((SymbolData::UsingNamespace(v), n))
        } else if k == S_PROCREF || k == S_PROCREF_ST || k == S_LPROCREF || k == S_LPROCREF_ST {
            let (v, n) = ProcedureReferenceSymbol::decode(d, k)?;
            Ok((SymbolData::ProcedureReference(v), n))
        } else if k == S_DATAREF || k == S_DATAREF_ST {
            let (v, n) = DataReferenceSymbol::decode(d, k)?;
            Ok((SymbolData::DataReference(v), n))
        } else if k == S_ANNOTATIONREF {
            let (v, n) = AnnotationReferenceSymbol::decode(d, k)?;
            Ok((SymbolData::AnnotationReference(v), n))
        } else if k == S_TOKENREF {
            let (v, n) = TokenReferenceSymbol::decode(d, k)?;
            Ok((SymbolData::TokenReference(v), n))
        } else if k == S_TRAMPOLINE {
            let (v, n) = TrampolineSymbol::decode(d)?;
            Ok((SymbolData::Trampoline(v), n))
        } else if k == S_EXPORT {
            let (v, n) = ExportSymbol::decode(d, k)?;
            Ok((SymbolData::Export(v), n))
        } else if k == S_LOCAL {
            let (v, n) = LocalSymbol::decode(d, k)?;
            Ok((SymbolData::Local(v), n))
        } else if k == S_MANSLOT || k == S_MANSLOT_ST {
            let (v, n) = ManagedSlotSymbol::decode(d, k)?;
            Ok((SymbolData::ManagedSlot(v), n))
        } else if k == S_BUILDINFO {
            let (v, n) = BuildInfoSymbol::decode(d)?;
            Ok((SymbolData::BuildInfo(v), n))
        } else if k == S_INLINESITE || k == S_INLINESITE2 {
            let (v, n) = InlineSiteSymbol::decode(d, k)?;
            Ok((SymbolData::InlineSite(v), n))
        } else if k == S_INLINESITE_END {
            Ok((SymbolData::InlineSiteEnd, 2))
        } else if k == S_PROC_ID_END {
            Ok((SymbolData::ProcedureEnd, 2))
        } else if k == S_LABEL32 || k == S_LABEL32_ST {
            let (v, n) = LabelSymbol::decode(d, k)?;
            Ok((SymbolData::Label(v), n))
        } else if k == S_BLOCK32 || k == S_BLOCK32_ST {
            let (v, n) = BlockSymbol::decode(d, k)?;
            Ok((SymbolData::Block(v), n))
        } else if k == S_REGREL32 {
            let (v, n) = RegisterRelativeSymbol::decode(d, k)?;
            Ok((SymbolData::RegisterRelative(v), n))
        } else if k == S_THUNK32 || k == S_THUNK32_ST {
            let (v, n) = ThunkSymbol::decode(d, k)?;
            Ok((SymbolData::Thunk(v), n))
        } else if k == S_SEPCODE {
            let (v, n) = SeparatedCodeSymbol::decode(d)?;
            Ok((SymbolData::SeparatedCode(v), n))
        } else if k == S_OEM {
            let (v, n) = OemSymbol::decode(d)?;
            Ok((SymbolData::OEM(v), n))
        } else if k == S_ENVBLOCK {
            let (v, n) = EnvBlockSymbol::decode(d, k)?;
            Ok((SymbolData::EnvBlock(v), n))
        } else if k == S_SECTION {
            let (v, n) = SectionSymbol::decode(d, k)?;
            Ok((SymbolData::Section(v), n))
        } else if k == S_COFFGROUP {
            let (v, n) = CoffGroupSymbol::decode(d, k)?;
            Ok((SymbolData::CoffGroup(v), n))
        } else if k == S_DEFRANGE {
            let (v, n) = DefRangeSymbol::decode(d)?;
            Ok((SymbolData::DefRange(v), n))
        } else if k == S_DEFRANGE_SUBFIELD {
            let (v, n) = DefRangeSubFieldSymbol::decode(d)?;
            Ok((SymbolData::DefRangeSubField(v), n))
        } else if k == S_DEFRANGE_REGISTER {
            let (v, n) = DefRangeRegisterSymbol::decode(d)?;
            Ok((SymbolData::DefRangeRegister(v), n))
        } else if k == S_DEFRANGE_FRAMEPOINTER_REL {
            let (v, n) = DefRangeFramePointerRelativeSymbol::decode(d)?;
            Ok((SymbolData::DefRangeFramePointerRelative(v), n))
        } else if k == S_DEFRANGE_FRAMEPOINTER_REL_FULL_SCOPE {
            let (v, n) = DefRangeFramePointerRelativeFullScopeSymbol::decode(d)?;
            Ok((SymbolData::DefRangeFramePointerRelativeFullScope(v), n))
        } else if k == S_DEFRANGE_SUBFIELD_REGISTER {
            let (v, n) = DefRangeSubFieldRegisterSymbol::decode(d)?;
            Ok((SymbolData::DefRangeSubFieldRegister(v), n))
        } else if k == S_DEFRANGE_REGISTER_REL {
            let (v, n) = DefRangeRegisterRelativeSymbol::decode(d)?;
            Ok((SymbolData::DefRangeRegisterRelative(v), n))
        } else if k == S_BPREL32 || k == S_BPREL32_ST || k == S_BPREL32_16T {
            let (v, n) = BasePointerRelativeSymbol::decode(d, k)?;
            Ok((SymbolData::BasePointerRelative(v), n))
        } else if k == S_FRAMEPROC {
            let (v, n) = FrameProcedureSymbol::decode(d)?;
            Ok((SymbolData::FrameProcedure(v), n))
        } else if k == S_CALLSITEINFO {
            let (v, n) = CallSiteInfoSymbol::decode(d)?;
            Ok((SymbolData::CallSiteInfo(v), n))
        } else if k == S_CALLERS {
            let (v, n) = FunctionListSymbol::decode(d)?;
            Ok((SymbolData::Callers(v), n))
        } else if k == S_CALLEES {
            let (v, n) = FunctionListSymbol::decode(d)?;
            Ok((SymbolData::Callees(v), n))
        } else if k == S_INLINEES {
            let (v, n) = InlineesSymbol::decode(d)?;
            Ok((SymbolData::Inlinees(v), n))
        } else if k == S_ARMSWITCHTABLE {
            let (v, n) = ArmSwitchTableSymbol::decode(d)?;
            Ok((SymbolData::ArmSwitchTable(v), n))
        } else if k == S_HEAPALLOCSITE {
            let (v, n) = HeapAllocationSiteSymbol::decode(d)?;
            Ok((SymbolData::HeapAllocationSite(v), n))
        } else if k == S_FRAMECOOKIE {
            let (v, n) = FrameCookieSymbol::decode(d)?;
            Ok((SymbolData::FrameCookie(v), n))
        } else {
            Err(Error::UnimplementedSymbolKind(k))
        }
    }

    /// The name of this record, if its family has one.
    pub fn name(&self) -> (r: Option<&str>)
        ensures
            match r {
                Some(s) => data_name(*self) == Some(s@),
                None => data_name(*self) is None,
            },
    {
        match self {
            SymbolData::ObjName(v) => Some(v.name.as_str()),
            SymbolData::Constant(v) => Some(v.name.as_str()),
            SymbolData::UserDefinedType(v) => Some(v.name.as_str()),
            SymbolData::Data(v) => Some(v.name.as_str()),
            SymbolData::Public(v) => Some(v.name.as_str()),
            SymbolData::Procedure(v) => Some(v.name.as_str()),
            SymbolData::ManagedProcedure(v) => match &v.name {
                Some(x) => Some(x.as_str()),
                None => None,
            },
            SymbolData::ThreadStorage(v) => Some(v.name.as_str()),
            SymbolData::UsingNamespace(v) => Some(v.name.as_str()),
            SymbolData::ProcedureReference(v) => match &v.name {
                Some(x) => Some(x.as_str()),
                None => None,
            },
            SymbolData::DataReference(v) => match &v.name {
                Some(x) => Some(x.as_str()),
                None => None,
            },
            SymbolData::AnnotationReference(v) => Some(v.name.as_str()),
            SymbolData::TokenReference(v) => Some(v.name.as_str()),
            SymbolData::Export(v) => Some(v.name.as_str()),
            SymbolData::Local(v) => Some(v.name.as_str()),
            SymbolData::ManagedSlot(v) => Some(v.name.as_str()),
            SymbolData::Label(v) => Some(v.name.as_str()),
            SymbolData::Block(v) => Some(v.name.as_str()),
            SymbolData::RegisterRelative(v) => Some(v.name.as_str()),
            SymbolData::Thunk(v) => Some(v.name.as_str()),
            SymbolData::Section(v) => Some(v.name.as_str()),
            SymbolData::CoffGroup(v) => Some(v.name.as_str()),
            SymbolData::BasePointerRelative(v) => Some(v.name.as_str()),
            _ => None,
        }
    }
}

} // verus!
