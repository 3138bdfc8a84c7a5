//! Decoding of the symbol records of a program database's symbol stream.
//!
//! A symbol stream is a flat run of records, each a two-byte length, a two-byte kind and a
//! payload laid out by the kind. [`SymbolIter`] walks the records of a stream, passing over
//! padding; [`Symbol::parse`] decodes one into a [`SymbolData`].
//!
//! Every decoder is stated over the raw bytes: the spec functions of each module say on which
//! bytes a record decodes, which error it gives otherwise, and what each field of the result is.
//! `bytes` holds the primitive reads, `kinds` the kind values and their scope classes, and
//! `data` the dispatch from a kind to the decoder of its layout family.
use vstd::prelude::*;

pub mod bytes;
pub mod common;
pub mod data;
pub mod fields;
pub mod flags;
pub mod frames;
pub mod kinds;
pub mod locals;
pub mod machine;
pub mod module_info;
pub mod ranges;
pub mod records;
pub mod scopes;
pub mod table;

pub use crate::common::{
    COMToken, Error, IdIndex, PdbInternalSectionOffset, Register, SectionCharacteristics,
    SymbolIndex, TypeIndex,
};
pub use crate::data::{RecordFamily, SymbolData};
pub use crate::fields::Variant;
pub use crate::flags::{
    CompileFlags, ExportSymbolFlags, FrameProcedureFlags, LocalVariableFlags, ProcedureFlags,
    RangeFlags, SeparatedCodeFlags,
};
pub use crate::frames::{
    ArmSwitchTableSymbol, CallSiteInfoSymbol, FrameCookieSymbol, FrameCookieType,
    FrameProcedureSymbol, FunctionListSymbol, HeapAllocationSiteSymbol, InlineesSymbol,
    JumpTableEntrySize, TrampolineSymbol, TrampolineType,
};
pub use crate::locals::{
    BasePointerRelativeSymbol, LocalSymbol, ManagedSlotSymbol, MultiRegisterVariableSymbol,
    RegisterRelativeSymbol, RegisterVariableSymbol,
};
pub use crate::machine::{CPUType, SourceLanguage};
pub use crate::module_info::{
    BuildInfoSymbol, CoffGroupSymbol, CompileFlagsSymbol, CompilerVersion, EnvBlockSymbol,
    ExportSymbol, OemSymbol, SectionSymbol,
};
pub use crate::ranges::{
    AddressGap, AddressRange, DefRangeFramePointerRelativeFullScopeSymbol,
    DefRangeFramePointerRelativeSymbol, DefRangeRegisterRelativeSymbol, DefRangeRegisterSymbol,
    DefRangeSubFieldRegisterSymbol, DefRangeSubFieldSymbol, DefRangeSymbol,
};
pub use crate::records::{
    AnnotationReferenceSymbol, ConstantSymbol, DataReferenceSymbol, DataSymbol, ObjNameSymbol,
    ProcedureReferenceSymbol, PublicSymbol, ThreadStorageSymbol, TokenReferenceSymbol,
    UserDefinedTypeSymbol, UsingNamespaceSymbol,
};
pub use crate::scopes::{
    BinaryAnnotations, BlockSymbol, InlineSiteSymbol, LabelSymbol, ManagedProcedureSymbol,
    ProcedureSymbol, SeparatedCodeSymbol, ThunkAdjustor, ThunkKind, ThunkSymbol,
};
pub use crate::table::{Symbol, SymbolIter, SymbolTable};

verus! {

/// The raw kind discriminant of a symbol record.
pub type SymbolKind = u16;

} // verus!
