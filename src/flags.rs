//! Flag sets decoded from one fixed-width integer; bits that are not named are dropped.
use vstd::prelude::*;

verus! {

pub const CV_PFLAG_NOFPO: u8 = 0x01;
pub const CV_PFLAG_INT: u8 = 0x02;
pub const CV_PFLAG_FAR: u8 = 0x04;
pub const CV_PFLAG_NEVER: u8 = 0x08;
pub const CV_PFLAG_NOTREACHED: u8 = 0x10;
pub const CV_PFLAG_CUST_CALL: u8 = 0x20;
pub const CV_PFLAG_NOINLINE: u8 = 0x40;
pub const CV_PFLAG_OPTDBGINFO: u8 = 0x80;

/// Flags of a procedure or a label.
#[derive(Clone, Copy, Debug, PartialEq, Eq, Structural)]
pub struct ProcedureFlags {
    /// Frame pointer is present (not omitted).
    pub nofpo: bool,
    /// Interrupt return.
    pub int: bool,
    /// Far return.
    pub far: bool,
    /// Procedure does not return.
    pub never: bool,
    /// Procedure is never called.
    pub notreached: bool,
    /// Custom calling convention.
    pub cust_call: bool,
    /// Marked as `noinline`.
    pub noinline: bool,
    /// Debug information for optimized code is present.
    pub optdbginfo: bool,
}

pub open spec fn procedure_flags(v: u8) -> ProcedureFlags {
    ProcedureFlags {
        nofpo: v & CV_PFLAG_NOFPO != 0,
        int: v & CV_PFLAG_INT != 0,
        far: v & CV_PFLAG_FAR != 0,
        never: v & CV_PFLAG_NEVER != 0,
        notreached: v & CV_PFLAG_NOTREACHED != 0,
        cust_call: v & CV_PFLAG_CUST_CALL != 0,
        noinline: v & CV_PFLAG_NOINLINE != 0,
        optdbginfo: v & CV_PFLAG_OPTDBGINFO != 0,
    }
}

impl ProcedureFlags {
    /// Decodes the raw value `v`.
    pub fn from_raw(v: u8) -> (r: Self)
        ensures
            r == procedure_flags(v),
    {
        ProcedureFlags {
            nofpo: v & CV_PFLAG_NOFPO != 0,
            int: v & CV_PFLAG_INT != 0,
            far: v & CV_PFLAG_FAR != 0,
            never: v & CV_PFLAG_NEVER != 0,
            notreached: v & CV_PFLAG_NOTREACHED != 0,
            cust_call: v & CV_PFLAG_CUST_CALL != 0,
            noinline: v & CV_PFLAG_NOINLINE != 0,
            optdbginfo: v & CV_PFLAG_OPTDBGINFO != 0,
        }
    }
}

pub const CV_LVARFLAG_ISPARAM: u16 = 0x01;
pub const CV_LVARFLAG_ADDRTAKEN: u16 = 0x02;
pub const CV_LVARFLAG_COMPGENX: u16 = 0x04;
pub const CV_LVARFLAG_ISAGGREGATE: u16 = 0x08;
pub const CV_LVARFLAG_ISALIASED: u16 = 0x10;
pub const CV_LVARFLAG_ISALIAS: u16 = 0x20;
pub const CV_LVARFLAG_ISRETVALUE: u16 = 0x40;
pub const CV_LVARFLAG_ISOPTIMIZEDOUT: u16 = 0x80;
pub const CV_LVARFLAG_ISENREG_GLOB: u16 = 0x100;
pub const CV_LVARFLAG_ISENREG_STAT: u16 = 0x200;

/// Flags of a local variable.
#[derive(Clone, Copy, Debug, PartialEq, Eq, Structural)]
pub struct LocalVariableFlags {
    /// Variable is a parameter.
    pub isparam: bool,
    /// Address is taken.
    pub addrtaken: bool,
    /// Variable is compiler generated.
    pub compgenx: bool,
    /// The variable is split into temporaries that the compiler treats independently.
    pub isaggregate: bool,
    /// Variable has multiple simultaneous lifetimes.
    pub isaliased: bool,
    /// Represents one of the multiple simultaneous lifetimes.
    pub isalias: bool,
    /// Represents a function return value.
    pub isretvalue: bool,
    /// Variable has no lifetimes.
    pub isoptimizedout: bool,
    /// Variable is an enregistered global.
    pub isenreg_glob: bool,
    /// Variable is an enregistered static.
    pub isenreg_stat: bool,
}

pub open spec fn local_variable_flags(v: u16) -> LocalVariableFlags {
    LocalVariableFlags {
        isparam: v & CV_LVARFLAG_ISPARAM != 0,
        addrtaken: v & CV_LVARFLAG_ADDRTAKEN != 0,
        compgenx: v & CV_LVARFLAG_COMPGENX != 0,
        isaggregate: v & CV_LVARFLAG_ISAGGREGATE != 0,
        isaliased: v & CV_LVARFLAG_ISALIASED != 0,
        isalias: v & CV_LVARFLAG_ISALIAS != 0,
        isretvalue: v & CV_LVARFLAG_ISRETVALUE != 0,
        isoptimizedout: v & CV_LVARFLAG_ISOPTIMIZEDOUT != 0,
        isenreg_glob: v & CV_LVARFLAG_ISENREG_GLOB != 0,
        isenreg_stat: v & CV_LVARFLAG_ISENREG_STAT != 0,
    }
}

impl LocalVariableFlags {
    /// Decodes the raw value `v`.
    pub fn from_raw(v: u16) -> (r: Self)
        ensures
            r == local_variable_flags(v),
    {
        LocalVariableFlags {
            isparam: v & CV_LVARFLAG_ISPARAM != 0,
            addrtaken: v & CV_LVARFLAG_ADDRTAKEN != 0,
            compgenx: v & CV_LVARFLAG_COMPGENX != 0,
            isaggregate: v & CV_LVARFLAG_ISAGGREGATE != 0,
            isaliased: v & CV_LVARFLAG_ISALIASED != 0,
            isalias: v & CV_LVARFLAG_ISALIAS != 0,
            isretvalue: v & CV_LVARFLAG_ISRETVALUE != 0,
            isoptimizedout: v & CV_LVARFLAG_ISOPTIMIZEDOUT != 0,
            isenreg_glob: v & CV_LVARFLAG_ISENREG_GLOB != 0,
            isenreg_stat: v & CV_LVARFLAG_ISENREG_STAT != 0,
        }
    }
}

/// Flags of an exported symbol.
#[derive(Clone, Copy, Debug, PartialEq, Eq, Structural)]
pub struct ExportSymbolFlags {
    /// An exported constant.
    pub constant: bool,
    /// Exported data (e.g. a static variable).
    pub data: bool,
    /// A private symbol.
    pub private: bool,
    /// A symbol with no name.
    pub no_name: bool,
    /// Ordinal was explicitly assigned.
    pub ordinal: bool,
    /// This is a forwarder.
    pub forwarder: bool,
}

pub open spec fn export_flags(v: u16) -> ExportSymbolFlags {
    ExportSymbolFlags {
        constant: v & 0x01 != 0,
        data: v & 0x02 != 0,
        private: v & 0x04 != 0,
        no_name: v & 0x08 != 0,
        ordinal: v & 0x10 != 0,
        forwarder: v & 0x20 != 0,
    }
}

impl ExportSymbolFlags {
    /// Decodes the raw value `v`.
    pub fn from_raw(v: u16) -> (r: Self)
        ensures
            r == export_flags(v),
    {
        ExportSymbolFlags {
            constant: v & 0x01 != 0,
            data: v & 0x02 != 0,
            private: v & 0x04 != 0,
            no_name: v & 0x08 != 0,
            ordinal: v & 0x10 != 0,
            forwarder: v & 0x20 != 0,
        }
    }
}

/// Flags of a block of separated code.
#[derive(Clone, Copy, Debug, PartialEq, Eq, Structural)]
pub struct SeparatedCodeFlags {
    /// The block doubles as a lexical scope.
    pub islexicalscope: bool,
    /// The code fragment returns to its parent.
    pub returnstoparent: bool,
}

pub open spec fn separated_code_flags(v: u32) -> SeparatedCodeFlags {
    SeparatedCodeFlags { islexicalscope: v & 0x01 != 0, returnstoparent: v & 0x02 != 0 }
}

impl SeparatedCodeFlags {
    /// Decodes the raw value `v`.
    pub fn from_raw(v: u32) -> (r: Self)
        ensures
            r == separated_code_flags(v),
    {
        SeparatedCodeFlags { islexicalscope: v & 0x01 != 0, returnstoparent: v & 0x02 != 0 }
    }
}

/// Flags of a register live range.
#[derive(Clone, Copy, Debug, PartialEq, Eq, Structural)]
pub struct RangeFlags {
    /// May have no user name on one of the control flow paths.
    pub maybe: bool,
}

pub open spec fn range_flags(v: u16) -> RangeFlags {
    RangeFlags { maybe: v & 0x01 != 0 }
}

impl RangeFlags {
    /// Decodes the raw value `v`.
    pub fn from_raw(v: u16) -> (r: Self)
        ensures
            r == range_flags(v),
    {
        RangeFlags { maybe: v & 0x01 != 0 }
    }
}

/// Flags with which a module was compiled.
#[derive(Clone, Copy, Debug, PartialEq, Eq, Structural)]
pub struct CompileFlags {
    /// Compiled for edit and continue.
    pub edit_and_continue: bool,
    /// Compiled without debugging info.
    pub no_debug_info: bool,
    /// Compiled with `LTCG`.
    pub link_time_codegen: bool,
    /// Compiled with `/bzalign`.
    pub no_data_align: bool,
    /// Managed code or data is present.
    pub managed: bool,
    /// Compiled with `/GS`.
    pub security_checks: bool,
    /// Compiled with `/hotpatch`.
    pub hot_patch: bool,
    /// Compiled with `CvtCIL`.
    pub cvtcil: bool,
    /// This is a MSIL .NET Module.
    pub msil_module: bool,
    /// Compiled with `/sdl`; only the newer layout defines it.
    pub sdl: bool,
    /// Compiled with `/ltcg:pgo` or `pgo:`; only the newer layout defines it.
    pub pgo: bool,
    /// This is a .exp module; only the newer layout defines it.
    pub exp_module: bool,
}

pub open spec fn compile_flags(v: u16, newer: bool) -> CompileFlags {
    CompileFlags {
        edit_and_continue: v & 1 != 0,
        no_debug_info: (v >> 1u16) & 1 != 0,
        link_time_codegen: (v >> 2u16) & 1 != 0,
        no_data_align: (v >> 3u16) & 1 != 0,
        managed: (v >> 4u16) & 1 != 0,
        security_checks: (v >> 5u16) & 1 != 0,
        hot_patch: (v >> 6u16) & 1 != 0,
        cvtcil: (v >> 7u16) & 1 != 0,
        msil_module: (v >> 8u16) & 1 != 0,
        sdl: (v >> 9u16) & 1 != 0 && newer,
        pgo: (v >> 10u16) & 1 != 0 && newer,
        exp_module: (v >> 11u16) & 1 != 0 && newer,
    }
}

impl CompileFlags {
    /// Decodes the flags word `v`; the three highest named bits count only when `newer`.
    pub fn from_raw(v: u16, newer: bool) -> (r: Self)
        ensures
            r == compile_flags(v, newer),
            !newer ==> !r.sdl && !r.pgo && !r.exp_module,
    {
        CompileFlags {
            edit_and_continue: v & 1 != 0,
            no_debug_info: (v >> 1u16) & 1 != 0,
            link_time_codegen: (v >> 2u16) & 1 != 0,
            no_data_align: (v >> 3u16) & 1 != 0,
            managed: (v >> 4u16) & 1 != 0,
            security_checks: (v >> 5u16) & 1 != 0,
            hot_patch: (v >> 6u16) & 1 != 0,
            cvtcil: (v >> 7u16) & 1 != 0,
            msil_module: (v >> 8u16) & 1 != 0,
            sdl: (v >> 9u16) & 1 != 0 && newer,
            pgo: (v >> 10u16) & 1 != 0 && newer,
            exp_module: (v >> 11u16) & 1 != 0 && newer,
        }
    }
}

/// Frame flags of a procedure.
#[derive(Clone, Copy, Debug, PartialEq, Eq, Structural)]
pub struct FrameProcedureFlags {
    /// function uses `_alloca()`
    pub has_alloca: bool,
    /// function uses `setjmp()`
    pub has_setjmp: bool,
    /// function uses `longjmp()`
    pub has_longjmp: bool,
    /// function uses inline asm
    pub has_inline_asm: bool,
    /// function has EH states
    pub has_eh: bool,
    /// function was specified as inline
    pub inline_spec: bool,
    /// function has `SEH`
    pub has_seh: bool,
    /// function is `__declspec(naked)`
    pub naked: bool,
    /// function has buffer security check introduced by `/GS`.
    pub security_checks: bool,
    /// function compiled with `/EHa`
    pub async_eh: bool,
    /// function has `/GS` buffer checks, but stack ordering couldn't be done
    pub gs_no_stack_ordering: bool,
    /// function was inlined within another function
    pub was_inlined: bool,
    /// function is `__declspec(strict_gs_check)`
    pub gs_check: bool,
    /// function is `__declspec(safebuffers)`
    pub safe_buffers: bool,
    /// record function's local pointer explicitly.
    pub encoded_local_base_pointer: u8,
    /// record function's parameter pointer explicitly.
    pub encoded_param_base_pointer: u8,
    /// function was compiled with `PGO/PGU`
    pub pogo_on: bool,
    /// valid Pogo counts are present
    pub valid_counts: bool,
    /// optimized for speed
    pub opt_speed: bool,
    /// function contains CFG checks (and no write checks)
    pub guard_cf: bool,
    /// function contains CFW checks and/or instrumentation
    pub guard_cfw: bool,
}

pub open spec fn frame_procedure_flags(v: u32) -> FrameProcedureFlags {
    FrameProcedureFlags {
        has_alloca: v & 1 != 0,
        has_setjmp: (v >> 1u32) & 1 != 0,
        has_longjmp: (v >> 2u32) & 1 != 0,
        has_inline_asm: (v >> 3u32) & 1 != 0,
        has_eh: (v >> 4u32) & 1 != 0,
        inline_spec: (v >> 5u32) & 1 != 0,
        has_seh: (v >> 6u32) & 1 != 0,
        naked: (v >> 7u32) & 1 != 0,
        security_checks: (v >> 8u32) & 1 != 0,
        async_eh: (v >> 9u32) & 1 != 0,
        gs_no_stack_ordering: (v >> 10u32) & 1 != 0,
        was_inlined: (v >> 11u32) & 1 != 0,
        gs_check: (v >> 12u32) & 1 != 0,
        safe_buffers: (v >> 13u32) & 1 != 0,
        encoded_local_base_pointer: ((v >> 14u32) & 3) as u8,
        encoded_param_base_pointer: ((v >> 16u32) & 3) as u8,
        pogo_on: (v >> 18u32) & 1 != 0,
        valid_counts: (v >> 19u32) & 1 != 0,
        opt_speed: (v >> 20u32) & 1 != 0,
        guard_cf: (v >> 21u32) & 1 != 0,
        guard_cfw: (v >> 22u32) & 1 != 0,
    }
}

impl FrameProcedureFlags {
    /// Decodes the raw value `v`.
    pub fn from_raw(v: u32) -> (r: Self)
        ensures
            r == frame_procedure_flags(v),
    {
        FrameProcedureFlags {
            has_alloca: v & 1 != 0,
            has_setjmp: (v >> 1u32) & 1 != 0,
            has_longjmp: (v >> 2u32) & 1 != 0,
            has_inline_asm: (v >> 3u32) & 1 != 0,
            has_eh: (v >> 4u32) & 1 != 0,
            inline_spec: (v >> 5u32) & 1 != 0,
            has_seh: (v >> 6u32) & 1 != 0,
            naked: (v >> 7u32) & 1 != 0,
            security_checks: (v >> 8u32) & 1 != 0,
            async_eh: (v >> 9u32) & 1 != 0,
            gs_no_stack_ordering: (v >> 10u32) & 1 != 0,
            was_inlined: (v >> 11u32) & 1 != 0,
            gs_check: (v >> 12u32) & 1 != 0,
            safe_buffers: (v >> 13u32) & 1 != 0,
            encoded_local_base_pointer: ((v >> 14u32) & 3) as u8,
            encoded_param_base_pointer: ((v >> 16u32) & 3) as u8,
            pogo_on: (v >> 18u32) & 1 != 0,
            valid_counts: (v >> 19u32) & 1 != 0,
            opt_speed: (v >> 20u32) & 1 != 0,
            guard_cf: (v >> 21u32) & 1 != 0,
            guard_cfw: (v >> 22u32) & 1 != 0,
        }
    }
}

} // verus!
