//! Decoders of records about code: trampolines, frames, call sites, heap allocation
//! sites, frame cookies, jump tables and lists of related functions.
use vstd::prelude::*;
use crate::bytes::{le16, le32, read_i32, read_u16, read_u32, read_u8};
use crate::common::{Error, PdbInternalSectionOffset, Register, TypeIndex};
use crate::fields::{read_section_offset, section_offset_at};
use crate::flags::{frame_procedure_flags, FrameProcedureFlags};

verus! {

/// The sort of a trampoline.
#[derive(Clone, Copy, Debug, PartialEq, Eq, Structural)]
pub enum TrampolineType {
    /// An incremental thunk.
    Incremental,
    /// Branch island thunk.
    BranchIsland,
    /// An unknown thunk type.
    Unknown,
}

/// A trampoline thunk.
#[derive(Clone, Copy, Debug, PartialEq, Eq, Structural)]
pub struct TrampolineSymbol {
    /// Trampoline symbol subtype.
    pub tramp_type: TrampolineType,
    /// Code size of the thunk.
    pub size: u16,
    /// Code offset of the thunk.
    pub thunk: PdbInternalSectionOffset,
    /// Code offset of the thunk target.
    pub target: PdbInternalSectionOffset,
}

pub open spec fn trampoline_of(d: Seq<u8>) -> TrampolineSymbol {
    TrampolineSymbol {
        tramp_type: if le16(d, 2) == 0 {
            TrampolineType::Incremental
        } else if le16(d, 2) == 1 {
            TrampolineType::BranchIsland
        } else {
            TrampolineType::Unknown
        },
        size: le16(d, 4) as u16,
        thunk: PdbInternalSectionOffset {
            offset: le32(d, 6) as u32,
            section: le16(d, 14) as u16,
        },
        target: PdbInternalSectionOffset {
            offset: le32(d, 10) as u32,
            section: le16(d, 16) as u16,
        },
    }
}

impl TrampolineSymbol {
    /// Decodes a trampoline; both offsets come before both sections on the wire.
    pub fn decode(d: &[u8]) -> (r: Result<(Self, usize), Error>)
        ensures
            (r is Ok) <==> d@.len() >= 18,
            r matches Ok((v, n)) ==> n == 18 && v == trampoline_of(d@),
            r matches Err(e) ==> e == Error::UnexpectedEof,
    {
        if d.len() < 18 {
            return Err(Error::UnexpectedEof);
        }
        let raw = read_u16(d, 2);
        let tramp_type = if raw == 0 {
            TrampolineType::Incremental
        } else if raw == 1 {
            TrampolineType::BranchIsland
        } else {
            TrampolineType::Unknown
        };
        let size = read_u16(d, 4);
        let thunk_offset = read_u32(d, 6);
        let target_offset = read_u32(d, 10);
        let thunk_section = read_u16(d, 14);
        let target_section = read_u16(d, 16);
        Ok((TrampolineSymbol {
            tramp_type,
            size,
            thunk: PdbInternalSectionOffset::new(thunk_section, thunk_offset),
            target: PdbInternalSectionOffset::new(target_section, target_offset),
        }, 18))
    }
}

/// Extra frame and procedure information.
#[derive(Clone, Copy, Debug, PartialEq, Eq, Structural)]
pub struct FrameProcedureSymbol {
    /// count of bytes of total frame of procedure
    pub frame_byte_count: u32,
    /// count of bytes of padding in the frame
    pub padding_byte_count: u32,
    /// offset (relative to frame pointer) to where padding starts
    pub offset_padding: u32,
    /// count of bytes of callee save registers
    pub callee_save_registers_byte_count: u32,
    /// offset of exception handler
    pub exception_handler_offset: PdbInternalSectionOffset,
    /// flags
    pub flags: FrameProcedureFlags,
}

pub open spec fn frame_procedure_of(d: Seq<u8>) -> FrameProcedureSymbol {
    FrameProcedureSymbol {
        frame_byte_count: le32(d, 2) as u32,
        padding_byte_count: le32(d, 6) as u32,
        offset_padding: le32(d, 10) as u32,
        callee_save_registers_byte_count: le32(d, 14) as u32,
        exception_handler_offset: section_offset_at(d, 18),
        flags: frame_procedure_flags(le32(d, 24) as u32),
    }
}

impl FrameProcedureSymbol {
    /// Decodes the record bytes `d`, kind first.
    pub fn decode(d: &[u8]) -> (r: Result<(Self, usize), Error>)
        ensures
            (r is Ok) <==> d@.len() >= 28,
            r matches Ok((v, n)) ==> n == 28 && v == frame_procedure_of(d@),
            r matches Err(e) ==> e == Error::UnexpectedEof,
    {
        if d.len() < 28 {
            return Err(Error::UnexpectedEof);
        }
        Ok((FrameProcedureSymbol {
            frame_byte_count: read_u32(d, 2),
            padding_byte_count: read_u32(d, 6),
            offset_padding: read_u32(d, 10),
            callee_save_registers_byte_count: read_u32(d, 14),
            exception_handler_offset: read_section_offset(d, 18),
            flags: FrameProcedureFlags::from_raw(read_u32(d, 24)),
        }, 28))
    }
}

/// Indirect call site information.
#[derive(Clone, Copy, Debug, PartialEq, Eq, Structural)]
pub struct CallSiteInfoSymbol {
    /// offset of call site
    pub offset: PdbInternalSectionOffset,
    /// type index describing function signature
    pub type_index: TypeIndex,
}

impl CallSiteInfoSymbol {
    /// Decodes a call site; two bytes of padding stand between the offset and the type.
    pub fn decode(d: &[u8]) -> (r: Result<(Self, usize), Error>)
        ensures
            (r is Ok) <==> d@.len() >= 14,
            r matches Ok((v, n)) ==> n == 14
                && v.offset == section_offset_at(d@, 2) && v.type_index.0 == le32(
                d@,
                10,
            ),
            r matches Err(e) ==> e == Error::UnexpectedEof,
    {
        if d.len() < 14 {
            return Err(Error::UnexpectedEof);
        }
        let offset = read_section_offset(d, 2);
        let type_index = TypeIndex(read_u32(d, 10));
        Ok((CallSiteInfoSymbol { offset, type_index }, 14))
    }
}

/// A heap allocation site.
#[derive(Clone, Copy, Debug, PartialEq, Eq, Structural)]
pub struct HeapAllocationSiteSymbol {
    /// The offset of the allocation site.
    pub offset: PdbInternalSectionOffset,
    /// length of the heap allocation call instruction
    pub instr_length: u16,
    /// The type index describing the function signature.
    pub type_index: TypeIndex,
}

impl HeapAllocationSiteSymbol {
    /// Decodes the record bytes `d`, kind first.
    pub fn decode(d: &[u8]) -> (r: Result<(Self, usize), Error>)
        ensures
            (r is Ok) <==> d@.len() >= 14,
            r matches Ok((v, n)) ==> n == 14
                && v.offset == section_offset_at(d@, 2) && v.instr_length == le16(
                d@,
                8,
            ) && v.type_index.0 == le32(d@, 10),
            r matches Err(e) ==> e == Error::UnexpectedEof,
    {
        if d.len() < 14 {
            return Err(Error::UnexpectedEof);
        }
        let offset = read_section_offset(d, 2);
        let instr_length = read_u16(d, 8);
        let type_index = TypeIndex(read_u32(d, 10));
        Ok((HeapAllocationSiteSymbol { offset, instr_length, type_index }, 14))
    }
}

/// How the security cookie value is built.
#[derive(Clone, Copy, Debug, PartialEq, Eq, Structural)]
pub enum FrameCookieType {
    /// Copy
    Copy,
    /// Xor with stack pointer
    XorStackPointer,
    /// Xor with base pointer
    XorBasePointer,
    /// Xor with r13
    XorR13,
    /// An unknown code.
    Invalid(u8),
}

pub open spec fn frame_cookie_type(v: u8) -> FrameCookieType {
    if v == 0 {
        FrameCookieType::Copy
    } else if v == 1 {
        FrameCookieType::XorStackPointer
    } else if v == 2 {
        FrameCookieType::XorBasePointer
    } else if v == 3 {
        FrameCookieType::XorR13
    } else {
        FrameCookieType::Invalid(v)
    }
}

impl FrameCookieType {
    /// Decodes the raw value `v`.
    pub fn from_raw(v: u8) -> (r: Self)
        ensures
            r == frame_cookie_type(v),
    {
        if v == 0 {
            FrameCookieType::Copy
        } else if v == 1 {
            FrameCookieType::XorStackPointer
        } else if v == 2 {
            FrameCookieType::XorBasePointer
        } else if v == 3 {
            FrameCookieType::XorR13
        } else {
            FrameCookieType::Invalid(v)
        }
    }
}

/// A security cookie on a stack frame.
#[derive(Clone, Copy, Debug, PartialEq, Eq, Structural)]
pub struct FrameCookieSymbol {
    /// Frame relative offset
    pub offset: i32,
    /// Register index
    pub register: Register,
    /// Cookie type
    pub cookie_type: FrameCookieType,
    /// Flags, uninterpreted.
    pub flags: u8,
}

pub open spec fn frame_cookie_of(d: Seq<u8>) -> FrameCookieSymbol {
    FrameCookieSymbol {
        offset: le32(d, 2) as i32,
        register: Register(le16(d, 6) as u16),
        cookie_type: frame_cookie_type(d[8]),
        flags: d[9],
    }
}

impl FrameCookieSymbol {
    /// Decodes the record bytes `d`, kind first.
    pub fn decode(d: &[u8]) -> (r: Result<(Self, usize), Error>)
        ensures
            (r is Ok) <==> d@.len() >= 10,
            r matches Ok((v, n)) ==> n == 10 && v == frame_cookie_of(d@),
            r matches Err(e) ==> e == Error::UnexpectedEof,
    {
        if d.len() < 10 {
            return Err(Error::UnexpectedEof);
        }
        Ok((FrameCookieSymbol {
            offset: read_i32(d, 2),
            register: Register(read_u16(d, 6)),
            cookie_type: FrameCookieType::from_raw(read_u8(d, 8)),
            flags: read_u8(d, 9),
        }, 10))
    }
}

/// The type of the entries of a jump table.
#[derive(Clone, Copy, Debug, PartialEq, Eq, Structural)]
pub enum JumpTableEntrySize {
    /// Entry type is int8.
    Int8,
    /// Entry type is uint8.
    UInt8,
    /// Entry type is int16.
    Int16,
    /// Entry type is uint16.
    UInt16,
    /// Entry type is int32.
    Int32,
    /// Entry type is uint32.
    UInt32,
    /// Entry type is pointer.
    Pointer,
    /// Entry type is uint8 shifted left.
    UInt8ShiftLeft,
    /// Entry type is uint16 shifted left.
    UInt16ShiftLeft,
    /// Entry type is int8 shifted left.
    Int8ShiftLeft,
    /// Entry type is int16 shifted left.
    Int16ShiftLeft,
    /// An unknown code.
    Invalid,
}

pub open spec fn jump_table_entry_size(v: u16) -> JumpTableEntrySize {
    match v {
        0 => JumpTableEntrySize::Int8,
        1 => JumpTableEntrySize::UInt8,
        2 => JumpTableEntrySize::Int16,
        3 => JumpTableEntrySize::UInt16,
        4 => JumpTableEntrySize::Int32,
        5 => JumpTableEntrySize::UInt32,
        6 => JumpTableEntrySize::Pointer,
        7 => JumpTableEntrySize::UInt8ShiftLeft,
        8 => JumpTableEntrySize::UInt16ShiftLeft,
        9 => JumpTableEntrySize::Int8ShiftLeft,
        10 => JumpTableEntrySize::Int16ShiftLeft,
        _ => JumpTableEntrySize::Invalid,
    }
}

impl JumpTableEntrySize {
    /// Decodes the raw value `v`.
    pub fn from_raw(v: u16) -> (r: Self)
        ensures
            r == jump_table_entry_size(v),
    {
        match v {
            0 => JumpTableEntrySize::Int8,
            1 => JumpTableEntrySize::UInt8,
            2 => JumpTableEntrySize::Int16,
            3 => JumpTableEntrySize::UInt16,
            4 => JumpTableEntrySize::Int32,
            5 => JumpTableEntrySize::UInt32,
            6 => JumpTableEntrySize::Pointer,
            7 => JumpTableEntrySize::UInt8ShiftLeft,
            8 => JumpTableEntrySize::UInt16ShiftLeft,
            9 => JumpTableEntrySize::Int8ShiftLeft,
            10 => JumpTableEntrySize::Int16ShiftLeft,
            _ => JumpTableEntrySize::Invalid,
        }
    }
}

/// The layout of a jump table.
#[derive(Clone, Copy, Debug, PartialEq, Eq, Structural)]
pub struct ArmSwitchTableSymbol {
    /// The base address that the values in the jump table are relative to.
    pub offset_base: PdbInternalSectionOffset,
    /// The type of each entry.
    pub switch_type: JumpTableEntrySize,
    /// The address of the branch instruction that uses the jump table.
    pub offset_branch: PdbInternalSectionOffset,
    /// The address of the jump table.
    pub offset_table: PdbInternalSectionOffset,
    /// The number of entries in the jump table.
    pub num_entries: u32,
}

pub open spec fn arm_switch_table_of(d: Seq<u8>) -> ArmSwitchTableSymbol {
    ArmSwitchTableSymbol {
        offset_base: section_offset_at(d, 2),
        switch_type: jump_table_entry_size(le16(d, 8) as u16),
        offset_branch: PdbInternalSectionOffset {
            offset: le32(d, 10) as u32,
            section: le16(d, 18) as u16,
        },
        offset_table: PdbInternalSectionOffset {
            offset: le32(d, 14) as u32,
            section: le16(d, 20) as u16,
        },
        num_entries: le32(d, 22) as u32,
    }
}

impl ArmSwitchTableSymbol {
    /// Decodes a jump table layout; the branch and table offsets come before their two
    /// sections on the wire.
    pub fn decode(d: &[u8]) -> (r: Result<(Self, usize), Error>)
        ensures
            (r is Ok) <==> d@.len() >= 26,
            r matches Ok((v, n)) ==> n == 26 && v == arm_switch_table_of(d@),
            r matches Err(e) ==> e == Error::UnexpectedEof,
    {
        if d.len() < 26 {
            return Err(Error::UnexpectedEof);
        }
        let offset_base = read_section_offset(d, 2);
        let switch_type = JumpTableEntrySize::from_raw(read_u16(d, 8));
        let off_branch = read_u32(d, 10);
        let off_table = read_u32(d, 14);
        let sec_branch = read_u16(d, 18);
        let sec_table = read_u16(d, 20);
        let num_entries = read_u32(d, 22);
        Ok((ArmSwitchTableSymbol {
            offset_base,
            switch_type,
            offset_branch: PdbInternalSectionOffset { offset: off_branch, section: sec_branch },
            offset_table: PdbInternalSectionOffset { offset: off_table, section: sec_table },
            num_entries,
        }, 26))
    }
}

/// A list of functions and their invocation counts.
#[derive(Clone, Debug, PartialEq, Eq)]
pub struct FunctionListSymbol {
    /// The list of function indices.
    pub functions: Vec<TypeIndex>,
    /// The invocation count of each function, in the same order.
    pub invocations: Vec<u32>,
}

/// The number of functions a function list announces.
pub open spec fn function_count(d: Seq<u8>) -> int {
    le32(d, 2)
}

/// Where a function list's invocation counts start.
pub open spec fn invocations_at(d: Seq<u8>) -> int {
    6 + 4 * function_count(d)
}

/// The number of invocation counts present in the record.
pub open spec fn invocations_present(d: Seq<u8>) -> int {
    (d.len() - invocations_at(d)) / 4
}

pub open spec fn function_list_ok(d: Seq<u8>) -> bool {
    &&& d.len() >= 6
    &&& invocations_at(d) <= d.len()
    &&& (d.len() - invocations_at(d)) % 4 == 0
}

pub open spec fn function_list_of(d: Seq<u8>, v: FunctionListSymbol) -> bool {
    &&& v.functions@.len() == function_count(d)
    &&& v.invocations@.len() == function_count(d)
    &&& forall|i: int|
        0 <= i < function_count(d) ==> (#[trigger] v.functions@[i]).0 == le32(d, 6 + 4 * i)
    &&& forall|i: int|
        0 <= i < function_count(d) ==> #[trigger] v.invocations@[i] == if i
            < invocations_present(d) {
            le32(d, invocations_at(d) + 4 * i)
        } else {
            0
        }
}

impl FunctionListSymbol {
    /// Decodes a function list: a count, that many function indices, then a parallel list
    /// of invocation counts that runs to the end of the record. Missing trailing counts
    /// read as zero; counts beyond the functions are dropped.
    pub fn decode(d: &[u8]) -> (r: Result<(Self, usize), Error>)
        ensures
            (r is Ok) <==> function_list_ok(d@),
            r matches Ok((v, n)) ==> n == d@.len() && function_list_of(d@, v),
            r matches Err(e) ==> e == Error::UnexpectedEof,
    {
        let n = d.len();
        if n < 6 {
            return Err(Error::UnexpectedEof);
        }
        let count = read_u32(d, 2) as usize;
        if count > (n - 6) / 4 {
            return Err(Error::UnexpectedEof);
        }
        let start = 6 + 4 * count;
        if (n - start) % 4 != 0 {
            return Err(Error::UnexpectedEof);
        }
        let present = (n - start) / 4;
        let mut functions: Vec<TypeIndex> = Vec::new();
        let mut invocations: Vec<u32> = Vec::new();
        let mut i: usize = 0;
        while i < count
            invariant
                n == d@.len(),
                count == function_count(d@),
                start == invocations_at(d@),
                start <= n,
                present == invocations_present(d@),
                present * 4 == n - start,
                i <= count,
                functions@.len() == i,
                invocations@.len() == i,
                forall|j: int| 0 <= j < i ==> (#[trigger] functions@[j]).0 == le32(d@, 6 + 4 * j),
                forall|j: int|
                    0 <= j < i ==> #[trigger] invocations@[j] == if j < present {
                        le32(d@, start + 4 * j)
                    } else {
                        0
                    },
            decreases count - i,
        {
            functions.push(TypeIndex(read_u32(d, 6 + 4 * i)));
            if i < present {
                assert(start + 4 * i + 4 <= n) by (nonlinear_arith)
                    requires
                        i < present,
                        present * 4 == n - start,
                ;
                invocations.push(read_u32(d, start + 4 * i));
            } else {
                invocations.push(0);
            }
            i = i + 1;
        }
        Ok((FunctionListSymbol { functions, invocations }, n))
    }
}

/// The functions inlined into a function.
#[derive(Clone, Debug, PartialEq, Eq)]
pub struct InlineesSymbol {
    /// function ids of the inlinees
    pub inlinees: Vec<TypeIndex>,
}

pub open spec fn inlinees_ok(d: Seq<u8>) -> bool {
    d.len() >= 6 && (d.len() - 6) % 4 == 0
}

pub open spec fn inlinees_of(d: Seq<u8>, v: InlineesSymbol) -> bool {
    &&& v.inlinees@.len() == (d.len() - 6) / 4
    &&& forall|i: int|
        0 <= i < v.inlinees@.len() ==> (#[trigger] v.inlinees@[i]).0 == le32(d, 6 + 4 * i)
}

impl InlineesSymbol {
    /// Decodes an inlinee list: a count, then function ids up to the end of the record.
    pub fn decode(d: &[u8]) -> (r: Result<(Self, usize), Error>)
        ensures
            (r is Ok) <==> inlinees_ok(d@),
            r matches Ok((v, n)) ==> n == d@.len() && inlinees_of(d@, v),
            r matches Err(e) ==> e == Error::UnexpectedEof,
    {
        let n = d.len();
        if n < 6 || (n - 6) % 4 != 0 {
            return Err(Error::UnexpectedEof);
        }
        let count = (n - 6) / 4;
        let mut inlinees: Vec<TypeIndex> = Vec::new();
        let mut i: usize = 0;
        while i < count
            invariant
                n == d@.len(),
                count == (n - 6) / 4,
                (n - 6) % 4 == 0,
                i <= count,
                inlinees@.len() == i,
                forall|j: int| 0 <= j < i ==> (#[trigger] inlinees@[j]).0 == le32(d@, 6 + 4 * j),
            decreases count - i,
        {
            inlinees.push(TypeIndex(read_u32(d, 6 + 4 * i)));
            i = i + 1;
        }
        Ok((InlineesSymbol { inlinees }, n))
    }
}

} // verus!
