//! Decoders of variable records: registers, locals, register- and frame-relative
//! variables, multi-register variables and managed slots.
//!
//! Four of these may end in a parameter slot that no field announces. It is sniffed
//! best-effort: when at least six bytes stand after the name by the record's own count,
//! and the byte at a fixed distance past the name is `$` (0x24), both measured over the
//! payload after the kind, the four bytes after that marker are the slot; when anything is
//! missing the slot is absent and the record still decodes.
use vstd::prelude::*;
use crate::bytes::{
    fits, le16, le32, name_end, name_fits, name_text, parse_symbol_name, read_i32, read_u16,
    read_u32, read_u8,
};
use crate::common::{Error, PdbInternalSectionOffset, Register, TypeIndex};
use crate::fields::{read_section_offset, section_offset_at};
use crate::flags::{local_variable_flags, LocalVariableFlags};
use crate::kinds::{S_BPREL32, S_BPREL32_16T, S_BPREL32_ST, S_MANYREG2, S_MANYREG2_ST};

verus! {

/// The parameter slot after a name of `name_len` bytes, in a record whose fixed header is
/// `header` bytes and whose slot marker stands `marker` bytes past the name's start offset.
/// The header, the marker and the length test all count from the payload, the bytes after
/// the two-byte kind.
pub open spec fn slot_at(d: Seq<u8>, name_len: int, header: int, marker: int) -> Option<i32> {
    let m = 2 + name_len + marker;
    if d.len() - 2 - name_len - header >= 6 && d[m] == 0x24 && fits(d, m + 1, 4) {
        Some(le32(d, m + 1) as i32)
    } else {
        None
    }
}

/// Sniffs the parameter slot; absent whenever the marker or the four slot bytes are missing.
pub fn parse_slot(d: &[u8], name_len: usize, header: usize, marker: usize) -> (r: Option<i32>)
    requires
        name_len + 2 <= d@.len(),
        marker < header + 6,
        header <= 64,
    ensures
        r == slot_at(d@, name_len as int, header as int, marker as int),
{
    let n = d.len();
    let payload = n - 2;
    if header > payload - name_len || payload - name_len - header < 6 {
        return None;
    }
    let m = 2 + name_len + marker;
    if d[m] != 0x24 {
        return None;
    }
    if n - m - 1 < 4 {
        return None;
    }
    Some(read_i32(d, m + 1))
}

/// Byte length of the name at `i`, without its prefix or terminator.
pub open spec fn name_len(d: Seq<u8>, i: int, kind: u16) -> int {
    name_end(d, i, kind) - i - 1
}

/// A register variable.
#[derive(Clone, Debug, PartialEq, Eq)]
pub struct RegisterVariableSymbol {
    /// Identifier of the variable type.
    pub type_index: TypeIndex,
    /// The register this variable is stored in.
    pub register: Register,
    /// Name of the variable.
    pub name: String,
    /// Parameter slot
    pub slot: Option<i32>,
}

pub open spec fn register_variable_ok(d: Seq<u8>, kind: u16) -> bool {
    name_fits(d, 8, kind)
}

pub open spec fn register_variable_of(d: Seq<u8>, kind: u16, v: RegisterVariableSymbol) -> bool {
    &&& v.type_index.0 == le32(d, 2)
    &&& v.register.0 == le16(d, 6)
    &&& v.name@ == name_text(d, 8, kind)
    &&& v.slot == slot_at(d, name_len(d, 8, kind), 8, 0xb)
}

impl RegisterVariableSymbol {
    /// Decodes the record bytes `d`, kind first, as a record of kind `kind`.
    pub fn decode(d: &[u8], kind: u16) -> (r: Result<(Self, usize), Error>)
        ensures
            (r is Ok) <==> register_variable_ok(d@, kind),
            r matches Ok((v, n)) ==> n == name_end(d@, 8, kind)
                && register_variable_of(d@, kind, v),
            r matches Err(e) ==> e == Error::UnexpectedEof,
    {
        if d.len() < 8 {
            return Err(Error::UnexpectedEof);
        }
        let type_index = TypeIndex(read_u32(d, 2));
        let register = Register(read_u16(d, 6));
        let (name, p) = parse_symbol_name(d, 8, kind)?;
        let slot = parse_slot(d, p - 9, 8, 0xb);
        Ok((RegisterVariableSymbol { type_index, register, name, slot }, p))
    }
}

/// A local variable in optimized code.
#[derive(Clone, Debug, PartialEq, Eq)]
pub struct LocalSymbol {
    /// The type of the symbol.
    pub type_index: TypeIndex,
    /// Flags for this symbol.
    pub flags: LocalVariableFlags,
    /// Name of the symbol.
    pub name: String,
    /// Parameter slot
    pub slot: Option<i32>,
}

pub open spec fn local_ok(d: Seq<u8>, kind: u16) -> bool {
    name_fits(d, 8, kind)
}

pub open spec fn local_of(d: Seq<u8>, kind: u16, v: LocalSymbol) -> bool {
    &&& v.type_index.0 == le32(d, 2)
    &&& v.flags == local_variable_flags(le16(d, 6) as u16)
    &&& v.name@ == name_text(d, 8, kind)
    &&& v.slot == slot_at(d, name_len(d, 8, kind), 8, 0xb)
}

impl LocalSymbol {
    /// Decodes the record bytes `d`, kind first, as a record of kind `kind`.
    pub fn decode(d: &[u8], kind: u16) -> (r: Result<(Self, usize), Error>)
        ensures
            (r is Ok) <==> local_ok(d@, kind),
            r matches Ok((v, n)) ==> n == name_end(d@, 8, kind) && local_of(d@, kind, v),
            r matches Err(e) ==> e == Error::UnexpectedEof,
    {
        if d.len() < 8 {
            return Err(Error::UnexpectedEof);
        }
        let type_index = TypeIndex(read_u32(d, 2));
        let flags = LocalVariableFlags::from_raw(read_u16(d, 6));
        let (name, p) = parse_symbol_name(d, 8, kind)?;
        let slot = parse_slot(d, p - 9, 8, 0xb);
        Ok((LocalSymbol { type_index, flags, name, slot }, p))
    }
}

/// A variable addressed relative to a register.
#[derive(Clone, Debug, PartialEq, Eq)]
pub struct RegisterRelativeSymbol {
    /// The variable offset.
    pub offset: i32,
    /// The type of the variable.
    pub type_index: TypeIndex,
    /// The register this variable address is relative to.
    pub register: Register,
    /// The variable name.
    pub name: String,
    /// Parameter slot
    pub slot: Option<i32>,
}

pub open spec fn register_relative_ok(d: Seq<u8>, kind: u16) -> bool {
    name_fits(d, 12, kind)
}

pub open spec fn register_relative_of(d: Seq<u8>, kind: u16, v: RegisterRelativeSymbol) -> bool {
    &&& v.offset == le32(d, 2) as i32
    &&& v.type_index.0 == le32(d, 6)
    &&& v.register.0 == le16(d, 10)
    &&& v.name@ == name_text(d, 12, kind)
    &&& v.slot == slot_at(d, name_len(d, 12, kind), 0xc, 0xf)
}

impl RegisterRelativeSymbol {
    /// Decodes the record bytes `d`, kind first, as a record of kind `kind`.
    pub fn decode(d: &[u8], kind: u16) -> (r: Result<(Self, usize), Error>)
        ensures
            (r is Ok) <==> register_relative_ok(d@, kind),
            r matches Ok((v, n)) ==> n == name_end(d@, 12, kind)
                && register_relative_of(d@, kind, v),
            r matches Err(e) ==> e == Error::UnexpectedEof,
    {
        if d.len() < 12 {
            return Err(Error::UnexpectedEof);
        }
        let offset = read_i32(d, 2);
        let type_index = TypeIndex(read_u32(d, 6));
        let register = Register(read_u16(d, 10));
        let (name, p) = parse_symbol_name(d, 12, kind)?;
        let slot = parse_slot(d, p - 13, 0xc, 0xf);
        Ok((RegisterRelativeSymbol { offset, type_index, register, name, slot }, p))
    }
}

/// A variable addressed relative to the base pointer.
#[derive(Clone, Debug, PartialEq, Eq)]
pub struct BasePointerRelativeSymbol {
    /// BP-relative offset
    pub offset: i32,
    /// Type index or metadata token
    pub type_index: TypeIndex,
    /// Name of the variable.
    pub name: String,
    /// Parameter slot
    pub slot: Option<i32>,
}

/// Where the name of a base-pointer-relative record of kind `kind` starts: its type index
/// is two bytes wide in the oldest layout.
pub open spec fn base_pointer_name_at(kind: u16) -> int {
    if kind == S_BPREL32_16T {
        8
    } else {
        10
    }
}

/// Kinds whose records decode as base-pointer-relative variables.
pub open spec fn is_base_pointer_kind(kind: u16) -> bool {
    kind == S_BPREL32 || kind == S_BPREL32_ST || kind == S_BPREL32_16T
}

pub open spec fn base_pointer_relative_ok(d: Seq<u8>, kind: u16) -> bool {
    is_base_pointer_kind(kind) && name_fits(d, base_pointer_name_at(kind), kind)
}

pub open spec fn base_pointer_relative_error(d: Seq<u8>, kind: u16) -> Error {
    if d.len() >= 6 && !is_base_pointer_kind(kind) {
        Error::UnimplementedSymbolKind(kind)
    } else {
        Error::UnexpectedEof
    }
}

pub open spec fn base_pointer_relative_of(
    d: Seq<u8>,
    kind: u16,
    v: BasePointerRelativeSymbol,
) -> bool {
    let at = base_pointer_name_at(kind);
    &&& v.offset == le32(d, 2) as i32
    &&& v.type_index.0 == if kind == S_BPREL32_16T {
        le16(d, 6)
    } else {
        le32(d, 6)
    }
    &&& v.name@ == name_text(d, at, kind)
    &&& v.slot == slot_at(d, name_len(d, at, kind), 0xa, 0xd)
}

impl BasePointerRelativeSymbol {
    /// Decodes the record bytes `d`, kind first, as a record of kind `kind`.
    pub fn decode(d: &[u8], kind: u16) -> (r: Result<(Self, usize), Error>)
        ensures
            (r is Ok) <==> base_pointer_relative_ok(d@, kind),
            r matches Ok((v, n)) ==> n == name_end(d@, base_pointer_name_at(kind), kind)
                && base_pointer_relative_of(d@, kind, v),
            r matches Err(e) ==> e == base_pointer_relative_error(d@, kind),
    {
        if d.len() < 6 {
            return Err(Error::UnexpectedEof);
        }
        let offset = read_i32(d, 2);
        let (type_index, at) = if kind == S_BPREL32 || kind == S_BPREL32_ST {
            if d.len() < 10 {
                return Err(Error::UnexpectedEof);
            }
            (TypeIndex(read_u32(d, 6)), 10usize)
        } else if kind == S_BPREL32_16T {
            if d.len() < 8 {
                return Err(Error::UnexpectedEof);
            }
            (TypeIndex(read_u16(d, 6) as u32), 8usize)
        } else {
            return Err(Error::UnimplementedSymbolKind(kind));
        };
        let (name, p) = parse_symbol_name(d, at, kind)?;
        let slot = parse_slot(d, p - at - 1, 0xa, 0xd);
        Ok((BasePointerRelativeSymbol { offset, type_index, name, slot }, p))
    }
}

/// A variable spread over several registers.
#[derive(Clone, Debug, PartialEq, Eq)]
pub struct MultiRegisterVariableSymbol {
    /// Identifier of the variable type.
    pub type_index: TypeIndex,
    /// Most significant register first.
    pub registers: Vec<(Register, String)>,
}

/// Whether the count of a multi-register record of kind `kind` is two bytes wide.
pub open spec fn wide_register_count(kind: u16) -> bool {
    kind == S_MANYREG2 || kind == S_MANYREG2_ST
}

/// Where the register entries of a multi-register record start.
pub open spec fn registers_start(kind: u16) -> int {
    if wide_register_count(kind) {
        8
    } else {
        7
    }
}

/// The number of register entries a multi-register record announces.
pub open spec fn register_count(d: Seq<u8>, kind: u16) -> int {
    if wide_register_count(kind) {
        le16(d, 6)
    } else {
        d[6] as int
    }
}

/// Position of register entry `i`: each is a two-byte register and a name.
pub open spec fn register_entry_at(d: Seq<u8>, kind: u16, i: nat) -> int
    decreases i,
{
    if i == 0 {
        registers_start(kind)
    } else {
        name_end(d, register_entry_at(d, kind, (i - 1) as nat) + 2, kind)
    }
}

/// Whether register entry `i` lies inside the record.
pub open spec fn register_entry_ok(d: Seq<u8>, kind: u16, i: nat) -> bool {
    fits(d, register_entry_at(d, kind, i), 2) && name_fits(
        d,
        register_entry_at(d, kind, i) + 2,
        kind,
    )
}

pub open spec fn multi_register_ok(d: Seq<u8>, kind: u16) -> bool {
    &&& d.len() >= registers_start(kind)
    &&& forall|i: nat| i < register_count(d, kind) ==> #[trigger] register_entry_ok(d, kind, i)
}

pub open spec fn multi_register_of(d: Seq<u8>, kind: u16, v: MultiRegisterVariableSymbol) -> bool {
    &&& v.type_index.0 == le32(d, 2)
    &&& v.registers@.len() == register_count(d, kind)
    &&& forall|i: nat|
        i < v.registers@.len() ==> (#[trigger] v.registers@[i as int]).0 .0 == le16(
            d,
            register_entry_at(d, kind, i),
        ) && v.registers@[i as int].1@ == name_text(d, register_entry_at(d, kind, i) + 2, kind)
}

impl MultiRegisterVariableSymbol {
    /// Decodes the record bytes `d`, kind first, as a record of kind `kind`.
    pub fn decode(d: &[u8], kind: u16) -> (r: Result<(Self, usize), Error>)
        ensures
            (r is Ok) <==> multi_register_ok(d@, kind),
            r matches Ok((v, n)) ==> n == register_entry_at(
                d@,
                kind,
                register_count(d@, kind) as nat,
            )
                && multi_register_of(d@, kind, v),
            r matches Err(e) ==> e == Error::UnexpectedEof,
    {
        let n = d.len();
        let wide = kind == S_MANYREG2 || kind == S_MANYREG2_ST;
        if n < 8 && (wide || n < 7) {
            return Err(Error::UnexpectedEof);
        }
        let type_index = TypeIndex(read_u32(d, 2));
        let (count, start) = if wide {
            (read_u16(d, 6), 8usize)
        } else {
            (read_u8(d, 6) as u16, 7usize)
        };
        let mut registers: Vec<(Register, String)> = Vec::new();
        let mut pos = start;
        let mut i: u16 = 0;
        while i < count
            invariant
                n == d@.len(),
                start == registers_start(kind),
                count == register_count(d@, kind),
                i <= count,
                pos <= n,
                pos == register_entry_at(d@, kind, i as nat),
                registers@.len() == i,
                forall|j: nat| j < i ==> #[trigger] register_entry_ok(d@, kind, j),
                forall|j: nat|
                    j < i ==> (#[trigger] registers@[j as int]).0 .0 == le16(
                        d@,
                        register_entry_at(d@, kind, j),
                    ) && registers@[j as int].1@ == name_text(
                        d@,
                        register_entry_at(d@, kind, j) + 2,
                        kind,
                    ),
            decreases count - i,
        {
            if n - pos < 2 {
                assert(!register_entry_ok(d@, kind, i as nat));
                return Err(Error::UnexpectedEof);
            }
            let register = Register(read_u16(d, pos));
            let (name, p) = match parse_symbol_name(d, pos + 2, kind) {
                Ok(x) => x,
                Err(e) => {
                    assert(!register_entry_ok(d@, kind, i as nat));
                    return Err(e);
                },
            };
            registers.push((register, name));
            pos = p;
            i = i + 1;
        }
        Ok((MultiRegisterVariableSymbol { type_index, registers }, pos))
    }
}

/// A managed local variable slot.
#[derive(Clone, Debug, PartialEq, Eq)]
pub struct ManagedSlotSymbol {
    /// Slot index.
    pub slot: u32,
    /// Type index or metadata token.
    pub type_index: TypeIndex,
    /// First code address where the variable is live.
    pub offset: PdbInternalSectionOffset,
    /// Local variable flags.
    pub flags: LocalVariableFlags,
    /// Name of the variable.
    pub name: String,
}

pub open spec fn managed_slot_ok(d: Seq<u8>, kind: u16) -> bool {
    name_fits(d, 18, kind)
}

pub open spec fn managed_slot_of(d: Seq<u8>, kind: u16, v: ManagedSlotSymbol) -> bool {
    &&& v.slot == le32(d, 2)
    &&& v.type_index.0 == le32(d, 6)
    &&& v.offset == section_offset_at(d, 10)
    &&& v.flags == local_variable_flags(le16(d, 16) as u16)
    &&& v.name@ == name_text(d, 18, kind)
}

impl ManagedSlotSymbol {
    /// Decodes the record bytes `d`, kind first, as a record of kind `kind`.
    pub fn decode(d: &[u8], kind: u16) -> (r: Result<(Self, usize), Error>)
        ensures
            (r is Ok) <==> managed_slot_ok(d@, kind),
            r matches Ok((v, n)) ==> n == name_end(d@, 18, kind) && managed_slot_of(d@, kind, v),
            r matches Err(e) ==> e == Error::UnexpectedEof,
    {
        if d.len() < 18 {
            return Err(Error::UnexpectedEof);
        }
        let slot = read_u32(d, 2);
        let type_index = TypeIndex(read_u32(d, 6));
        let offset = read_section_offset(d, 10);
        let flags = LocalVariableFlags::from_raw(read_u16(d, 16));
        let (name, read_to) = parse_symbol_name(d, 18, kind)?;
        Ok((ManagedSlotSymbol { slot, type_index, offset, flags, name }, read_to))
    }
}

} // verus!
