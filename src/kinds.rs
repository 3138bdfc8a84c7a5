//! Record kind values and the fixed classifications over them.
use vstd::prelude::*;

verus! {

pub const S_END: u16 = 0x0006;
pub const S_SKIP: u16 = 0x0007;
pub const S_OBJNAME_ST: u16 = 0x0009;
pub const S_LPROC16: u16 = 0x0104;
pub const S_GPROC16: u16 = 0x0105;
pub const S_THUNK16: u16 = 0x0106;
pub const S_BLOCK16: u16 = 0x0107;
pub const S_WITH16: u16 = 0x0108;
pub const S_BPREL32_16T: u16 = 0x0200;
pub const S_THUNK32_ST: u16 = 0x0206;
pub const S_BLOCK32_ST: u16 = 0x0207;
pub const S_WITH32_ST: u16 = 0x0208;
pub const S_LABEL32_ST: u16 = 0x0209;
pub const S_PROCREF_ST: u16 = 0x0400;
pub const S_DATAREF_ST: u16 = 0x0401;
pub const S_ALIGN: u16 = 0x0402;
pub const S_LPROCREF_ST: u16 = 0x0403;
pub const S_OEM: u16 = 0x0404;
pub const S_REGISTER_ST: u16 = 0x1001;
pub const S_CONSTANT_ST: u16 = 0x1002;
pub const S_UDT_ST: u16 = 0x1003;
pub const S_COBOLUDT_ST: u16 = 0x1004;
pub const S_MANYREG_ST: u16 = 0x1005;
pub const S_BPREL32_ST: u16 = 0x1006;
pub const S_LDATA32_ST: u16 = 0x1007;
pub const S_GDATA32_ST: u16 = 0x1008;
pub const S_PUB32_ST: u16 = 0x1009;
pub const S_LPROC32_ST: u16 = 0x100a;
pub const S_GPROC32_ST: u16 = 0x100b;
pub const S_LTHREAD32_ST: u16 = 0x100e;
pub const S_GTHREAD32_ST: u16 = 0x100f;
pub const S_LPROCMIPS_ST: u16 = 0x1010;
pub const S_GPROCMIPS_ST: u16 = 0x1011;
pub const S_FRAMEPROC: u16 = 0x1012;
pub const S_COMPILE2_ST: u16 = 0x1013;
pub const S_MANYREG2_ST: u16 = 0x1014;
pub const S_LPROCIA64_ST: u16 = 0x1015;
pub const S_GPROCIA64_ST: u16 = 0x1016;
pub const S_GMANPROC_ST: u16 = 0x101a;
pub const S_LMANPROC_ST: u16 = 0x101b;
pub const S_LMANDATA_ST: u16 = 0x1020;
pub const S_GMANDATA_ST: u16 = 0x1021;
pub const S_MANSLOT_ST: u16 = 0x1024;
pub const S_UNAMESPACE_ST: u16 = 0x1029;
pub const S_OBJNAME: u16 = 0x1101;
pub const S_THUNK32: u16 = 0x1102;
pub const S_BLOCK32: u16 = 0x1103;
pub const S_WITH32: u16 = 0x1104;
pub const S_LABEL32: u16 = 0x1105;
pub const S_REGISTER: u16 = 0x1106;
pub const S_CONSTANT: u16 = 0x1107;
pub const S_UDT: u16 = 0x1108;
pub const S_COBOLUDT: u16 = 0x1109;
pub const S_MANYREG: u16 = 0x110a;
pub const S_BPREL32: u16 = 0x110b;
pub const S_LDATA32: u16 = 0x110c;
pub const S_GDATA32: u16 = 0x110d;
pub const S_PUB32: u16 = 0x110e;
pub const S_LPROC32: u16 = 0x110f;
pub const S_GPROC32: u16 = 0x1110;
pub const S_REGREL32: u16 = 0x1111;
pub const S_LTHREAD32: u16 = 0x1112;
pub const S_GTHREAD32: u16 = 0x1113;
pub const S_LPROCMIPS: u16 = 0x1114;
pub const S_GPROCMIPS: u16 = 0x1115;
pub const S_COMPILE2: u16 = 0x1116;
pub const S_MANYREG2: u16 = 0x1117;
pub const S_LPROCIA64: u16 = 0x1118;
pub const S_GPROCIA64: u16 = 0x1119;
pub const S_LMANDATA: u16 = 0x111c;
pub const S_GMANDATA: u16 = 0x111d;
pub const S_MANSLOT: u16 = 0x1120;
pub const S_UNAMESPACE: u16 = 0x1124;
pub const S_PROCREF: u16 = 0x1125;
pub const S_DATAREF: u16 = 0x1126;
pub const S_LPROCREF: u16 = 0x1127;
pub const S_ANNOTATIONREF: u16 = 0x1128;
pub const S_TOKENREF: u16 = 0x1129;
pub const S_GMANPROC: u16 = 0x112a;
pub const S_LMANPROC: u16 = 0x112b;
pub const S_TRAMPOLINE: u16 = 0x112c;
pub const S_MANCONSTANT: u16 = 0x112d;
pub const S_SEPCODE: u16 = 0x1132;
pub const S_SECTION: u16 = 0x1136;
pub const S_COFFGROUP: u16 = 0x1137;
pub const S_EXPORT: u16 = 0x1138;
pub const S_CALLSITEINFO: u16 = 0x1139;
pub const S_FRAMECOOKIE: u16 = 0x113a;
pub const S_COMPILE3: u16 = 0x113c;
pub const S_ENVBLOCK: u16 = 0x113d;
pub const S_LOCAL: u16 = 0x113e;
pub const S_DEFRANGE: u16 = 0x113f;
pub const S_DEFRANGE_SUBFIELD: u16 = 0x1140;
pub const S_DEFRANGE_REGISTER: u16 = 0x1141;
pub const S_DEFRANGE_FRAMEPOINTER_REL: u16 = 0x1142;
pub const S_DEFRANGE_SUBFIELD_REGISTER: u16 = 0x1143;
pub const S_DEFRANGE_FRAMEPOINTER_REL_FULL_SCOPE: u16 = 0x1144;
pub const S_DEFRANGE_REGISTER_REL: u16 = 0x1145;
pub const S_LPROC32_ID: u16 = 0x1146;
pub const S_GPROC32_ID: u16 = 0x1147;
pub const S_LPROCMIPS_ID: u16 = 0x1148;
pub const S_GPROCMIPS_ID: u16 = 0x1149;
pub const S_LPROCIA64_ID: u16 = 0x114a;
pub const S_GPROCIA64_ID: u16 = 0x114b;
pub const S_BUILDINFO: u16 = 0x114c;
pub const S_INLINESITE: u16 = 0x114d;
pub const S_INLINESITE_END: u16 = 0x114e;
pub const S_PROC_ID_END: u16 = 0x114f;
pub const S_LPROC32_DPC: u16 = 0x1155;
pub const S_LPROC32_DPC_ID: u16 = 0x1156;
pub const S_ARMSWITCHTABLE: u16 = 0x1159;
pub const S_CALLEES: u16 = 0x115a;
pub const S_CALLERS: u16 = 0x115b;
pub const S_INLINESITE2: u16 = 0x115d;
pub const S_HEAPALLOCSITE: u16 = 0x115e;
pub const S_INLINEES: u16 = 0x1168;

/// Kinds whose records open a scope and carry `parent` and `end` references: every
/// procedure kind, blocks, with-statements, thunks, separated code and inline sites.
pub open spec fn is_scope_start(k: u16) -> bool {
    k == S_GPROC16 || k == S_GPROC32 || k == S_GPROC32_ST || k == S_GPROCMIPS
        || k == S_GPROCMIPS_ST || k == S_GPROCIA64 || k == S_GPROCIA64_ST || k == S_LPROC16
        || k == S_LPROC32 || k == S_LPROC32_ST || k == S_LPROC32_DPC || k == S_LPROCMIPS
        || k == S_LPROCMIPS_ST || k == S_LPROCIA64 || k == S_LPROCIA64_ST
        || k == S_LPROC32_DPC_ID || k == S_LPROC32_ID || k == S_GPROC32_ID
        || k == S_LPROCMIPS_ID || k == S_GPROCMIPS_ID || k == S_LPROCIA64_ID
        || k == S_GPROCIA64_ID || k == S_BLOCK16 || k == S_BLOCK32 || k == S_BLOCK32_ST
        || k == S_WITH16 || k == S_WITH32 || k == S_WITH32_ST || k == S_THUNK16
        || k == S_THUNK32 || k == S_THUNK32_ST || k == S_SEPCODE || k == S_GMANPROC
        || k == S_GMANPROC_ST || k == S_LMANPROC || k == S_LMANPROC_ST || k == S_INLINESITE
        || k == S_INLINESITE2
}

/// Kinds whose records close a scope.
pub open spec fn is_scope_end(k: u16) -> bool {
    k == S_END || k == S_PROC_ID_END || k == S_INLINESITE_END
}

/// Kinds of the padding records that the stream walk passes over.
pub open spec fn is_padding(k: u16) -> bool {
    k == S_ALIGN || k == S_SKIP
}

/// Whether records of kind `k` open a scope.
pub fn kind_starts_scope(k: u16) -> (r: bool)
    ensures
        r == is_scope_start(k),
{
    k == S_GPROC16 || k == S_GPROC32 || k == S_GPROC32_ST || k == S_GPROCMIPS
        || k == S_GPROCMIPS_ST || k == S_GPROCIA64 || k == S_GPROCIA64_ST || k == S_LPROC16
        || k == S_LPROC32 || k == S_LPROC32_ST || k == S_LPROC32_DPC || k == S_LPROCMIPS
        || k == S_LPROCMIPS_ST || k == S_LPROCIA64 || k == S_LPROCIA64_ST
        || k == S_LPROC32_DPC_ID || k == S_LPROC32_ID || k == S_GPROC32_ID
        || k == S_LPROCMIPS_ID || k == S_GPROCMIPS_ID || k == S_LPROCIA64_ID
        || k == S_GPROCIA64_ID || k == S_BLOCK16 || k == S_BLOCK32 || k == S_BLOCK32_ST
        || k == S_WITH16 || k == S_WITH32 || k == S_WITH32_ST || k == S_THUNK16
        || k == S_THUNK32 || k == S_THUNK32_ST || k == S_SEPCODE || k == S_GMANPROC
        || k == S_GMANPROC_ST || k == S_LMANPROC || k == S_LMANPROC_ST || k == S_INLINESITE
        || k == S_INLINESITE2
}

/// Whether records of kind `k` close a scope.
pub fn kind_ends_scope(k: u16) -> (r: bool)
    ensures
        r == is_scope_end(k),
{
    k == S_END || k == S_PROC_ID_END || k == S_INLINESITE_END
}

/// Whether records of kind `k` are padding.
pub fn kind_is_padding(k: u16) -> (r: bool)
    ensures
        r == is_padding(k),
{
    k == S_ALIGN || k == S_SKIP
}

/// No kind both opens and closes a scope.
pub proof fn lemma_scope_sets_disjoint(k: u16)
    ensures
        !(is_scope_start(k) && is_scope_end(k)),
{
}

} // verus!
