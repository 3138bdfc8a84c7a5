//! Source languages and target machines named by compile-flags records.
use vstd::prelude::*;

verus! {

/// The source language of a module.
#[derive(Clone, Copy, Debug, PartialEq, Eq, Structural)]
pub enum SourceLanguage {
    C,
    Cpp,
    Fortran,
    Masm,
    Pascal,
    Basic,
    Cobol,
    Link,
    Cvtres,
    Cvtpgd,
    CSharp,
    VB,
    ILAsm,
    Java,
    JScript,
    MSIL,
    HLSL,
    ObjC,
    ObjCpp,
    Swift,
    AliasObj,
    Rust,
    Go,
}

/// The language with code `v`; codes without a language of their own read as `Masm`.
pub open spec fn source_language(v: u8) -> SourceLanguage {
    match v {
        0x00 => SourceLanguage::C,
        0x01 => SourceLanguage::Cpp,
        0x02 => SourceLanguage::Fortran,
        0x04 => SourceLanguage::Pascal,
        0x05 => SourceLanguage::Basic,
        0x06 => SourceLanguage::Cobol,
        0x07 => SourceLanguage::Link,
        0x08 => SourceLanguage::Cvtres,
        0x09 => SourceLanguage::Cvtpgd,
        0x0a => SourceLanguage::CSharp,
        0x0b => SourceLanguage::VB,
        0x0c => SourceLanguage::ILAsm,
        0x0d => SourceLanguage::Java,
        0x0e => SourceLanguage::JScript,
        0x0f => SourceLanguage::MSIL,
        0x10 => SourceLanguage::HLSL,
        0x11 => SourceLanguage::ObjC,
        0x12 => SourceLanguage::ObjCpp,
        0x13 => SourceLanguage::Swift,
        0x14 => SourceLanguage::AliasObj,
        0x15 => SourceLanguage::Rust,
        0x16 => SourceLanguage::Go,
        _ => SourceLanguage::Masm,
    }
}

impl SourceLanguage {
    /// Decodes the raw value `v`.
    pub fn from_raw(v: u8) -> (r: Self)
        ensures
            r == source_language(v),
    {
        match v {
            0x00 => SourceLanguage::C,
            0x01 => SourceLanguage::Cpp,
            0x02 => SourceLanguage::Fortran,
            0x04 => SourceLanguage::Pascal,
            0x05 => SourceLanguage::Basic,
            0x06 => SourceLanguage::Cobol,
            0x07 => SourceLanguage::Link,
            0x08 => SourceLanguage::Cvtres,
            0x09 => SourceLanguage::Cvtpgd,
            0x0a => SourceLanguage::CSharp,
            0x0b => SourceLanguage::VB,
            0x0c => SourceLanguage::ILAsm,
            0x0d => SourceLanguage::Java,
            0x0e => SourceLanguage::JScript,
            0x0f => SourceLanguage::MSIL,
            0x10 => SourceLanguage::HLSL,
            0x11 => SourceLanguage::ObjC,
            0x12 => SourceLanguage::ObjCpp,
            0x13 => SourceLanguage::Swift,
            0x14 => SourceLanguage::AliasObj,
            0x15 => SourceLanguage::Rust,
            0x16 => SourceLanguage::Go,
            _ => SourceLanguage::Masm,
        }
    }
}

/// The machine a module was compiled for.
#[derive(Clone, Copy, Debug, PartialEq, Eq, Structural)]
pub enum CPUType {
    Intel8080,
    Intel8086,
    Intel80286,
    Intel80386,
    Intel80486,
    Pentium,
    PentiumPro,
    Pentium3,
    MIPS,
    MIPS16,
    MIPS32,
    MIPS64,
    MIPSI,
    MIPSII,
    MIPSIII,
    MIPSIV,
    MIPSV,
    M68000,
    M68010,
    M68020,
    M68030,
    M68040,
    Alpha,
    Alpha21164,
    Alpha21164A,
    Alpha21264,
    Alpha21364,
    PPC601,
    PPC603,
    PPC604,
    PPC620,
    PPCFP,
    PPCBE,
    SH3,
    SH3E,
    SH3DSP,
    SH4,
    SHMedia,
    ARM3,
    ARM4,
    ARM4T,
    ARM5,
    ARM5T,
    ARM6,
    ARM_XMAC,
    ARM_WMMX,
    ARM7,
    Omni,
    Ia64,
    Ia64_2,
    CEE,
    AM33,
    M32R,
    TriCore,
    X64,
    EBC,
    Thumb,
    ARMNT,
    ARM64,
    HybridX86ARM64,
    ARM64EC,
    ARM64X,
    D3D11_Shader,
    Unknown,
}

/// The machine with code `v`; unlisted codes read as `Unknown`.
pub open spec fn cpu_type(v: u16) -> CPUType {
    match v {
        0x00 => CPUType::Intel8080,
        0x01 => CPUType::Intel8086,
        0x02 => CPUType::Intel80286,
        0x03 => CPUType::Intel80386,
        0x04 => CPUType::Intel80486,
        0x05 => CPUType::Pentium,
        0x06 => CPUType::PentiumPro,
        0x07 => CPUType::Pentium3,
        0x10 => CPUType::MIPS,
        0x11 => CPUType::MIPS16,
        0x12 => CPUType::MIPS32,
        0x13 => CPUType::MIPS64,
        0x14 => CPUType::MIPSI,
        0x15 => CPUType::MIPSII,
        0x16 => CPUType::MIPSIII,
        0x17 => CPUType::MIPSIV,
        0x18 => CPUType::MIPSV,
        0x20 => CPUType::M68000,
        0x21 => CPUType::M68010,
        0x22 => CPUType::M68020,
        0x23 => CPUType::M68030,
        0x24 => CPUType::M68040,
        0x30 => CPUType::Alpha,
        0x31 => CPUType::Alpha21164,
        0x32 => CPUType::Alpha21164A,
        0x33 => CPUType::Alpha21264,
        0x34 => CPUType::Alpha21364,
        0x40 => CPUType::PPC601,
        0x41 => CPUType::PPC603,
        0x42 => CPUType::PPC604,
        0x43 => CPUType::PPC620,
        0x44 => CPUType::PPCFP,
        0x45 => CPUType::PPCBE,
        0x50 => CPUType::SH3,
        0x51 => CPUType::SH3E,
        0x52 => CPUType::SH3DSP,
        0x53 => CPUType::SH4,
        0x54 => CPUType::SHMedia,
        0x60 => CPUType::ARM3,
        0x61 => CPUType::ARM4,
        0x62 => CPUType::ARM4T,
        0x63 => CPUType::ARM5,
        0x64 => CPUType::ARM5T,
        0x65 => CPUType::ARM6,
        0x66 => CPUType::ARM_XMAC,
        0x67 => CPUType::ARM_WMMX,
        0x68 => CPUType::ARM7,
        0x70 => CPUType::Omni,
        0x80 => CPUType::Ia64,
        0x81 => CPUType::Ia64_2,
        0x90 => CPUType::CEE,
        0xa0 => CPUType::AM33,
        0xb0 => CPUType::M32R,
        0xc0 => CPUType::TriCore,
        0xd0 => CPUType::X64,
        0xe0 => CPUType::EBC,
        0xf0 => CPUType::Thumb,
        0xf4 => CPUType::ARMNT,
        0xf6 => CPUType::ARM64,
        0xf7 => CPUType::HybridX86ARM64,
        0xf8 => CPUType::ARM64EC,
        0xf9 => CPUType::ARM64X,
        0x100 => CPUType::D3D11_Shader,
        _ => CPUType::Unknown,
    }
}

impl CPUType {
    /// Decodes the raw value `v`.
    pub fn from_raw(v: u16) -> (r: Self)
        ensures
            r == cpu_type(v),
    {
        match v {
            0x00 => CPUType::Intel8080,
            0x01 => CPUType::Intel8086,
            0x02 => CPUType::Intel80286,
            0x03 => CPUType::Intel80386,
            0x04 => CPUType::Intel80486,
            0x05 => CPUType::Pentium,
            0x06 => CPUType::PentiumPro,
            0x07 => CPUType::Pentium3,
            0x10 => CPUType::MIPS,
            0x11 => CPUType::MIPS16,
            0x12 => CPUType::MIPS32,
            0x13 => CPUType::MIPS64,
            0x14 => CPUType::MIPSI,
            0x15 => CPUType::MIPSII,
            0x16 => CPUType::MIPSIII,
            0x17 => CPUType::MIPSIV,
            0x18 => CPUType::MIPSV,
            0x20 => CPUType::M68000,
            0x21 => CPUType::M68010,
            0x22 => CPUType::M68020,
            0x23 => CPUType::M68030,
            0x24 => CPUType::M68040,
            0x30 => CPUType::Alpha,
            0x31 => CPUType::Alpha21164,
            0x32 => CPUType::Alpha21164A,
            0x33 => CPUType::Alpha21264,
            0x34 => CPUType::Alpha21364,
            0x40 => CPUType::PPC601,
            0x41 => CPUType::PPC603,
            0x42 => CPUType::PPC604,
            0x43 => CPUType::PPC620,
            0x44 => CPUType::PPCFP,
            0x45 => CPUType::PPCBE,
            0x50 => CPUType::SH3,
            0x51 => CPUType::SH3E,
            0x52 => CPUType::SH3DSP,
            0x53 => CPUType::SH4,
            0x54 => CPUType::SHMedia,
            0x60 => CPUType::ARM3,
            0x61 => CPUType::ARM4,
            0x62 => CPUType::ARM4T,
            0x63 => CPUType::ARM5,
            0x64 => CPUType::ARM5T,
            0x65 => CPUType::ARM6,
            0x66 => CPUType::ARM_XMAC,
            0x67 => CPUType::ARM_WMMX,
            0x68 => CPUType::ARM7,
            0x70 => CPUType::Omni,
            0x80 => CPUType::Ia64,
            0x81 => CPUType::Ia64_2,
            0x90 => CPUType::CEE,
            0xa0 => CPUType::AM33,
            0xb0 => CPUType::M32R,
            0xc0 => CPUType::TriCore,
            0xd0 => CPUType::X64,
            0xe0 => CPUType::EBC,
            0xf0 => CPUType::Thumb,
            0xf4 => CPUType::ARMNT,
            0xf6 => CPUType::ARM64,
            0xf7 => CPUType::HybridX86ARM64,
            0xf8 => CPUType::ARM64EC,
            0xf9 => CPUType::ARM64X,
            0x100 => CPUType::D3D11_Shader,
            _ => CPUType::Unknown,
        }
    }
}

} // verus!
