use pdb_symbols::{
    AddressGap, AddressRange, AnnotationReferenceSymbol, BasePointerRelativeSymbol,
    BinaryAnnotations, COMToken, DefRangeFramePointerRelativeFullScopeSymbol,
    DefRangeRegisterRelativeSymbol, DefRangeSubFieldSymbol, EnvBlockSymbol, Error,
    ExportSymbol, ExportSymbolFlags, IdIndex, InlineSiteSymbol, ManagedProcedureSymbol,
    MultiRegisterVariableSymbol, OemSymbol, PdbInternalSectionOffset, ProcedureFlags, Register,
    SectionCharacteristics, SectionSymbol, Symbol, SymbolData, SymbolIndex,
    ThreadStorageSymbol, TokenReferenceSymbol, TypeIndex,
};

fn parse(data: &[u8]) -> Result<SymbolData, Error> {
    Symbol::new(SymbolIndex(0), data).parse()
}

fn no_flags() -> ProcedureFlags {
    ProcedureFlags {
        nofpo: false,
        int: false,
        far: false,
        never: false,
        notreached: false,
        cust_call: false,
        noinline: false,
        optdbginfo: false,
    }
}

#[test]
fn multi_register_with_byte_count() {
    // S_MANYREG: a one-byte count, then register and name pairs
    let data = [0x0a, 0x11, 5, 0, 0, 0, 2, 17, 0, b'a', 0, 18, 0, b'b', 0];
    assert_eq!(
        parse(&data),
        Ok(SymbolData::MultiRegisterVariable(MultiRegisterVariableSymbol {
            type_index: TypeIndex(5),
            registers: vec![(Register(17), "a".to_string()), (Register(18), "b".to_string())],
        }))
    );
}

#[test]
fn multi_register_with_word_count() {
    // S_MANYREG2: a two-byte count
    let data = [0x17, 0x11, 5, 0, 0, 0, 1, 0, 17, 0, b'a', 0];
    assert_eq!(
        parse(&data),
        Ok(SymbolData::MultiRegisterVariable(MultiRegisterVariableSymbol {
            type_index: TypeIndex(5),
            registers: vec![(Register(17), "a".to_string())],
        }))
    );
}

#[test]
fn multi_register_short_of_its_count() {
    let data = [0x0a, 0x11, 5, 0, 0, 0, 2, 17, 0, b'a', 0];
    assert_eq!(parse(&data), Err(Error::UnexpectedEof));
}

#[test]
fn environment_block() {
    let data = [0x3d, 0x11, 1, b'a', 0, b'b', b'c', 0];
    assert_eq!(
        parse(&data),
        Ok(SymbolData::EnvBlock(EnvBlockSymbol {
            edit_and_continue: true,
            rgsz: vec!["a".to_string(), "bc".to_string()],
        }))
    );
    let empty = [0x3d, 0x11, 0];
    assert_eq!(
        parse(&empty),
        Ok(SymbolData::EnvBlock(EnvBlockSymbol { edit_and_continue: false, rgsz: vec![] }))
    );
    let unterminated = [0x3d, 0x11, 1, b'a', 0, b'b'];
    assert_eq!(parse(&unterminated), Err(Error::UnexpectedEof));
}

#[test]
fn oem_data() {
    let data = [0x04, 0x04, b'i', b'd', 0, 7, 0, 0, 0, 1, 2, 3, 4];
    assert_eq!(
        parse(&data),
        Ok(SymbolData::OEM(OemSymbol {
            id_oem: "id".to_string(),
            type_index: TypeIndex(7),
            rgl: 0x0403_0201,
        }))
    );
}

#[test]
fn section() {
    let data = [
        0x36, 0x11, 1, 0, 12, 0, 0, 0x10, 0, 0, 0, 0x20, 0, 0, 0x20, 0, 0, 0x60, b'.', b't',
        0,
    ];
    assert_eq!(
        parse(&data),
        Ok(SymbolData::Section(SectionSymbol {
            isec: 1,
            align: 12,
            reserved: 0,
            rva: 0x1000,
            cb: 0x2000,
            characteristics: SectionCharacteristics(0x6000_0020),
            name: ".t".to_string(),
        }))
    );
}

#[test]
fn managed_procedure() {
    // S_GMANPROC
    let data = [
        0x2a, 0x11, 0, 0, 0, 0, 0x40, 0, 0, 0, 0, 0, 0, 0, 8, 0, 0, 0, 1, 0, 0, 0, 7, 0, 0, 0,
        0x01, 0, 0, 0x06, 0x10, 0, 0, 0, 1, 0, 0x81, 3, 0, b'm', 0,
    ];
    assert_eq!(
        parse(&data),
        Ok(SymbolData::ManagedProcedure(ManagedProcedureSymbol {
            global: true,
            parent: None,
            end: SymbolIndex(0x40),
            next: None,
            len: 8,
            dbg_start_offset: 1,
            dbg_end_offset: 7,
            token: COMToken(0x0600_0001),
            offset: PdbInternalSectionOffset { offset: 0x10, section: 1 },
            flags: ProcedureFlags { nofpo: true, optdbginfo: true, ..no_flags() },
            return_register: 3,
            name: Some("m".to_string()),
        }))
    );
}

#[test]
fn oldest_base_pointer_relative_layout() {
    // S_BPREL32_16T: a two-byte type index and a length-prefixed name
    let data = [0x00, 0x02, 0xf8, 0xff, 0xff, 0xff, 0x74, 0, 1, b'v'];
    assert_eq!(
        parse(&data),
        Ok(SymbolData::BasePointerRelative(BasePointerRelativeSymbol {
            offset: -8,
            type_index: TypeIndex(0x74),
            name: "v".to_string(),
            slot: None,
        }))
    );
}

#[test]
fn base_pointer_relative_decoder_refuses_other_kinds() {
    let data = [0x0b, 0x11, 0, 0, 0, 0, 0x74, 0, 0, 0, b'v', 0];
    assert_eq!(
        BasePointerRelativeSymbol::decode(&data, 0x1111),
        Err(Error::UnimplementedSymbolKind(0x1111))
    );
}

#[test]
fn inline_site_with_invocations() {
    // S_INLINESITE2 carries an invocation count before the annotations
    let data = [0x5d, 0x11, 0, 0, 0, 0, 0x20, 0, 0, 0, 9, 0, 0, 0, 5, 0, 0, 0, 0xaa, 0xbb];
    assert_eq!(
        parse(&data),
        Ok(SymbolData::InlineSite(InlineSiteSymbol {
            parent: None,
            end: SymbolIndex(0x20),
            inlinee: IdIndex(9),
            invocations: Some(5),
            annotations: BinaryAnnotations::new(&[0xaa, 0xbb]),
        }))
    );
}

#[test]
fn full_scope_frame_pointer_variable() {
    let data = [0x44, 0x11, 0xf0, 0xff, 0xff, 0xff];
    assert_eq!(
        parse(&data),
        Ok(SymbolData::DefRangeFramePointerRelativeFullScope(
            DefRangeFramePointerRelativeFullScopeSymbol { offset: -16 }
        ))
    );
}

#[test]
fn register_relative_live_range() {
    // spilled bit set, parent offset 0x12 in bits 4 and up
    let data = [
        0x45, 0x11, 0x14, 0, 0x21, 0x01, 8, 0, 0, 0, 0x30, 0, 0, 0, 1, 0, 4, 0, 1, 0, 1, 0,
    ];
    assert_eq!(
        parse(&data),
        Ok(SymbolData::DefRangeRegisterRelative(DefRangeRegisterRelativeSymbol {
            base_register: Register(0x14),
            spilled_udt_member: 1,
            offset_parent: 0x12,
            offset_base_pointer: 8,
            range: AddressRange {
                offset: PdbInternalSectionOffset { offset: 0x30, section: 1 },
                cb_range: 4,
            },
            gaps: vec![AddressGap { gap_start_offset: 1, cb_range: 1 }],
        }))
    );
}

#[test]
fn sub_field_live_range() {
    let data = [0x40, 0x11, 3, 0, 0, 0, 4, 0, 0, 0, 0x30, 0, 0, 0, 1, 0, 4, 0];
    assert_eq!(
        parse(&data),
        Ok(SymbolData::DefRangeSubField(DefRangeSubFieldSymbol {
            program: 3,
            parent_offset: 4,
            range: AddressRange {
                offset: PdbInternalSectionOffset { offset: 0x30, section: 1 },
                cb_range: 4,
            },
            gaps: vec![],
        }))
    );
}

#[test]
fn annotation_and_token_references() {
    let data = [0x28, 0x11, 1, 0, 0, 0, 2, 0, 0, 0, 4, 0, b'n', 0];
    assert_eq!(
        parse(&data),
        Ok(SymbolData::AnnotationReference(AnnotationReferenceSymbol {
            sum_name: 1,
            symbol_index: SymbolIndex(2),
            module: Some(3),
            name: "n".to_string(),
        }))
    );
    let data = [0x29, 0x11, 1, 0, 0, 0, 2, 0, 0, 0, 0, 0, b'n', 0];
    assert_eq!(
        parse(&data),
        Ok(SymbolData::TokenReference(TokenReferenceSymbol {
            sum_name: 1,
            symbol_index: SymbolIndex(2),
            module: None,
            name: "n".to_string(),
        }))
    );
}

#[test]
fn global_thread_storage() {
    let data = [0x13, 0x11, 0x74, 0, 0, 0, 8, 0, 0, 0, 2, 0, b't', 0];
    assert_eq!(
        parse(&data),
        Ok(SymbolData::ThreadStorage(ThreadStorageSymbol {
            global: true,
            type_index: TypeIndex(0x74),
            offset: PdbInternalSectionOffset { offset: 8, section: 2 },
            name: "t".to_string(),
        }))
    );
}

#[test]
fn export() {
    let data = [0x38, 0x11, 3, 0, 0x12, 0, b'e', 0];
    assert_eq!(
        parse(&data),
        Ok(SymbolData::Export(ExportSymbol {
            ordinal: 3,
            flags: ExportSymbolFlags {
                constant: false,
                data: true,
                private: false,
                no_name: false,
                ordinal: true,
                forwarder: false,
            },
            name: "e".to_string(),
        }))
    );
}
