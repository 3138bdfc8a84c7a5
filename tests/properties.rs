use pdb_symbols::{
    AddressGap, AddressRange, CompileFlags, ConstantSymbol, DataReferenceSymbol, DefRangeSymbol,
    Error, FunctionListSymbol, LocalSymbol, LocalVariableFlags, PdbInternalSectionOffset,
    ProcedureReferenceSymbol, Register, RegisterVariableSymbol, Symbol, SymbolData, SymbolIndex,
    SymbolIter, SymbolTable, ThunkAdjustor, ThunkKind, TypeIndex, UserDefinedTypeSymbol,
    UsingNamespaceSymbol, Variant,
};

fn parse(data: &[u8]) -> Result<SymbolData, Error> {
    Symbol::new(SymbolIndex(0), data).parse()
}

#[test]
fn legacy_name_is_length_prefixed() {
    // S_UDT_ST: type index, then a one-byte length and the name, no terminator
    let data = [3, 16, 9, 0, 0, 0, 3, b'a', b'b', b'c'];
    assert_eq!(
        parse(&data),
        Ok(SymbolData::UserDefinedType(UserDefinedTypeSymbol {
            type_index: TypeIndex(9),
            name: "abc".to_string(),
        }))
    );
}

#[test]
fn legacy_name_running_past_the_end_is_an_error() {
    let data = [3, 16, 9, 0, 0, 0, 5, b'a', b'b'];
    assert_eq!(parse(&data), Err(Error::UnexpectedEof));
}

#[test]
fn modern_name_is_nul_terminated() {
    // S_UDT: the name ends at the first zero byte; padding after it is ignored
    let data = [8, 17, 9, 0, 0, 0, b'a', b'b', 0, b'z', 0];
    assert_eq!(
        parse(&data),
        Ok(SymbolData::UserDefinedType(UserDefinedTypeSymbol {
            type_index: TypeIndex(9),
            name: "ab".to_string(),
        }))
    );
}

#[test]
fn modern_name_without_terminator_is_an_error() {
    let data = [8, 17, 9, 0, 0, 0, b'a', b'b'];
    assert_eq!(parse(&data), Err(Error::UnexpectedEof));
}

#[test]
fn invalid_utf8_in_a_name_is_replaced() {
    let data = [36, 17, 0x61, 0xff, 0x62, 0];
    assert_eq!(
        parse(&data),
        Ok(SymbolData::UsingNamespace(UsingNamespaceSymbol { name: "a\u{fffd}b".to_string() }))
    );
}

#[test]
fn module_zero_is_absent() {
    // S_DATAREF with module number 0
    let data = [38, 17, 1, 0, 0, 0, 2, 0, 0, 0, 0, 0, b'x', 0];
    assert_eq!(
        parse(&data),
        Ok(SymbolData::DataReference(DataReferenceSymbol {
            sum_name: 1,
            symbol_index: SymbolIndex(2),
            module: None,
            name: Some("x".to_string()),
        }))
    );
}

#[test]
fn module_numbers_are_one_based() {
    // S_DATAREF with module number 3, which is module index 2
    let data = [38, 17, 1, 0, 0, 0, 2, 0, 0, 0, 3, 0, b'x', 0];
    match parse(&data) {
        Ok(SymbolData::DataReference(r)) => assert_eq!(r.module, Some(2)),
        other => panic!("unexpected {:?}", other),
    }
    // the largest module number
    let data = [38, 17, 1, 0, 0, 0, 2, 0, 0, 0, 0xff, 0xff, b'x', 0];
    match parse(&data) {
        Ok(SymbolData::DataReference(r)) => assert_eq!(r.module, Some(65534)),
        other => panic!("unexpected {:?}", other),
    }
}

#[test]
fn legacy_reference_has_no_name() {
    // S_PROCREF_ST carries no name
    let data = [0, 4, 0, 0, 0, 0, 5, 0, 0, 0, 1, 0];
    assert_eq!(
        parse(&data),
        Ok(SymbolData::ProcedureReference(ProcedureReferenceSymbol {
            global: true,
            sum_name: 0,
            symbol_index: SymbolIndex(5),
            module: Some(0),
            name: None,
        }))
    );
    assert_eq!(parse(&data).unwrap().name(), None);
}

#[test]
fn scope_kinds() {
    let opening: [u16; 9] =
        [0x1110, 0x110f, 0x1146, 0x1148, 0x114a, 0x1103, 0x1102, 0x114d, 0x1132];
    for kind in opening {
        let data = kind.to_le_bytes();
        let symbol = Symbol::new(SymbolIndex(0), &data);
        assert!(symbol.starts_scope(), "{:#x}", kind);
        assert!(!symbol.ends_scope(), "{:#x}", kind);
    }
    let closing: [u16; 3] = [0x0006, 0x114f, 0x114e];
    for kind in closing {
        let data = kind.to_le_bytes();
        let symbol = Symbol::new(SymbolIndex(0), &data);
        assert!(symbol.ends_scope(), "{:#x}", kind);
        assert!(!symbol.starts_scope(), "{:#x}", kind);
    }
    let neither = Symbol::new(SymbolIndex(0), &[0x0e, 0x11]);
    assert!(!neither.starts_scope());
    assert!(!neither.ends_scope());
}

#[test]
fn raw_kind_of_a_short_record_is_zero() {
    assert_eq!(Symbol::new(SymbolIndex(0), &[7]).raw_kind(), 0);
}

#[test]
fn iterator_skips_padding() {
    let data = [
        0x02, 0x00, 0x02, 0x04, // S_ALIGN
        0x04, 0x00, 0x07, 0x00, 0xaa, 0xbb, // S_SKIP with two bytes
        0x02, 0x00, 0x06, 0x00, // S_END
        0x02, 0x00, 0x07, 0x00, // S_SKIP
    ];
    let symbols = SymbolIter::new(&data).collect().expect("collect");
    assert_eq!(symbols, vec![Symbol::new(SymbolIndex(10), &[0x06, 0x00])]);
}

#[test]
fn iterator_ends_cleanly_on_an_empty_stream() {
    let mut iter = SymbolIter::new(&[]);
    assert_eq!(iter.next(), Ok(None));
}

#[test]
fn record_length_below_two_is_an_error() {
    let data = [0x01, 0x00, 0x06];
    let mut iter = SymbolIter::new(&data);
    assert_eq!(iter.next(), Err(Error::SymbolTooShort));
}

#[test]
fn record_running_past_the_end_is_an_error() {
    let data = [0x08, 0x00, 0x06, 0x00];
    let mut iter = SymbolIter::new(&data);
    assert_eq!(iter.next(), Err(Error::UnexpectedEof));
    let mut iter = SymbolIter::new(&[0x02]);
    assert_eq!(iter.next(), Err(Error::UnexpectedEof));
    let mut iter = SymbolIter::new(&data);
    assert_eq!(iter.collect(), Err(Error::UnexpectedEof));
}

#[test]
fn table_iterates_from_an_index() {
    let data = [0x02, 0x00, 0x4e, 0x11, 0x02, 0x00, 0x06, 0x00];
    let table = SymbolTable::new(&data);
    assert_eq!(table.iter().collect().expect("collect").len(), 2);
    let mut iter = table.iter_at(SymbolIndex(4));
    let symbol = iter.next().expect("next").expect("a symbol");
    assert_eq!(symbol.index(), SymbolIndex(4));
    assert_eq!(symbol.raw_bytes(), &[0x06, 0x00]);
    assert_eq!(iter.next(), Ok(None));
}

#[test]
fn missing_invocation_counts_read_as_zero() {
    // S_CALLERS: three functions, then only two invocation counts
    let data = [
        91, 17, 3, 0, 0, 0, 1, 0, 0, 0, 2, 0, 0, 0, 3, 0, 0, 0, 10, 0, 0, 0, 20, 0, 0, 0,
    ];
    assert_eq!(
        parse(&data),
        Ok(SymbolData::Callers(FunctionListSymbol {
            functions: vec![TypeIndex(1), TypeIndex(2), TypeIndex(3)],
            invocations: vec![10, 20, 0],
        }))
    );
}

#[test]
fn extra_invocation_counts_are_dropped() {
    let data = [91, 17, 1, 0, 0, 0, 1, 0, 0, 0, 10, 0, 0, 0, 20, 0, 0, 0];
    assert_eq!(
        parse(&data),
        Ok(SymbolData::Callers(FunctionListSymbol {
            functions: vec![TypeIndex(1)],
            invocations: vec![10],
        }))
    );
}

#[test]
fn function_list_longer_than_its_record_is_an_error() {
    let data = [90, 17, 3, 0, 0, 0, 1, 0, 0, 0];
    assert_eq!(parse(&data), Err(Error::UnexpectedEof));
}

#[test]
fn gap_count_follows_the_record_length() {
    // S_DEFRANGE with two gaps
    let data = [
        0x3f, 0x11, 7, 0, 0, 0, 0x10, 0, 0, 0, 1, 0, 0x20, 0, 1, 0, 2, 0, 3, 0, 4, 0,
    ];
    assert_eq!(
        parse(&data),
        Ok(SymbolData::DefRange(DefRangeSymbol {
            program: 7,
            range: AddressRange {
                offset: PdbInternalSectionOffset { offset: 0x10, section: 1 },
                cb_range: 0x20,
            },
            gaps: vec![
                AddressGap { gap_start_offset: 1, cb_range: 2 },
                AddressGap { gap_start_offset: 3, cb_range: 4 },
            ],
        }))
    );
}

#[test]
fn partial_gap_is_an_error() {
    // S_DEFRANGE with one gap and three stray bytes
    let data = [
        0x3f, 0x11, 7, 0, 0, 0, 0x10, 0, 0, 0, 1, 0, 0x20, 0, 1, 0, 2, 0, 9, 9, 9,
    ];
    assert_eq!(parse(&data), Err(Error::MalformedGapList));
    // S_DEFRANGE_SUBFIELD_REGISTER with two stray bytes
    let data = [
        0x43, 0x11, 1, 0, 0, 0, 0, 0, 0, 0, 0, 0, 0, 0, 0, 0, 0, 0, 9, 9,
    ];
    assert_eq!(parse(&data), Err(Error::MalformedGapList));
}

#[test]
fn truncated_live_range_is_an_error() {
    assert_eq!(parse(&[0x3f, 0x11, 7, 0, 0, 0]), Err(Error::UnexpectedEof));
}

#[test]
fn unknown_kind_is_an_error() {
    assert_eq!(parse(&[0xff, 0x7f, 0, 0]), Err(Error::UnimplementedSymbolKind(0x7fff)));
}

#[test]
fn empty_record_is_an_error() {
    assert_eq!(parse(&[]), Err(Error::UnexpectedEof));
}

#[test]
fn unknown_numeric_prefix_is_an_error() {
    // S_CONSTANT whose value leaf starts with 0x8005
    let data = [7, 17, 1, 0, 0, 0, 5, 0x80, 0, 0, 0, 0, b'c', 0];
    assert_eq!(parse(&data), Err(Error::UnexpectedNumericPrefix(0x8005)));
}

#[test]
fn wide_numeric_leaf() {
    // S_CONSTANT with an LF_ULONG value
    let data = [7, 17, 1, 0, 0, 0, 4, 0x80, 0x78, 0x56, 0x34, 0x12, b'c', 0];
    assert_eq!(
        parse(&data),
        Ok(SymbolData::Constant(ConstantSymbol {
            managed: false,
            type_index: TypeIndex(1),
            value: Variant::U32(0x1234_5678),
            name: "c".to_string(),
        }))
    );
    // S_CONSTANT with an LF_SHORT value of -2
    let data = [7, 17, 1, 0, 0, 0, 1, 0x80, 0xfe, 0xff, b'c', 0];
    match parse(&data) {
        Ok(SymbolData::Constant(c)) => assert_eq!(c.value, Variant::I16(-2)),
        other => panic!("unexpected {:?}", other),
    }
}

#[test]
fn parameter_slot_is_read_after_its_marker() {
    // S_REGISTER named "x": over the payload after the kind, the marker `$` stands at name
    // length + 0xb and the slot right after it
    let data = [6, 17, 1, 0, 0, 0, 2, 0, b'x', 0, 0, 0, 0, 0, 0x24, 42, 0, 0, 0];
    assert_eq!(
        parse(&data),
        Ok(SymbolData::RegisterVariable(RegisterVariableSymbol {
            type_index: TypeIndex(1),
            register: Register(2),
            name: "x".to_string(),
            slot: Some(42),
        }))
    );
}

#[test]
fn parameter_slot_marker_counts_from_the_payload() {
    // a `$` two bytes early, where the kind would be counted in, is no marker
    let data = [6, 17, 1, 0, 0, 0, 2, 0, b'x', 0, 0, 0, 0x24, 42, 0, 0, 0, 0, 0];
    match parse(&data) {
        Ok(SymbolData::RegisterVariable(r)) => assert_eq!(r.slot, None),
        other => panic!("unexpected {:?}", other),
    }
}

#[test]
fn register_relative_parameter_slot() {
    // S_REGREL32 named "x": marker at name length + 0xf over the payload
    let data = [
        0x11, 0x11, 8, 0, 0, 0, 1, 0, 0, 0, 2, 0, b'x', 0, 0, 0, 0, 0, 0x24, 0xff, 0xff, 0xff,
        0xff,
    ];
    match parse(&data) {
        Ok(SymbolData::RegisterRelative(r)) => {
            assert_eq!(r.slot, Some(-1));
            assert_eq!(r.offset, 8);
        },
        other => panic!("unexpected {:?}", other),
    }
}

#[test]
fn parameter_slot_cut_short_is_absent() {
    // S_LOCAL named "x": the marker is there but only two slot bytes follow
    let data = [0x3e, 0x11, 1, 0, 0, 0, 0, 0, b'x', 0, 0, 0, 0, 0, 0x24, 42, 0];
    assert_eq!(
        parse(&data),
        Ok(SymbolData::Local(LocalSymbol {
            type_index: TypeIndex(1),
            flags: LocalVariableFlags {
                isparam: false,
                addrtaken: false,
                compgenx: false,
                isaggregate: false,
                isaliased: false,
                isalias: false,
                isretvalue: false,
                isoptimizedout: false,
                isenreg_glob: false,
                isenreg_stat: false,
            },
            name: "x".to_string(),
            slot: None,
        }))
    );
}

#[test]
fn parameter_slot_without_marker_is_absent() {
    let data = [6, 17, 1, 0, 0, 0, 2, 0, b'x', 0, 0, 0, 0, 0, 0x25, 42, 0, 0, 0];
    match parse(&data) {
        Ok(SymbolData::RegisterVariable(r)) => assert_eq!(r.slot, None),
        other => panic!("unexpected {:?}", other),
    }
}

#[test]
fn newer_compile_flags_bits_need_the_newer_kind() {
    // S_COMPILE2 with the /sdl, pgo and .exp bits all set
    let data = [
        0x16, 0x11, 1, 0x00, 0x0e, 0, 3, 0, 1, 0, 2, 0, 3, 0, 4, 0, 5, 0, 6, 0, b'c', 0,
    ];
    match parse(&data) {
        Ok(SymbolData::CompileFlags(c)) => {
            assert_eq!(
                c.flags,
                CompileFlags {
                    edit_and_continue: false,
                    no_debug_info: false,
                    link_time_codegen: false,
                    no_data_align: false,
                    managed: false,
                    security_checks: false,
                    hot_patch: false,
                    cvtcil: false,
                    msil_module: false,
                    sdl: false,
                    pgo: false,
                    exp_module: false,
                }
            );
            assert_eq!(c.frontend_version.qfe, None);
            assert_eq!(c.backend_version.build, 6);
            assert_eq!(c.version_string, "c");
        },
        other => panic!("unexpected {:?}", other),
    }
}

#[test]
fn adjustor_thunk() {
    // S_THUNK32 named "t" of ordinal 1: a delta and a target name follow the name
    let data = [
        2, 17, 0, 0, 0, 0, 9, 0, 0, 0, 0, 0, 0, 0, 4, 0, 0, 0, 1, 0, 5, 0, 1, b't', 0, 8, 0,
        b'f', 0,
    ];
    match parse(&data) {
        Ok(SymbolData::Thunk(t)) => {
            assert_eq!(
                t.kind,
                ThunkKind::Adjustor(ThunkAdjustor { delta: 8, target: "f".to_string() })
            );
            assert_eq!(t.end, SymbolIndex(9));
            assert_eq!(t.name, "t");
        },
        other => panic!("unexpected {:?}", other),
    }
}

#[test]
fn names_of_decoded_records() {
    let data = [36, 17, b's', b't', b'd', 0];
    assert_eq!(parse(&data).unwrap().name(), Some("std"));
    assert_eq!(parse(&[6, 0]).unwrap().name(), None);
}

#[test]
fn decoding_reads_exactly_the_fields() {
    // an object name record that holds exactly its fields is read to its last byte
    let data = [1, 17, 0, 0, 0, 0, 42, 32, 67, 73, 76, 32, 42, 0];
    let (_, n) = SymbolData::decode(&data).expect("decode");
    assert_eq!(n, data.len());
    // a label followed by three bytes of alignment padding: the padding is not read
    let data = [
        5, 17, 224, 95, 151, 0, 1, 0, 0, 100, 97, 118, 49, 100, 95, 119, 95, 97, 118, 103, 95,
        115, 115, 115, 101, 51, 0, 0, 0, 0,
    ];
    let (_, n) = SymbolData::decode(&data).expect("decode");
    assert_eq!(n, data.len() - 3);
    // fixed layouts and markers report their size
    assert_eq!(SymbolData::decode(&[6, 0]), Ok((SymbolData::ScopeEnd, 2)));
    let data = [58, 17, 32, 2, 0, 0, 79, 1, 1, 0];
    assert_eq!(SymbolData::decode(&data).expect("decode").1, 10);
    // a live range reads its gaps to the end of the record
    let data = [65, 17, 17, 0, 0, 0, 70, 40, 0, 0, 1, 0, 66, 0, 44, 0, 19, 0];
    assert_eq!(SymbolData::decode(&data).expect("decode").1, data.len());
}

#[test]
fn collect_stops_at_the_first_error() {
    let data = [0x02, 0x00, 0x06, 0x00, 0x01, 0x00];
    let mut iter = SymbolIter::new(&data);
    assert_eq!(iter.collect(), Err(Error::SymbolTooShort));
}
