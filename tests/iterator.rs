use pdb_symbols::{Symbol, SymbolIndex, SymbolIter};

static DATA: [u8; 12] = [
    0x00, 0x00, 0x00, 0x00, // module signature (padding)
    0x02, 0x00, 0x4e, 0x11, // S_INLINESITE_END
    0x02, 0x00, 0x06, 0x00, // S_END
];

fn create_iter() -> SymbolIter<'static> {
    let mut iter = SymbolIter::new(&DATA[..]);
    iter.seek(SymbolIndex(4)); // skip the module signature
    iter
}

#[test]
fn test_iter() {
    let symbols: Vec<_> = create_iter().collect().expect("collect");

    let expected = [
        Symbol::new(SymbolIndex(0x4), &[0x4e, 0x11]), // S_INLINESITE_END
        Symbol::new(SymbolIndex(0x8), &[0x06, 0x00]), // S_END
    ];

    assert_eq!(symbols, expected);
}

#[test]
fn test_seek() {
    let mut symbols = create_iter();
    symbols.seek(SymbolIndex(0x8));

    let symbol = symbols.next().expect("get symbol");
    let expected = Symbol::new(SymbolIndex(0x8), &[0x06, 0x00]); // S_END

    assert_eq!(symbol, Some(expected));
}

#[test]
fn test_skip_to() {
    let mut symbols = create_iter();
    let symbol = symbols.skip_to(SymbolIndex(0x8)).expect("get symbol");

    let expected = Symbol::new(SymbolIndex(0x8), &[0x06, 0x00]); // S_END

    assert_eq!(symbol, Some(expected));
}
