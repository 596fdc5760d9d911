use haskell_extension::label::{label_for_symbol, CodeLabel, Symbol, SymbolKind};

fn label(name: &str, kind: SymbolKind) -> Option<CodeLabel> {
    label_for_symbol(&Symbol { name: name.to_string(), kind })
}

fn unwrap_label(name: &str, kind: SymbolKind) -> CodeLabel {
    label(name, kind).expect("this symbol kind should produce a label")
}

#[test]
fn type_like_symbol_renders_as_data_declaration() {
    let l = unwrap_label("Maybe", SymbolKind::Struct);
    assert_eq!(l.code, "data Maybe = A");
    assert_eq!((l.display.start, l.display.end), (0, 10));
    assert_eq!((l.filter.start, l.filter.end), (5, 10));
}

#[test]
fn constructor_like_symbol_renders_as_constructor() {
    let l = unwrap_label("Just", SymbolKind::Constructor);
    assert_eq!(l.code, "data A = Just");
    assert_eq!((l.display.start, l.display.end), (9, 13));
    assert_eq!((l.filter.start, l.filter.end), (0, 4));
}

#[test]
fn variable_like_symbol_renders_as_type_signature() {
    let l = unwrap_label("fmap", SymbolKind::Variable);
    assert_eq!(l.code, "fmap :: T");
    assert_eq!((l.display.start, l.display.end), (0, 4));
    assert_eq!((l.filter.start, l.filter.end), (0, 4));
}

#[test]
fn other_kinds_get_no_label() {
    assert!(label("whatever", SymbolKind::Other).is_none());
}

#[test]
fn empty_name_still_labels_within_bounds() {
    let l = unwrap_label("", SymbolKind::Struct);
    assert_eq!(l.code, "data  = A");
    assert_eq!((l.display.start, l.display.end), (0, 5));
    assert_eq!((l.filter.start, l.filter.end), (5, 5));

    let l = unwrap_label("", SymbolKind::Constructor);
    assert_eq!(l.code, "data A = ");
    assert_eq!((l.display.start, l.display.end), (9, 9));
    assert_eq!((l.filter.start, l.filter.end), (0, 0));

    let l = unwrap_label("", SymbolKind::Variable);
    assert_eq!(l.code, " :: T");
    assert_eq!((l.display.start, l.display.end), (0, 0));
    assert_eq!((l.filter.start, l.filter.end), (0, 0));
}

// Ranges are measured in characters of the generated string, so a
// non-ASCII name spans as many range units as it has characters.
#[test]
fn ranges_count_characters_not_bytes() {
    let l = unwrap_label("häng", SymbolKind::Variable);
    assert_eq!(l.code, "häng :: T");
    assert_eq!((l.display.start, l.display.end), (0, 4));
    assert_eq!((l.filter.start, l.filter.end), (0, 4));
}

// The filter range, read as offsets into the displayed part of the
// generated string, selects exactly the name's characters for every
// labeled kind.
#[test]
fn filter_range_selects_the_name_within_the_displayed_text() {
    for (kind, name) in [
        (SymbolKind::Struct, "Tree"),
        (SymbolKind::Constructor, "Leaf"),
        (SymbolKind::Variable, "foldr"),
    ] {
        let l = unwrap_label(name, kind);
        let chars: Vec<char> = l.code.chars().collect();
        let shown = &chars[l.display.start..l.display.end];
        let filtered: String = shown[l.filter.start..l.filter.end].iter().collect();
        assert_eq!(filtered, name);
        // For the kinds whose filter range is not anchored at offset zero,
        // the same offsets select the name within the whole string too.
        if kind != SymbolKind::Constructor {
            let from_code: String = chars[l.filter.start..l.filter.end].iter().collect();
            assert_eq!(from_code, name);
        }
    }
}

#[test]
fn ranges_lie_within_the_generated_string() {
    for kind in [SymbolKind::Struct, SymbolKind::Constructor, SymbolKind::Variable] {
        for name in ["", "x", "Maybe", "veryLongHaskellName"] {
            let l = unwrap_label(name, kind);
            let len = l.code.chars().count();
            assert!(l.display.start <= l.display.end && l.display.end <= len);
            assert!(l.filter.start <= l.filter.end && l.filter.end <= len);
        }
    }
}
