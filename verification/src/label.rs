//! Rendering language-server symbols as short Haskell fragments.
//!
//! For each symbol the labeler generates a minimal syntactically valid
//! piece of Haskell in which the symbol's name appears, so that the host's
//! syntax highlighting colors the name correctly in an outline panel. Two
//! sub-ranges accompany the generated text: a display range selecting what
//! the panel shows, and a filter range selecting the substring matched
//! against user-typed search queries. Both ranges are measured in
//! characters of the generated string.

use vstd::prelude::*;
use vstd::string::StrSliceExecFns;
use vstd::string::StringExecFns;

verus! {

/// The kinds of language-server symbols that the labeler distinguishes:
/// type-like, constructor-like, variable-like, and everything else.
#[derive(Clone, Copy, Debug, PartialEq, Eq, Structural)]
pub enum SymbolKind {
    Struct,
    Constructor,
    Variable,
    Other,
}

/// One symbol reported by the language server: its name and its kind.
pub struct Symbol {
    pub name: String,
    pub kind: SymbolKind,
}

/// A half-open range of character offsets into a generated label string.
#[derive(Clone, Copy, Debug, PartialEq, Eq, Structural)]
pub struct TextRange {
    pub start: usize,
    pub end: usize,
}

/// A labeled outline entry: the generated code fragment, the range of it
/// to display, and the range matched against search queries.
pub struct CodeLabel {
    pub code: String,
    pub display: TextRange,
    pub filter: TextRange,
}

impl CodeLabel {
    /// Both ranges are well-ordered and lie within the generated string.
    pub open spec fn wf(self) -> bool {
        &&& self.display.start <= self.display.end <= self.code@.len()
        &&& self.filter.start <= self.filter.end <= self.code@.len()
    }
}

/// Whether the labeler produces a label for this kind of symbol.
pub open spec fn has_label(kind: SymbolKind) -> bool {
    match kind {
        SymbolKind::Struct => true,
        SymbolKind::Constructor => true,
        SymbolKind::Variable => true,
        SymbolKind::Other => false,
    }
}

/// The label owed to a symbol of the given name and kind.
///
/// Type-like symbols render as a `data` declaration whose display range
/// covers the keyword and the name while the filter range covers the name
/// alone. Constructor-like symbols render as the constructor of a dummy
/// declaration; their filter range spans the name's characters but is
/// anchored at offset zero rather than at the name's position in the
/// string. Variable-like symbols render as a type signature with both
/// ranges covering the name.
pub open spec fn is_label_for(label: CodeLabel, name: Seq<char>, kind: SymbolKind) -> bool {
    match kind {
        SymbolKind::Struct => {
            &&& label.code@ == "data "@ + name + " = A"@
            &&& label.display.start == 0
            &&& label.display.end == 5 + name.len()
            &&& label.filter.start == 5
            &&& label.filter.end == 5 + name.len()
        },
        SymbolKind::Constructor => {
            &&& label.code@ == "data A = "@ + name
            &&& label.display.start == 9
            &&& label.display.end == 9 + name.len()
            &&& label.filter.start == 0
            &&& label.filter.end == name.len()
        },
        SymbolKind::Variable => {
            &&& label.code@ == name + " :: T"@
            &&& label.display.start == 0
            &&& label.display.end == name.len()
            &&& label.filter.start == 0
            &&& label.filter.end == name.len()
        },
        SymbolKind::Other => false,
    }
}

/// Every label owed to some symbol keeps its display and filter ranges
/// within the bounds of the generated string.
pub proof fn lemma_label_ranges_in_bounds(label: CodeLabel, name: Seq<char>, kind: SymbolKind)
    requires
        is_label_for(label, name, kind),
    ensures
        label.wf(),
{
    reveal_strlit("data ");
    reveal_strlit(" = A");
    reveal_strlit("data A = ");
    reveal_strlit(" :: T");
}

/// The filter range of every produced label, read as offsets into the
/// displayed part of the generated string, is exactly as long as the
/// symbol's name and selects exactly the name's characters. This holds for
/// all three labeled kinds, including the constructor-like one, whose
/// filter range is anchored at offset zero: there the displayed part opens
/// with the name itself.
pub proof fn lemma_filter_selects_name(label: CodeLabel, name: Seq<char>, kind: SymbolKind)
    requires
        is_label_for(label, name, kind),
    ensures
        label.filter.end - label.filter.start == name.len(),
        label.filter.end - label.filter.start <= label.display.end - label.display.start,
        label.code@.subrange(label.display.start as int, label.display.end as int).subrange(
            label.filter.start as int,
            label.filter.end as int,
        ) == name,
{
    reveal_strlit("data ");
    reveal_strlit(" = A");
    reveal_strlit("data A = ");
    reveal_strlit(" :: T");
    let shown = label.code@.subrange(label.display.start as int, label.display.end as int);
    match kind {
        SymbolKind::Struct => {
            assert(shown =~= "data "@ + name);
            assert(shown.subrange(5, 5 + name.len() as int) =~= name);
        },
        SymbolKind::Constructor => {
            assert(shown =~= name);
            assert(shown.subrange(0, name.len() as int) =~= name);
        },
        SymbolKind::Variable => {
            assert(shown =~= name);
            assert(shown.subrange(0, name.len() as int) =~= name);
        },
        SymbolKind::Other => {
        },
    }
}

/// Produce the label for a symbol, or no label for the kinds the labeler
/// does not special-case. Never fails: an unmatched kind is a normal
/// outcome, not an error.
pub fn label_for_symbol(symbol: &Symbol) -> (r: Option<CodeLabel>)
    ensures
        match r {
            Some(label) => has_label(symbol.kind) && is_label_for(label, symbol.name@, symbol.kind)
                && label.wf(),
            None => !has_label(symbol.kind),
        },
{
    match symbol.kind {
        SymbolKind::Struct => {
            let mut code = "data ".to_owned();
            code.append(symbol.name.as_str());
            code.append(" = A");
            let total = code.as_str().unicode_len();
            proof {
                reveal_strlit("data ");
                reveal_strlit(" = A");
            }
            let label = CodeLabel {
                code,
                display: TextRange { start: 0, end: total - 4 },
                filter: TextRange { start: 5, end: total - 4 },
            };
            Some(label)
        },
        SymbolKind::Constructor => {
            let mut code = "data A = ".to_owned();
            code.append(symbol.name.as_str());
            let total = code.as_str().unicode_len();
            proof {
                reveal_strlit("data A = ");
            }
            let label = CodeLabel {
                code,
                display: TextRange { start: 9, end: total },
                filter: TextRange { start: 0, end: total - 9 },
            };
            Some(label)
        },
        SymbolKind::Variable => {
            let mut code = symbol.name.clone();
            code.append(" :: T");
            let total = code.as_str().unicode_len();
            proof {
                reveal_strlit(" :: T");
            }
            let label = CodeLabel {
                code,
                display: TextRange { start: 0, end: total - 5 },
                filter: TextRange { start: 0, end: total - 5 },
            };
            Some(label)
        },
        SymbolKind::Other => None,
    }
}

} // verus!
