//! The two containment checks and the verdict built from them.

use vstd::prelude::*;
use crate::error::CompatibilityError;
use crate::names::contains_name;
use crate::names::same_name;
use crate::symbol::Symbol;
use crate::symbol::SymbolView;

verus! {

/// Every name that `symbols` imports occurs in `allowed`.
pub open spec fn imports_satisfied(symbols: Seq<SymbolView>, allowed: Seq<Seq<char>>) -> bool {
    forall|i: int|
        0 <= i < symbols.len() ==> (#[trigger] symbols[i] matches SymbolView::Import { name }
            ==> allowed.contains(name))
}

/// Every name in `required` is exported by `symbols`.
pub open spec fn exports_present(symbols: Seq<SymbolView>, required: Seq<Seq<char>>) -> bool {
    forall|j: int|
        0 <= j < required.len() ==> symbols.contains(
            SymbolView::Export { name: #[trigger] required[j] },
        )
}

/// Checks that the module asks the host for nothing beyond `supported_imports`.
///
/// Names are compared exactly; order and repetition on either side play no part.
pub fn import_requirements_satisfied(symbols: &[Symbol], supported_imports: &[&str]) -> (ok: bool)
    ensures
        ok == imports_satisfied(symbols.deep_view(), supported_imports.deep_view()),
{
    let mut i: usize = 0;
    while i < symbols.len()
        invariant
            i <= symbols.len(),
            forall|k: int|
                0 <= k < i ==> (#[trigger] symbols.deep_view()[k] matches SymbolView::Import {
                    name,
                } ==> supported_imports.deep_view().contains(name)),
        decreases symbols.len() - i,
    {
        if let Some(name) = symbols[i].import_name() {
            if !contains_name(supported_imports, name) {
                assert(symbols.deep_view()[i as int] == (SymbolView::Import { name: name@ }));
                return false;
            }
        }
        assert(symbols.deep_view()[i as int] == symbols[i as int]@);
        i += 1;
    }
    true
}

/// Whether `symbols` exports `name`.
pub fn exports_name(symbols: &[Symbol], name: &str) -> (found: bool)
    ensures
        found == symbols.deep_view().contains(SymbolView::Export { name: name@ }),
{
    let mut i: usize = 0;
    while i < symbols.len()
        invariant
            i <= symbols.len(),
            forall|k: int|
                0 <= k < i ==> symbols.deep_view()[k] != (SymbolView::Export { name: name@ }),
        decreases symbols.len() - i,
    {
        if let Some(exported) = symbols[i].export_name() {
            if same_name(exported, name) {
                assert(symbols.deep_view()[i as int] == (SymbolView::Export { name: name@ }));
                return true;
            }
        }
        assert(symbols.deep_view()[i as int] == symbols[i as int]@);
        i += 1;
    }
    false
}

/// Checks that the module exports every name in `required`.
///
/// Exports beyond `required` are ignored.
pub fn has_all_exports(symbols: &[Symbol], required: &[&str]) -> (ok: bool)
    ensures
        ok == exports_present(symbols.deep_view(), required.deep_view()),
{
    let mut j: usize = 0;
    while j < required.len()
        invariant
            j <= required.len(),
            forall|k: int|
                0 <= k < j ==> symbols.deep_view().contains(
                    SymbolView::Export { name: #[trigger] required.deep_view()[k] },
                ),
        decreases required.len() - j,
    {
        assert(required.deep_view()[j as int] == required[j as int]@);
        if !exports_name(symbols, required[j]) {
            return false;
        }
        j += 1;
    }
    true
}

/// The verdict on a symbol table: the import check is made first, and a
/// table that fails both checks is reported for its imports only.
pub open spec fn verdict(
    symbols: Seq<SymbolView>,
    supported: Seq<Seq<char>>,
    required: Seq<Seq<char>>,
) -> Result<(), CompatibilityError> {
    if !imports_satisfied(symbols, supported) {
        Err(CompatibilityError::UnsupportedImports)
    } else if !exports_present(symbols, required) {
        Err(CompatibilityError::MissingExports)
    } else {
        Ok(())
    }
}

/// Decides whether a module with the given symbol table may be loaded by a
/// host that offers `supported_imports` and calls `required_exports`.
pub fn check_symbols(
    symbols: &[Symbol],
    supported_imports: &[&str],
    required_exports: &[&str],
) -> (outcome: Result<(), CompatibilityError>)
    ensures
        outcome == verdict(
            symbols.deep_view(),
            supported_imports.deep_view(),
            required_exports.deep_view(),
        ),
{
    if !import_requirements_satisfied(symbols, supported_imports) {
        return Err(CompatibilityError::UnsupportedImports);
    }
    if !has_all_exports(symbols, required_exports) {
        return Err(CompatibilityError::MissingExports);
    }
    Ok(())
}

} // verus!
