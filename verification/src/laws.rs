//! What holds of the two containment checks on every symbol table.

use vstd::prelude::*;
use crate::checks::exports_present;
use crate::checks::imports_satisfied;
use crate::checks::verdict;
use crate::symbol::exports;
use crate::symbol::imports;
use crate::symbol::SymbolView;

verus! {

/// The import check passes exactly when the set of imported names is
/// contained in the set of allowed names.
pub proof fn lemma_imports_satisfied_is_containment(
    symbols: Seq<SymbolView>,
    allowed: Seq<Seq<char>>,
)
    ensures
        imports_satisfied(symbols, allowed) <==> imports(symbols).subset_of(allowed.to_set()),
{
    if imports_satisfied(symbols, allowed) {
        assert forall|name: Seq<char>| imports(symbols).contains(name) implies allowed.to_set().contains(
            name,
        ) by {
            let i = choose|i: int|
                0 <= i < symbols.len() && symbols[i] == (SymbolView::Import { name });
            assert(symbols[i] matches SymbolView::Import { name: n } ==> allowed.contains(n));
        }
    }
    if imports(symbols).subset_of(allowed.to_set()) {
        assert forall|i: int| 0 <= i < symbols.len() implies (#[trigger] symbols[i] matches SymbolView::Import {
            name,
        } ==> allowed.contains(name)) by {
            if let SymbolView::Import { name } = symbols[i] {
                assert(symbols.contains(SymbolView::Import { name }));
                assert(imports(symbols).contains(name));
                assert(allowed.to_set().contains(name));
            }
        }
    }
}

/// The export check passes exactly when the set of required names is
/// contained in the set of exported names.
pub proof fn lemma_exports_present_is_containment(
    symbols: Seq<SymbolView>,
    required: Seq<Seq<char>>,
)
    ensures
        exports_present(symbols, required) <==> required.to_set().subset_of(exports(symbols)),
{
    if exports_present(symbols, required) {
        assert forall|name: Seq<char>| required.to_set().contains(name) implies exports(
            symbols,
        ).contains(name) by {
            let j = choose|j: int| 0 <= j < required.len() && required[j] == name;
            assert(symbols.contains(SymbolView::Export { name: required[j] }));
        }
    }
    if required.to_set().subset_of(exports(symbols)) {
        assert forall|j: int| 0 <= j < required.len() implies symbols.contains(
            SymbolView::Export { name: #[trigger] required[j] },
        ) by {
            assert(required.contains(required[j]));
            assert(required.to_set().contains(required[j]));
            assert(exports(symbols).contains(required[j]));
        }
    }
}

/// A module whose imports all occur in the allow-list passes the import
/// check, whatever else the allow-list holds.
pub proof fn lemma_supported_imports_pass(symbols: Seq<SymbolView>, allowed: Seq<Seq<char>>)
    requires
        imports(symbols).subset_of(allowed.to_set()),
    ensures
        imports_satisfied(symbols, allowed),
{
    lemma_imports_satisfied_is_containment(symbols, allowed);
}

/// A module that imports a name absent from the allow-list fails the import
/// check.
pub proof fn lemma_unsupported_import_fails(
    symbols: Seq<SymbolView>,
    allowed: Seq<Seq<char>>,
    name: Seq<char>,
)
    requires
        imports(symbols).contains(name),
        !allowed.contains(name),
    ensures
        !imports_satisfied(symbols, allowed),
{
    lemma_imports_satisfied_is_containment(symbols, allowed);
    assert(!allowed.to_set().contains(name));
}

/// A module that exports every required name passes the export check,
/// whatever else it exports.
pub proof fn lemma_required_exports_pass(symbols: Seq<SymbolView>, required: Seq<Seq<char>>)
    requires
        required.to_set().subset_of(exports(symbols)),
    ensures
        exports_present(symbols, required),
{
    lemma_exports_present_is_containment(symbols, required);
}

/// A module that lacks one of the required names fails the export check.
pub proof fn lemma_missing_export_fails(
    symbols: Seq<SymbolView>,
    required: Seq<Seq<char>>,
    name: Seq<char>,
)
    requires
        required.contains(name),
        !exports(symbols).contains(name),
    ensures
        !exports_present(symbols, required),
{
    lemma_exports_present_is_containment(symbols, required);
    assert(required.to_set().contains(name));
}

/// Where nothing is required, every module passes the export check.
pub proof fn lemma_nothing_required_passes(symbols: Seq<SymbolView>)
    ensures
        exports_present(symbols, Seq::<Seq<char>>::empty()),
{
}

/// Listing the same symbols in another order changes neither check nor the
/// verdict.
pub proof fn lemma_order_is_irrelevant(
    symbols: Seq<SymbolView>,
    permuted: Seq<SymbolView>,
    supported: Seq<Seq<char>>,
    required: Seq<Seq<char>>,
)
    requires
        symbols.to_multiset() == permuted.to_multiset(),
    ensures
        imports_satisfied(symbols, supported) == imports_satisfied(permuted, supported),
        exports_present(symbols, required) == exports_present(permuted, required),
        verdict(symbols, supported, required) == verdict(permuted, supported, required),
{
    symbols.to_multiset_ensures();
    permuted.to_multiset_ensures();
    assert forall|s: SymbolView| symbols.contains(s) == permuted.contains(s) by {
        assert(symbols.contains(s) <==> symbols.to_multiset().count(s) > 0);
        assert(permuted.contains(s) <==> permuted.to_multiset().count(s) > 0);
    }
    assert(imports(symbols) =~= imports(permuted));
    assert(exports(symbols) =~= exports(permuted));
    lemma_imports_satisfied_is_containment(symbols, supported);
    lemma_imports_satisfied_is_containment(permuted, supported);
    lemma_exports_present_is_containment(symbols, required);
    lemma_exports_present_is_containment(permuted, required);
}

} // verus!
