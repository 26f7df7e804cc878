//! The host's side of the agreement: what it offers and what it calls.

use vstd::prelude::*;

verus! {

/// The names of the functions the host offers to a module.
pub open spec fn supported_import_names() -> Seq<Seq<char>> {
    seq!["read_db"@, "write_db"@, "canonicalize_address"@, "humanize_address"@]
}

/// The names of the entry points the host calls in a module.
pub open spec fn required_export_names() -> Seq<Seq<char>> {
    seq!["query"@, "init"@, "handle"@, "allocate"@, "deallocate"@, "cosmwasm_api_0_6"@]
}

/// Every function the host provides when it instantiates a module.
pub fn supported_imports() -> (names: [&'static str; 4])
    ensures
        names.deep_view() == supported_import_names(),
{
    let names = ["read_db", "write_db", "canonicalize_address", "humanize_address"];
    assert(names.deep_view() =~= supported_import_names());
    names
}

/// Every entry point the host expects a module to have.
pub fn required_exports() -> (names: [&'static str; 6])
    ensures
        names.deep_view() == required_export_names(),
{
    let names = ["query", "init", "handle", "allocate", "deallocate", "cosmwasm_api_0_6"];
    assert(names.deep_view() =~= required_export_names());
    names
}

} // verus!
