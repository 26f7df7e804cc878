//! Reading the symbol table out of a module's bytes, and the admission check
//! on the bytes themselves.

use vstd::prelude::*;
use crate::checks::check_symbols;
use crate::checks::verdict;
use crate::error::CompatibilityError;
use crate::frame::is_well_framed;
use crate::frame::well_framed;
use crate::symbol::Symbol;
use crate::symbol::SymbolView;
use crate::tables::required_export_names;
use crate::tables::required_exports;
use crate::tables::supported_import_names;
use crate::tables::supported_imports;

verus! {

/// The error of the `failure` crate, in which `wasm_nm::symbols` reports a
/// module it cannot decode. Nothing is known of its contents.
#[verifier::external_type_specification]
#[verifier::external_body]
pub struct ExFailureError(failure::Error);

/// The imports and exports that `wasm_nm` lists for the module encoded in
/// `bytes`, in the order in which it lists them; `None` where it cannot decode
/// `bytes`.
pub uninterp spec fn module_symbols(bytes: Seq<u8>) -> Option<Seq<SymbolView>>;

/// Calls `wasm_nm::symbols` on `wasm_code`, asking for imports and exports
/// only, and copies each symbol that `Symbols::iter` yields, in order.
///
/// Trusted: on bytes that are [`well_framed`] the call returns; the outcome
/// depends on `wasm_code` alone, and it is an `Err` exactly where
/// `wasm_nm::symbols` gives one. What is listed is left to `wasm_nm`: imports
/// first, in the order of the import section; then, for each function body
/// in turn, the name under which it is exported, if any.
///
/// `wasm_nm` believes the lengths it reads. It takes an unsigned integer of
/// any number of bytes, subtracts a custom section's name from its declared
/// length unchecked, makes room for a string before it looks whether the
/// string is there, makes room for as many names as the first name map
/// announces, and cuts that map where the map says. On bytes that are well
/// framed none of these goes wrong: the walk reads a module as `wasm_nm`
/// does, and has found every such integer short, every such length within
/// the input, and the first name map readable as far as it goes.
#[verifier::external_body]
fn read_symbols(wasm_code: &[u8]) -> (listed: Result<Vec<Symbol>, failure::Error>)
    requires
        well_framed(wasm_code@),
    ensures
        match listed {
            Ok(symbols) => module_symbols(wasm_code@) == Some(symbols.deep_view()),
            Err(_) => module_symbols(wasm_code@).is_none(),
        },
{
    let options = wasm_nm::Options { imports: true, exports: true, privates: false, sizes: false };
    let mut reader = std::io::Cursor::new(wasm_code);
    let symbols = wasm_nm::symbols(options, &mut reader)?;
    Ok(
        symbols.iter().map(
            |symbol| match symbol {
                wasm_nm::Symbol::Import { name } => Symbol::Import { name: name.to_string() },
                wasm_nm::Symbol::Export { name, .. } => Symbol::Export { name: name.to_string() },
                wasm_nm::Symbol::Private { .. } => Symbol::Private,
            },
        ).collect(),
    )
}

/// What this library makes of `bytes`: the symbols that the extractor lists
/// for them, or `None` where they do not have the shape of a module or the
/// extractor turns them down.
pub open spec fn listing(bytes: Seq<u8>) -> Option<Seq<SymbolView>> {
    if well_framed(bytes) {
        module_symbols(bytes)
    } else {
        None
    }
}

/// Lists the imports and exports of the module encoded in `wasm_code`.
///
/// Bytes that do not have the shape of a module never reach the extractor;
/// they, and bytes that the extractor turns down, are reported as
/// [`CompatibilityError::Malformed`].
pub fn list_symbols(wasm_code: &[u8]) -> (listed: Result<Vec<Symbol>, CompatibilityError>)
    ensures
        match listing(wasm_code@) {
            Some(symbols) => listed.is_ok() && listed.unwrap().deep_view() == symbols,
            None => listed == Err::<Vec<Symbol>, _>(CompatibilityError::Malformed),
        },
{
    if !is_well_framed(wasm_code) {
        return Err(CompatibilityError::Malformed);
    }
    match read_symbols(wasm_code) {
        Ok(symbols) => Ok(symbols),
        Err(_) => Err(CompatibilityError::Malformed),
    }
}

/// The verdict of this host on what was listed for a module.
pub open spec fn api_verdict(listed: Option<Seq<SymbolView>>) -> Result<(), CompatibilityError> {
    match listed {
        Some(symbols) => verdict(symbols, supported_import_names(), required_export_names()),
        None => Err(CompatibilityError::Malformed),
    }
}

/// Decides whether the module encoded in `wasm_code` may be loaded by this host.
///
/// The module must import nothing beyond what the host offers and must export
/// every entry point the host calls. Only names are compared, imports first:
/// a module that fails on both counts is turned away for its imports.
///
/// Bytes that are no module are `Malformed`. Beyond its shape a module is
/// not validated.
pub fn check_api_compatibility(wasm_code: &[u8]) -> (outcome: Result<(), CompatibilityError>)
    ensures
        outcome == api_verdict(listing(wasm_code@)),
{
    match list_symbols(wasm_code) {
        Ok(symbols) => {
            let supported = supported_imports();
            let required = required_exports();
            check_symbols(symbols.as_slice(), supported.as_slice(), required.as_slice())
        },
        Err(_) => Err(CompatibilityError::Malformed),
    }
}

} // verus!
