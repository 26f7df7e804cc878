//! Why a module was turned away.

use vstd::prelude::*;

verus! {

/// Shown when a module imports a symbol the host does not offer.
pub const EXTRA_IMPORT_MSG: &'static str = "WASM requires unsupported imports - version too new?";

/// Shown when a module lacks an entry point the host calls.
pub const MISSING_EXPORT_MSG: &'static str =
    "WASM doesn't have required exports - version too old?";

/// Shown when the bytes could not be read as a module at all.
pub const MALFORMED_MSG: &'static str = "WASM could not be parsed";

/// The reason a module is not admitted.
///
/// A rejection names the kind of violation only, never the offending symbol.
#[derive(Debug, Clone, Copy, PartialEq, Eq, Structural)]
pub enum CompatibilityError {
    /// The bytes are not a module the symbol extractor can read.
    Malformed,
    /// The module depends on a symbol the host does not provide.
    UnsupportedImports,
    /// The module does not provide a symbol the host depends on.
    MissingExports,
}

impl CompatibilityError {
    /// The text of the message for this kind of rejection.
    pub open spec fn message(self) -> Seq<char> {
        match self {
            CompatibilityError::Malformed => MALFORMED_MSG@,
            CompatibilityError::UnsupportedImports => EXTRA_IMPORT_MSG@,
            CompatibilityError::MissingExports => MISSING_EXPORT_MSG@,
        }
    }

    /// The fixed, human-readable message for this kind of rejection.
    pub fn msg(&self) -> (text: &'static str)
        ensures
            text@ == self.message(),
    {
        match self {
            CompatibilityError::Malformed => MALFORMED_MSG,
            CompatibilityError::UnsupportedImports => EXTRA_IMPORT_MSG,
            CompatibilityError::MissingExports => MISSING_EXPORT_MSG,
        }
    }
}

} // verus!
