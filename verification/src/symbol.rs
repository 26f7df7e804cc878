//! The symbols of a module, as far as the admission check reads them.

use vstd::prelude::*;

verus! {

/// One entry of a module's symbol table.
///
/// Only the kind of a symbol and, for imports and exports, its name matter to
/// the admission check. A function that is neither imported nor exported is
/// kept as `Private` and never looked at.
#[derive(Debug, PartialEq, Eq)]
pub enum Symbol {
    /// A symbol the module expects the host to provide.
    Import { name: String },
    /// A symbol the module offers to the host.
    Export { name: String },
    /// A function internal to the module.
    Private,
}

/// The mathematical value of a [`Symbol`]: its kind, and its name as a
/// sequence of characters.
pub enum SymbolView {
    Import { name: Seq<char> },
    Export { name: Seq<char> },
    Private,
}

impl View for Symbol {
    type V = SymbolView;

    open spec fn view(&self) -> SymbolView {
        match *self {
            Symbol::Import { name } => SymbolView::Import { name: name@ },
            Symbol::Export { name } => SymbolView::Export { name: name@ },
            Symbol::Private => SymbolView::Private,
        }
    }
}

impl DeepView for Symbol {
    type V = SymbolView;

    open spec fn deep_view(&self) -> SymbolView {
        self@
    }
}

impl Symbol {
    /// An import of `name`.
    pub fn import(name: &str) -> (symbol: Symbol)
        ensures
            symbol@ == (SymbolView::Import { name: name@ }),
    {
        Symbol::Import { name: name.to_owned() }
    }

    /// An export of `name`.
    pub fn export(name: &str) -> (symbol: Symbol)
        ensures
            symbol@ == (SymbolView::Export { name: name@ }),
    {
        Symbol::Export { name: name.to_owned() }
    }

    /// The name under which the module imports this symbol, if it is an import.
    pub fn import_name(&self) -> (name: Option<&str>)
        ensures
            match self@ {
                SymbolView::Import { name: n } => name.is_some() && name.unwrap()@ == n,
                _ => name.is_none(),
            },
    {
        match self {
            Symbol::Import { name } => Some(name.as_str()),
            _ => None,
        }
    }

    /// The name under which the module exports this symbol, if it is an export.
    pub fn export_name(&self) -> (name: Option<&str>)
        ensures
            match self@ {
                SymbolView::Export { name: n } => name.is_some() && name.unwrap()@ == n,
                _ => name.is_none(),
            },
    {
        match self {
            Symbol::Export { name } => Some(name.as_str()),
            _ => None,
        }
    }
}

/// The names that `symbols` imports.
pub open spec fn imports(symbols: Seq<SymbolView>) -> Set<Seq<char>> {
    Set::new(|name: Seq<char>| symbols.contains(SymbolView::Import { name }))
}

/// The names that `symbols` exports.
pub open spec fn exports(symbols: Seq<SymbolView>) -> Set<Seq<char>> {
    Set::new(|name: Seq<char>| symbols.contains(SymbolView::Export { name }))
}

} // verus!
