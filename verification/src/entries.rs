//! The extent of the entries that the sections of a module list.

use vstd::prelude::*;
use crate::code::flag;
use crate::code::past_body_code;
use crate::code::past_initializer;
use crate::code::past_plain_list;
use crate::code::past_unsigned;
use crate::code::past_value_type;
use crate::code::read_flag;
use crate::code::skip_body_code;
use crate::code::skip_initializer;
use crate::code::skip_plain_list;
use crate::code::skip_unsigned;
use crate::code::skip_value_type;
use crate::code::Plain;
use crate::leb::past_string;
use crate::leb::read_unsigned;
use crate::leb::skip_string;
use crate::leb::unsigned;
use crate::leb::MAX_LEN;

verus! {

/// What a section lists.
#[derive(Clone, Copy, Debug)]
pub enum Entry {
    /// The signature of a function.
    FuncType,
    /// Something the module takes from the host.
    Import,
    /// A table.
    Table,
    /// A memory.
    Memory,
    /// A global with its initial value.
    Global,
    /// Something the module offers to the host.
    Export,
    /// A run of table elements.
    Element,
    /// The locals and instructions of a function.
    Body,
    /// A run of initial memory contents.
    Data,
}

/// The position after the limits at `at`: a flag, a minimum and, where the
/// flag is set, a maximum.
pub open spec fn past_limits(bytes: Seq<u8>, at: int) -> Option<int> {
    match flag(bytes, at) {
        Some(bounded) => match past_unsigned(bytes, at + 1) {
            Some(next) => if bounded {
                past_unsigned(bytes, next)
            } else {
                Some(next)
            },
            None => None,
        },
        None => None,
    }
}

/// The position after the table type at `at`.
pub open spec fn past_table_type(bytes: Seq<u8>, at: int) -> Option<int> {
    if 0 <= at < bytes.len() && (bytes[at] == 0x70 || bytes[at] == 0xf0) {
        past_limits(bytes, at + 1)
    } else {
        None
    }
}

/// The position after the global type at `at`.
pub open spec fn past_global_type(bytes: Seq<u8>, at: int) -> Option<int> {
    match past_value_type(bytes, at) {
        Some(next) => if flag(bytes, next).is_some() {
            Some(next + 1)
        } else {
            None
        },
        None => None,
    }
}

/// The position after the description of an import that starts at `at`
/// with its kind.
pub open spec fn past_external(bytes: Seq<u8>, at: int) -> Option<int> {
    if at < 0 || at >= bytes.len() {
        None
    } else if bytes[at] == 0 {
        past_unsigned(bytes, at + 1)
    } else if bytes[at] == 1 {
        past_table_type(bytes, at + 1)
    } else if bytes[at] == 2 {
        past_limits(bytes, at + 1)
    } else if bytes[at] == 3 {
        past_global_type(bytes, at + 1)
    } else {
        None
    }
}

/// The position after the function signature at `at`.
pub open spec fn past_func_type(bytes: Seq<u8>, at: int) -> Option<int> {
    if at < 0 || at >= bytes.len() {
        None
    } else {
        match past_plain_list(Plain::ValueType, bytes, at + 1) {
            Some(next) => match flag(bytes, next) {
                Some(yields) => if yields {
                    past_value_type(bytes, next + 1)
                } else {
                    Some(next + 1)
                },
                None => None,
            },
            None => None,
        }
    }
}

/// The position after the import at `at`: two names and a description.
pub open spec fn past_import(bytes: Seq<u8>, at: int) -> Option<int> {
    match past_string(bytes, at) {
        Some(field) => match past_string(bytes, field) {
            Some(kind) => past_external(bytes, kind),
            None => None,
        },
        None => None,
    }
}

/// The position after the export at `at`: a name, a kind and an index.
pub open spec fn past_export(bytes: Seq<u8>, at: int) -> Option<int> {
    match past_string(bytes, at) {
        Some(kind) => if kind < bytes.len() && bytes[kind] <= 3 {
            past_unsigned(bytes, kind + 1)
        } else {
            None
        },
        None => None,
    }
}

/// The position after the global at `at`.
pub open spec fn past_global(bytes: Seq<u8>, at: int) -> Option<int> {
    match past_global_type(bytes, at) {
        Some(next) => past_initializer(bytes, next),
        None => None,
    }
}

/// The position after the element segment at `at`.
pub open spec fn past_element(bytes: Seq<u8>, at: int) -> Option<int> {
    match past_unsigned(bytes, at) {
        Some(offset) => match past_initializer(bytes, offset) {
            Some(members) => past_plain_list(Plain::Index, bytes, members),
            None => None,
        },
        None => None,
    }
}

/// The position after the function body at `at`.
pub open spec fn past_body(bytes: Seq<u8>, at: int) -> Option<int> {
    match past_unsigned(bytes, at) {
        Some(locals) => match past_plain_list(Plain::Local, bytes, locals) {
            Some(code) => past_body_code(bytes, code, 1),
            None => None,
        },
        None => None,
    }
}

/// The position after the data segment at `at`.
pub open spec fn past_data(bytes: Seq<u8>, at: int) -> Option<int> {
    match past_unsigned(bytes, at) {
        Some(offset) => match past_initializer(bytes, offset) {
            Some(contents) => past_string(bytes, contents),
            None => None,
        },
        None => None,
    }
}

/// The position after one entry of the given kind.
pub open spec fn past_entry(kind: Entry, bytes: Seq<u8>, at: int) -> Option<int> {
    match kind {
        Entry::FuncType => past_func_type(bytes, at),
        Entry::Import => past_import(bytes, at),
        Entry::Table => past_table_type(bytes, at),
        Entry::Memory => past_limits(bytes, at),
        Entry::Global => past_global(bytes, at),
        Entry::Export => past_export(bytes, at),
        Entry::Element => past_element(bytes, at),
        Entry::Body => past_body(bytes, at),
        Entry::Data => past_data(bytes, at),
    }
}

/// The position after `count` entries of the given kind.
pub open spec fn past_entries(kind: Entry, bytes: Seq<u8>, at: int, count: int) -> Option<int>
    decreases count,
{
    if count <= 0 {
        Some(at)
    } else {
        match past_entry(kind, bytes, at) {
            Some(next) => past_entries(kind, bytes, next, count - 1),
            None => None,
        }
    }
}

/// The position after a counted list of entries of the given kind.
pub open spec fn past_entry_list(kind: Entry, bytes: Seq<u8>, at: int) -> Option<int> {
    match unsigned(bytes, at) {
        Some((count, start)) => past_entries(kind, bytes, start, count),
        None => None,
    }
}

fn skip_limits(bytes: &[u8], at: usize) -> (end: Option<usize>)
    requires
        at <= bytes.len() <= MAX_LEN,
    ensures
        match end {
            Some(next) => past_limits(bytes@, at as int) == Some(next as int) && at < next
                <= bytes.len(),
            None => past_limits(bytes@, at as int).is_none(),
        },
{
    match read_flag(bytes, at) {
        Some(bounded) => match skip_unsigned(bytes, at + 1) {
            Some(next) => if bounded {
                skip_unsigned(bytes, next)
            } else {
                Some(next)
            },
            None => None,
        },
        None => None,
    }
}

fn skip_table_type(bytes: &[u8], at: usize) -> (end: Option<usize>)
    requires
        at <= bytes.len() <= MAX_LEN,
    ensures
        match end {
            Some(next) => past_table_type(bytes@, at as int) == Some(next as int) && at < next
                <= bytes.len(),
            None => past_table_type(bytes@, at as int).is_none(),
        },
{
    if at < bytes.len() && (bytes[at] == 0x70 || bytes[at] == 0xf0) {
        skip_limits(bytes, at + 1)
    } else {
        None
    }
}

fn skip_global_type(bytes: &[u8], at: usize) -> (end: Option<usize>)
    requires
        at <= bytes.len() <= MAX_LEN,
    ensures
        match end {
            Some(next) => past_global_type(bytes@, at as int) == Some(next as int) && at < next
                <= bytes.len(),
            None => past_global_type(bytes@, at as int).is_none(),
        },
{
    match skip_value_type(bytes, at) {
        Some(next) => if read_flag(bytes, next).is_some() {
            Some(next + 1)
        } else {
            None
        },
        None => None,
    }
}

fn skip_external(bytes: &[u8], at: usize) -> (end: Option<usize>)
    requires
        at <= bytes.len() <= MAX_LEN,
    ensures
        match end {
            Some(next) => past_external(bytes@, at as int) == Some(next as int) && at < next
                <= bytes.len(),
            None => past_external(bytes@, at as int).is_none(),
        },
{
    if at >= bytes.len() {
        None
    } else if bytes[at] == 0 {
        skip_unsigned(bytes, at + 1)
    } else if bytes[at] == 1 {
        skip_table_type(bytes, at + 1)
    } else if bytes[at] == 2 {
        skip_limits(bytes, at + 1)
    } else if bytes[at] == 3 {
        skip_global_type(bytes, at + 1)
    } else {
        None
    }
}

fn skip_func_type(bytes: &[u8], at: usize) -> (end: Option<usize>)
    requires
        at <= bytes.len() <= MAX_LEN,
    ensures
        match end {
            Some(next) => past_func_type(bytes@, at as int) == Some(next as int) && at < next
                <= bytes.len(),
            None => past_func_type(bytes@, at as int).is_none(),
        },
{
    if at >= bytes.len() {
        return None;
    }
    match skip_plain_list(Plain::ValueType, bytes, at + 1) {
        Some(next) => match read_flag(bytes, next) {
            Some(yields) => if yields {
                skip_value_type(bytes, next + 1)
            } else {
                Some(next + 1)
            },
            None => None,
        },
        None => None,
    }
}

fn skip_import(bytes: &[u8], at: usize) -> (end: Option<usize>)
    requires
        at <= bytes.len() <= MAX_LEN,
    ensures
        match end {
            Some(next) => past_import(bytes@, at as int) == Some(next as int) && at < next
                <= bytes.len(),
            None => past_import(bytes@, at as int).is_none(),
        },
{
    match skip_string(bytes, at) {
        Some(field) => match skip_string(bytes, field) {
            Some(kind) => skip_external(bytes, kind),
            None => None,
        },
        None => None,
    }
}

fn skip_export(bytes: &[u8], at: usize) -> (end: Option<usize>)
    requires
        at <= bytes.len() <= MAX_LEN,
    ensures
        match end {
            Some(next) => past_export(bytes@, at as int) == Some(next as int) && at < next
                <= bytes.len(),
            None => past_export(bytes@, at as int).is_none(),
        },
{
    match skip_string(bytes, at) {
        Some(kind) => if kind < bytes.len() && bytes[kind] <= 3 {
            skip_unsigned(bytes, kind + 1)
        } else {
            None
        },
        None => None,
    }
}

fn skip_global(bytes: &[u8], at: usize) -> (end: Option<usize>)
    requires
        at <= bytes.len() <= MAX_LEN,
    ensures
        match end {
            Some(next) => past_global(bytes@, at as int) == Some(next as int) && at < next
                <= bytes.len(),
            None => past_global(bytes@, at as int).is_none(),
        },
{
    match skip_global_type(bytes, at) {
        Some(next) => skip_initializer(bytes, next),
        None => None,
    }
}

fn skip_element(bytes: &[u8], at: usize) -> (end: Option<usize>)
    requires
        at <= bytes.len() <= MAX_LEN,
    ensures
        match end {
            Some(next) => past_element(bytes@, at as int) == Some(next as int) && at < next
                <= bytes.len(),
            None => past_element(bytes@, at as int).is_none(),
        },
{
    match skip_unsigned(bytes, at) {
        Some(offset) => match skip_initializer(bytes, offset) {
            Some(members) => skip_plain_list(Plain::Index, bytes, members),
            None => None,
        },
        None => None,
    }
}

fn skip_body(bytes: &[u8], at: usize) -> (end: Option<usize>)
    requires
        at <= bytes.len() <= MAX_LEN,
    ensures
        match end {
            Some(next) => past_body(bytes@, at as int) == Some(next as int) && at < next
                <= bytes.len(),
            None => past_body(bytes@, at as int).is_none(),
        },
{
    match skip_unsigned(bytes, at) {
        Some(locals) => match skip_plain_list(Plain::Local, bytes, locals) {
            Some(code) => skip_body_code(bytes, code),
            None => None,
        },
        None => None,
    }
}

fn skip_data(bytes: &[u8], at: usize) -> (end: Option<usize>)
    requires
        at <= bytes.len() <= MAX_LEN,
    ensures
        match end {
            Some(next) => past_data(bytes@, at as int) == Some(next as int) && at < next
                <= bytes.len(),
            None => past_data(bytes@, at as int).is_none(),
        },
{
    match skip_unsigned(bytes, at) {
        Some(offset) => match skip_initializer(bytes, offset) {
            Some(contents) => skip_string(bytes, contents),
            None => None,
        },
        None => None,
    }
}

/// Steps over one entry of the given kind.
pub fn skip_entry(kind: Entry, bytes: &[u8], at: usize) -> (end: Option<usize>)
    requires
        at <= bytes.len() <= MAX_LEN,
    ensures
        match end {
            Some(next) => past_entry(kind, bytes@, at as int) == Some(next as int) && at < next
                <= bytes.len(),
            None => past_entry(kind, bytes@, at as int).is_none(),
        },
{
    match kind {
        Entry::FuncType => skip_func_type(bytes, at),
        Entry::Import => skip_import(bytes, at),
        Entry::Table => skip_table_type(bytes, at),
        Entry::Memory => skip_limits(bytes, at),
        Entry::Global => skip_global(bytes, at),
        Entry::Export => skip_export(bytes, at),
        Entry::Element => skip_element(bytes, at),
        Entry::Body => skip_body(bytes, at),
        Entry::Data => skip_data(bytes, at),
    }
}

/// Steps over a counted list of entries of the given kind.
pub fn skip_entry_list(kind: Entry, bytes: &[u8], at: usize) -> (end: Option<usize>)
    requires
        at <= bytes.len() <= MAX_LEN,
    ensures
        match end {
            Some(next) => past_entry_list(kind, bytes@, at as int) == Some(next as int) && at
                < next <= bytes.len(),
            None => past_entry_list(kind, bytes@, at as int).is_none(),
        },
{
    match read_unsigned(bytes, at) {
        Some((count, start)) => {
            let mut here = start;
            let mut left = count;
            while left > 0
                invariant
                    start <= here <= bytes.len() <= MAX_LEN,
                    unsigned(bytes@, at as int) == Some((count as int, start as int)),
                    past_entries(kind, bytes@, start as int, count as int) == past_entries(
                        kind,
                        bytes@,
                        here as int,
                        left as int,
                    ),
                decreases left,
            {
                match skip_entry(kind, bytes, here) {
                    Some(next) => {
                        here = next;
                        left -= 1;
                    },
                    None => {
                        return None;
                    },
                }
            }
            Some(here)
        },
        None => None,
    }
}

} // verus!
