//! The extent of instructions and of the short lists inside them.

use vstd::prelude::*;
use crate::leb::past_bytes;
use crate::leb::past_integer;
use crate::leb::read_unsigned;
use crate::leb::skip_bytes;
use crate::leb::skip_integer;
use crate::leb::unsigned;
use crate::leb::MAX_LEN;

verus! {

/// What a list without inner structure is made of.
#[derive(Clone, Copy, Debug)]
pub enum Plain {
    /// An unsigned integer.
    Index,
    /// The type of a value.
    ValueType,
    /// A run of locals: how many, and of which type.
    Local,
}

/// The four types a value can have. The top bit of the byte is not read.
pub open spec fn is_value_type(byte: u8) -> bool {
    0x7c <= byte <= 0x7f || 0xfc <= byte
}

/// The position after the value type at `at`.
pub open spec fn past_value_type(bytes: Seq<u8>, at: int) -> Option<int> {
    if 0 <= at < bytes.len() && is_value_type(bytes[at]) {
        Some(at + 1)
    } else {
        None
    }
}

/// The flag at `at`: a byte that is 0 or 1.
pub open spec fn flag(bytes: Seq<u8>, at: int) -> Option<bool> {
    if 0 <= at < bytes.len() && bytes[at] <= 1 {
        Some(bytes[at] == 1)
    } else {
        None
    }
}

/// The position after the unsigned integer at `at`.
pub open spec fn past_unsigned(bytes: Seq<u8>, at: int) -> Option<int> {
    match unsigned(bytes, at) {
        Some((_, next)) => Some(next),
        None => None,
    }
}

/// The position after one item of the given kind.
pub open spec fn past_plain(kind: Plain, bytes: Seq<u8>, at: int) -> Option<int> {
    match kind {
        Plain::Index => past_unsigned(bytes, at),
        Plain::ValueType => past_value_type(bytes, at),
        Plain::Local => match past_unsigned(bytes, at) {
            Some(next) => past_value_type(bytes, next),
            None => None,
        },
    }
}

/// The position after `count` items of the given kind.
pub open spec fn past_plains(kind: Plain, bytes: Seq<u8>, at: int, count: int) -> Option<int>
    decreases count,
{
    if count <= 0 {
        Some(at)
    } else {
        match past_plain(kind, bytes, at) {
            Some(next) => past_plains(kind, bytes, next, count - 1),
            None => None,
        }
    }
}

/// The position after a counted list of items of the given kind.
pub open spec fn past_plain_list(kind: Plain, bytes: Seq<u8>, at: int) -> Option<int> {
    match unsigned(bytes, at) {
        Some((count, start)) => past_plains(kind, bytes, start, count),
        None => None,
    }
}

/// Instructions that stand alone.
pub open spec fn is_bare(op: u8) -> bool {
    op == 0x00 || op == 0x01 || op == 0x05 || op == 0x0b || op == 0x0f || op == 0x1a || op == 0x1b
        || 0x45 <= op <= 0xbf
}

/// Instructions that open a block, followed by the block's type.
pub open spec fn opens_block(op: u8) -> bool {
    0x02 <= op <= 0x04
}

/// Instructions followed by one unsigned integer.
pub open spec fn takes_index(op: u8) -> bool {
    op == 0x0c || op == 0x0d || op == 0x10 || 0x20 <= op <= 0x24
}

/// Loads and stores, followed by an alignment and an offset.
pub open spec fn takes_memory_argument(op: u8) -> bool {
    0x28 <= op <= 0x3e
}

/// What may follow an instruction that opens a block.
pub open spec fn is_block_type(byte: u8) -> bool {
    byte == 0x40 || byte == 0xc0 || is_value_type(byte)
}

/// The position after the instruction at `at`, operands included.
pub open spec fn past_opcode(bytes: Seq<u8>, at: int) -> Option<int> {
    if at < 0 || at >= bytes.len() {
        None
    } else {
        let op = bytes[at];
        let operand = at + 1;
        if is_bare(op) {
            Some(operand)
        } else if opens_block(op) {
            if operand < bytes.len() && is_block_type(bytes[operand]) {
                Some(operand + 1)
            } else {
                None
            }
        } else if takes_index(op) {
            past_unsigned(bytes, operand)
        } else if op == 0x0e {
            match past_plain_list(Plain::Index, bytes, operand) {
                Some(next) => past_unsigned(bytes, next),
                None => None,
            }
        } else if op == 0x11 {
            match past_unsigned(bytes, operand) {
                Some(next) => if flag(bytes, next).is_some() {
                    Some(next + 1)
                } else {
                    None
                },
                None => None,
            }
        } else if takes_memory_argument(op) {
            match past_unsigned(bytes, operand) {
                Some(next) => past_unsigned(bytes, next),
                None => None,
            }
        } else if op == 0x3f || op == 0x40 {
            if flag(bytes, operand).is_some() {
                Some(operand + 1)
            } else {
                None
            }
        } else if op == 0x41 {
            past_integer(bytes, operand, 5)
        } else if op == 0x42 {
            past_integer(bytes, operand, 10)
        } else if op == 0x43 {
            past_bytes(bytes, operand, 4)
        } else if op == 0x44 {
            past_bytes(bytes, operand, 8)
        } else {
            None
        }
    }
}

/// The position after the instructions from `at` up to the first `end`.
pub open spec fn past_initializer(bytes: Seq<u8>, at: int) -> Option<int>
    decreases bytes.len() - at,
{
    match past_opcode(bytes, at) {
        Some(next) => if next <= at || next > bytes.len() {
            None
        } else if bytes[at] == 0x0b {
            Some(next)
        } else {
            past_initializer(bytes, next)
        },
        None => None,
    }
}

/// The position after the instructions from `at` up to the `end` that closes
/// the outermost of `depth` open blocks.
pub open spec fn past_body_code(bytes: Seq<u8>, at: int, depth: int) -> Option<int>
    decreases bytes.len() - at,
{
    match past_opcode(bytes, at) {
        Some(next) => if next <= at || next > bytes.len() {
            None
        } else if bytes[at] == 0x0b {
            if depth <= 1 {
                Some(next)
            } else {
                past_body_code(bytes, next, depth - 1)
            }
        } else if opens_block(bytes[at]) {
            past_body_code(bytes, next, depth + 1)
        } else {
            past_body_code(bytes, next, depth)
        },
        None => None,
    }
}

/// Steps over the value type at `at`.
pub fn skip_value_type(bytes: &[u8], at: usize) -> (end: Option<usize>)
    requires
        at <= bytes.len() <= MAX_LEN,
    ensures
        match end {
            Some(next) => past_value_type(bytes@, at as int) == Some(next as int) && at < next
                <= bytes.len(),
            None => past_value_type(bytes@, at as int).is_none(),
        },
{
    if at < bytes.len() && ((0x7c <= bytes[at] && bytes[at] <= 0x7f) || 0xfc <= bytes[at]) {
        Some(at + 1)
    } else {
        None
    }
}

/// Reads the flag at `at`.
pub fn read_flag(bytes: &[u8], at: usize) -> (read: Option<bool>)
    requires
        at <= bytes.len() <= MAX_LEN,
    ensures
        read == flag(bytes@, at as int),
        read.is_some() ==> at < bytes.len(),
{
    if at < bytes.len() && bytes[at] <= 1 {
        Some(bytes[at] == 1)
    } else {
        None
    }
}

/// Steps over the unsigned integer at `at`.
pub fn skip_unsigned(bytes: &[u8], at: usize) -> (end: Option<usize>)
    requires
        at <= bytes.len() <= MAX_LEN,
    ensures
        match end {
            Some(next) => past_unsigned(bytes@, at as int) == Some(next as int) && at < next
                <= bytes.len(),
            None => past_unsigned(bytes@, at as int).is_none(),
        },
{
    match read_unsigned(bytes, at) {
        Some((_, next)) => Some(next),
        None => None,
    }
}

/// Steps over one item of the given kind.
pub fn skip_plain(kind: Plain, bytes: &[u8], at: usize) -> (end: Option<usize>)
    requires
        at <= bytes.len() <= MAX_LEN,
    ensures
        match end {
            Some(next) => past_plain(kind, bytes@, at as int) == Some(next as int) && at < next
                <= bytes.len(),
            None => past_plain(kind, bytes@, at as int).is_none(),
        },
{
    match kind {
        Plain::Index => skip_unsigned(bytes, at),
        Plain::ValueType => skip_value_type(bytes, at),
        Plain::Local => match skip_unsigned(bytes, at) {
            Some(next) => skip_value_type(bytes, next),
            None => None,
        },
    }
}

/// Steps over `count` items of the given kind.
pub fn skip_plains(kind: Plain, bytes: &[u8], at: usize, count: u64) -> (end: Option<usize>)
    requires
        at <= bytes.len() <= MAX_LEN,
    ensures
        match end {
            Some(next) => past_plains(kind, bytes@, at as int, count as int) == Some(next as int)
                && at <= next <= bytes.len(),
            None => past_plains(kind, bytes@, at as int, count as int).is_none(),
        },
{
    let mut here = at;
    let mut left = count;
    while left > 0
        invariant
            at <= here <= bytes.len() <= MAX_LEN,
            past_plains(kind, bytes@, at as int, count as int) == past_plains(
                kind,
                bytes@,
                here as int,
                left as int,
            ),
        decreases left,
    {
        match skip_plain(kind, bytes, here) {
            Some(next) => {
                here = next;
                left -= 1;
            },
            None => {
                return None;
            },
        }
    }
    Some(here)
}

/// Steps over a counted list of items of the given kind.
pub fn skip_plain_list(kind: Plain, bytes: &[u8], at: usize) -> (end: Option<usize>)
    requires
        at <= bytes.len() <= MAX_LEN,
    ensures
        match end {
            Some(next) => past_plain_list(kind, bytes@, at as int) == Some(next as int) && at
                < next <= bytes.len(),
            None => past_plain_list(kind, bytes@, at as int).is_none(),
        },
{
    match read_unsigned(bytes, at) {
        Some((count, start)) => skip_plains(kind, bytes, start, count),
        None => None,
    }
}

/// Steps over the instruction at `at`, operands included.
pub fn skip_opcode(bytes: &[u8], at: usize) -> (end: Option<usize>)
    requires
        at <= bytes.len() <= MAX_LEN,
    ensures
        match end {
            Some(next) => past_opcode(bytes@, at as int) == Some(next as int) && at < next
                <= bytes.len(),
            None => past_opcode(bytes@, at as int).is_none(),
        },
{
    if at >= bytes.len() {
        return None;
    }
    let op = bytes[at];
    let operand = at + 1;
    if op == 0x00 || op == 0x01 || op == 0x05 || op == 0x0b || op == 0x0f || op == 0x1a || op
        == 0x1b || (0x45 <= op && op <= 0xbf) {
        Some(operand)
    } else if 0x02 <= op && op <= 0x04 {
        if operand < bytes.len() && (bytes[operand] == 0x40 || bytes[operand] == 0xc0 || (0x7c
            <= bytes[operand] && bytes[operand] <= 0x7f) || 0xfc <= bytes[operand]) {
            Some(operand + 1)
        } else {
            None
        }
    } else if op == 0x0c || op == 0x0d || op == 0x10 || (0x20 <= op && op <= 0x24) {
        skip_unsigned(bytes, operand)
    } else if op == 0x0e {
        match skip_plain_list(Plain::Index, bytes, operand) {
            Some(next) => skip_unsigned(bytes, next),
            None => None,
        }
    } else if op == 0x11 {
        match skip_unsigned(bytes, operand) {
            Some(next) => if read_flag(bytes, next).is_some() {
                Some(next + 1)
            } else {
                None
            },
            None => None,
        }
    } else if 0x28 <= op && op <= 0x3e {
        match skip_unsigned(bytes, operand) {
            Some(next) => skip_unsigned(bytes, next),
            None => None,
        }
    } else if op == 0x3f || op == 0x40 {
        if read_flag(bytes, operand).is_some() {
            Some(operand + 1)
        } else {
            None
        }
    } else if op == 0x41 {
        skip_integer(bytes, operand, 5)
    } else if op == 0x42 {
        skip_integer(bytes, operand, 10)
    } else if op == 0x43 {
        skip_bytes(bytes, operand, 4)
    } else if op == 0x44 {
        skip_bytes(bytes, operand, 8)
    } else {
        None
    }
}

/// Steps over the instructions from `at` up to the first `end`.
pub fn skip_initializer(bytes: &[u8], at: usize) -> (end: Option<usize>)
    requires
        at <= bytes.len() <= MAX_LEN,
    ensures
        match end {
            Some(next) => past_initializer(bytes@, at as int) == Some(next as int) && at < next
                <= bytes.len(),
            None => past_initializer(bytes@, at as int).is_none(),
        },
{
    let mut here = at;
    loop
        invariant
            at <= here <= bytes.len() <= MAX_LEN,
            past_initializer(bytes@, at as int) == past_initializer(bytes@, here as int),
        decreases bytes.len() - here,
    {
        match skip_opcode(bytes, here) {
            Some(next) => {
                if bytes[here] == 0x0b {
                    return Some(next);
                }
                here = next;
            },
            None => {
                return None;
            },
        }
    }
}

/// Steps over the instructions of a function body that starts at `at`.
pub fn skip_body_code(bytes: &[u8], at: usize) -> (end: Option<usize>)
    requires
        at <= bytes.len() <= MAX_LEN,
    ensures
        match end {
            Some(next) => past_body_code(bytes@, at as int, 1) == Some(next as int) && at < next
                <= bytes.len(),
            None => past_body_code(bytes@, at as int, 1).is_none(),
        },
{
    let mut here = at;
    let mut depth: usize = 1;
    loop
        invariant
            at <= here <= bytes.len() <= MAX_LEN,
            1 <= depth <= here - at + 1,
            past_body_code(bytes@, at as int, 1) == past_body_code(
                bytes@,
                here as int,
                depth as int,
            ),
        decreases bytes.len() - here,
    {
        match skip_opcode(bytes, here) {
            Some(next) => {
                let op = bytes[here];
                if op == 0x0b {
                    if depth == 1 {
                        return Some(next);
                    }
                    depth -= 1;
                } else if 0x02 <= op && op <= 0x04 {
                    depth += 1;
                }
                here = next;
            },
            None => {
                return None;
            },
        }
    }
}

} // verus!
