//! Whether the symbol extractor can be trusted with a byte string.
//!
//! The walk follows the contents of each section, not the length written in
//! front of it: that is how the extractor reads a module, and only a walk
//! that reads as it does can tell where it will look for a length. It turns
//! away what the extractor would not come back from, and what the extractor
//! would itself refuse. Whatever the extractor lists symbols for passes, up
//! to two limits: the length of the input, and the number of names that a
//! name map may announce, which is held to the length of the input.

use vstd::prelude::*;
use vstd::slice::slice_subrange;
use crate::code::past_plain_list;
use crate::code::past_unsigned;
use crate::code::skip_plain_list;
use crate::code::skip_unsigned;
use crate::code::Plain;
use crate::entries::past_entry_list;
use crate::entries::skip_entry_list;
use crate::entries::Entry;
use crate::leb::is_overlong;
use crate::leb::overlong;
use crate::leb::past_bytes;
use crate::leb::past_string;
use crate::leb::read_unsigned;
use crate::leb::skip_bytes;
use crate::leb::skip_string;
use crate::leb::unsigned;
use crate::leb::MAX_LEN;

verus! {

/// The name of the custom section that names the module's functions.
pub open spec fn name_section_name() -> Seq<u8> {
    seq![0x6eu8, 0x61u8, 0x6du8, 0x65u8]
}

/// Reading `count` pairs of an index and a name from `names`, from `at` on,
/// never meets an integer of six bytes nor a name that runs beyond `names`.
/// Where `names` ends early the reading stops, and that is safe.
pub open spec fn names_fit(names: Seq<u8>, at: int, count: int) -> bool
    decreases count,
{
    if count <= 0 {
        true
    } else {
        match unsigned(names, at) {
            Some((_, name)) => match unsigned(names, name) {
                Some((length, start)) => match past_bytes(names, start, length) {
                    Some(next) => names_fit(names, next, count - 1),
                    None => false,
                },
                None => !overlong(names, name),
            },
            None => !overlong(names, at),
        }
    }
}

/// `names`, a subsection of function names, can be read: its count is at
/// most `most`, and its pairs fit as far as they go.
pub open spec fn function_names_safe(names: Seq<u8>, most: int) -> bool {
    match unsigned(names, 0) {
        Some((count, start)) => count <= most && names_fit(names, start, count),
        None => !overlong(names, 0),
    }
}

/// `payload`, the contents of a `name` section, can be read from `at` on:
/// each subsection up to the first of function names lies within `payload`,
/// and that one can be read. Nothing after it is looked at, and where
/// `payload` ends early the reading stops.
pub open spec fn name_map_safe(payload: Seq<u8>, at: int, most: int) -> bool
    decreases payload.len() - at,
{
    if at < 0 || at >= payload.len() {
        true
    } else {
        match unsigned(payload, at + 1) {
            Some((size, start)) => match past_bytes(payload, start, size) {
                Some(end) => if payload[at] == 1 {
                    function_names_safe(payload.subrange(start, end), most)
                } else if end <= at || end > payload.len() {
                    false
                } else {
                    name_map_safe(payload, end, most)
                },
                None => false,
            },
            None => !overlong(payload, at + 1),
        }
    }
}

/// Where the name and the payload of a custom section lie, whose declared
/// length stands at `at`: the start of the name, the start of the payload
/// and its end.
///
/// `None` unless the name lies within the input, the declared length covers
/// the name, and the rest of it lies within the input.
pub open spec fn custom_frame(bytes: Seq<u8>, at: int) -> Option<(int, int, int)> {
    match unsigned(bytes, at) {
        Some((declared, name_at)) => match unsigned(bytes, name_at) {
            Some((name_len, name_start)) => match past_bytes(bytes, name_start, name_len) {
                Some(payload_start) => {
                    let overhead = name_len + name_len / 128 + 1;
                    if declared < overhead {
                        None
                    } else {
                        match past_bytes(bytes, payload_start, declared - overhead) {
                            Some(payload_end) => Some((name_start, payload_start, payload_end)),
                            None => None,
                        }
                    }
                },
                None => None,
            },
            None => None,
        },
        None => None,
    }
}

/// The position after the custom section whose declared length stands at
/// `at`.
pub open spec fn past_custom(bytes: Seq<u8>, at: int) -> Option<int> {
    match custom_frame(bytes, at) {
        Some((_, _, payload_end)) => Some(payload_end),
        None => None,
    }
}

/// The section that starts at `at` is a custom section called `name`.
pub open spec fn is_name_section(bytes: Seq<u8>, at: int) -> bool {
    0 <= at < bytes.len() && bytes[at] == 0 && match custom_frame(bytes, at + 1) {
        Some((name_start, payload_start, _)) => bytes.subrange(name_start, payload_start)
            == name_section_name(),
        None => false,
    }
}

/// The name map of the custom section that starts at `at` can be read.
/// The count of names is held to the length of the whole input, so that the
/// room made for them is bounded by it.
pub open spec fn name_section_safe(bytes: Seq<u8>, at: int) -> bool {
    match custom_frame(bytes, at + 1) {
        Some((_, payload_start, payload_end)) => name_map_safe(
            bytes.subrange(payload_start, payload_end),
            0,
            bytes.len() as int,
        ),
        None => true,
    }
}

/// What the section with the given number lists.
pub open spec fn listed_in(id: u8) -> Entry {
    if id == 1 {
        Entry::FuncType
    } else if id == 2 {
        Entry::Import
    } else if id == 4 {
        Entry::Table
    } else if id == 5 {
        Entry::Memory
    } else if id == 6 {
        Entry::Global
    } else if id == 7 {
        Entry::Export
    } else if id == 9 {
        Entry::Element
    } else if id == 10 {
        Entry::Body
    } else {
        Entry::Data
    }
}

/// The position after the section that starts at `at` with its number.
pub open spec fn past_section(bytes: Seq<u8>, at: int) -> Option<int> {
    if at < 0 || at >= bytes.len() {
        None
    } else if bytes[at] == 0 {
        past_custom(bytes, at + 1)
    } else if bytes[at] == 3 {
        match past_unsigned(bytes, at + 1) {
            Some(list) => past_plain_list(Plain::Index, bytes, list),
            None => None,
        }
    } else if bytes[at] == 8 {
        match past_unsigned(bytes, at + 1) {
            Some(index) => past_unsigned(bytes, index),
            None => None,
        }
    } else if bytes[at] <= 11 {
        match past_unsigned(bytes, at + 1) {
            Some(list) => past_entry_list(listed_in(bytes[at]), bytes, list),
            None => None,
        }
    } else {
        past_string(bytes, at + 1)
    }
}

/// From `at` on, `bytes` is a run of sections up to its end, and the first
/// section called `name` among them, unless one came before (`named`), has a
/// name map that can be read.
pub open spec fn sections_framed(bytes: Seq<u8>, at: int, named: bool) -> bool
    decreases bytes.len() - at,
{
    if at < 0 || at >= bytes.len() {
        true
    } else {
        match past_section(bytes, at) {
            Some(next) => if next <= at || next > bytes.len() {
                false
            } else if !named && is_name_section(bytes, at) {
                if name_section_safe(bytes, at) {
                    sections_framed(bytes, next, true)
                } else {
                    false
                }
            } else {
                sections_framed(bytes, next, named)
            },
            None => false,
        }
    }
}

/// `bytes` starts with the magic number and version 1.
pub open spec fn has_header(bytes: Seq<u8>) -> bool {
    bytes.len() >= 8 && bytes[0] == 0x00 && bytes[1] == 0x61 && bytes[2] == 0x73 && bytes[3]
        == 0x6d && bytes[4] == 0x01 && bytes[5] == 0x00 && bytes[6] == 0x00 && bytes[7] == 0x00
}

/// The symbol extractor can be handed `bytes`: they are a header and a run
/// of sections in which every unsigned integer ends within five bytes, every
/// length lies within the input, every custom section's declared length
/// covers its name, and the first name map can be read.
pub open spec fn well_framed(bytes: Seq<u8>) -> bool {
    bytes.len() <= MAX_LEN && has_header(bytes) && sections_framed(bytes, 8, false)
}

fn function_names_are_safe(names: &[u8], most: u64) -> (safe: bool)
    requires
        names.len() <= MAX_LEN,
    ensures
        safe == function_names_safe(names@, most as int),
{
    match read_unsigned(names, 0) {
        Some((count, start)) => {
            if count > most {
                return false;
            }
            let mut here = start;
            let mut left = count;
            while left > 0
                invariant
                    start <= here <= names.len() <= MAX_LEN,
                    unsigned(names@, 0) == Some((count as int, start as int)),
                    count <= most,
                    names_fit(names@, start as int, count as int) == names_fit(
                        names@,
                        here as int,
                        left as int,
                    ),
                decreases left,
            {
                match read_unsigned(names, here) {
                    Some((_, name)) => match read_unsigned(names, name) {
                        Some((length, first)) => match skip_bytes(names, first, length) {
                            Some(next) => {
                                here = next;
                                left -= 1;
                            },
                            None => {
                                return false;
                            },
                        },
                        None => {
                            return !is_overlong(names, name);
                        },
                    },
                    None => {
                        return !is_overlong(names, here);
                    },
                }
            }
            true
        },
        None => !is_overlong(names, 0),
    }
}

/// Whether `payload`, the contents of a `name` section, can be read, with
/// room made for no more than `most` names.
pub fn name_map_is_safe(payload: &[u8], most: u64) -> (safe: bool)
    requires
        payload.len() <= MAX_LEN,
    ensures
        safe == name_map_safe(payload@, 0, most as int),
{
    let mut here: usize = 0;
    while here < payload.len()
        invariant
            here <= payload.len() <= MAX_LEN,
            name_map_safe(payload@, 0, most as int) == name_map_safe(
                payload@,
                here as int,
                most as int,
            ),
        decreases payload.len() - here,
    {
        match read_unsigned(payload, here + 1) {
            Some((size, start)) => match skip_bytes(payload, start, size) {
                Some(end) => {
                    if payload[here] == 1 {
                        return function_names_are_safe(slice_subrange(payload, start, end), most);
                    }
                    here = end;
                },
                None => {
                    return false;
                },
            },
            None => {
                return !is_overlong(payload, here + 1);
            },
        }
    }
    true
}

fn is_name_section_name(bytes: &[u8], from: usize, to: usize) -> (same: bool)
    requires
        from <= to <= bytes.len(),
    ensures
        same == (bytes@.subrange(from as int, to as int) == name_section_name()),
{
    let name = slice_subrange(bytes, from, to);
    if name.len() == 4 && name[0] == 0x6e && name[1] == 0x61 && name[2] == 0x6d && name[3] == 0x65 {
        assert(name@ =~= name_section_name());
        true
    } else {
        assert(name@.len() == 4 ==> name_section_name()[0] == 0x6e && name_section_name()[1]
            == 0x61 && name_section_name()[2] == 0x6d && name_section_name()[3] == 0x65);
        false
    }
}

/// Finds the name and the payload of the custom section whose declared
/// length stands at `at`.
pub fn frame_custom(bytes: &[u8], at: usize) -> (frame: Option<(usize, usize, usize)>)
    requires
        at <= bytes.len() <= MAX_LEN,
    ensures
        match frame {
            Some((name_start, payload_start, payload_end)) => custom_frame(bytes@, at as int)
                == Some((name_start as int, payload_start as int, payload_end as int)) && at
                < name_start <= payload_start <= payload_end <= bytes.len(),
            None => custom_frame(bytes@, at as int).is_none(),
        },
{
    match read_unsigned(bytes, at) {
        Some((declared, name_at)) => match read_unsigned(bytes, name_at) {
            Some((name_len, name_start)) => match skip_bytes(bytes, name_start, name_len) {
                Some(payload_start) => {
                    let overhead: u64 = name_len + name_len / 128 + 1;
                    if declared < overhead {
                        return None;
                    }
                    match skip_bytes(bytes, payload_start, declared - overhead) {
                        Some(payload_end) => Some((name_start, payload_start, payload_end)),
                        None => None,
                    }
                },
                None => None,
            },
            None => None,
        },
        None => None,
    }
}

fn entry_listed_in(id: u8) -> (kind: Entry)
    ensures
        kind == listed_in(id),
{
    if id == 1 {
        Entry::FuncType
    } else if id == 2 {
        Entry::Import
    } else if id == 4 {
        Entry::Table
    } else if id == 5 {
        Entry::Memory
    } else if id == 6 {
        Entry::Global
    } else if id == 7 {
        Entry::Export
    } else if id == 9 {
        Entry::Element
    } else if id == 10 {
        Entry::Body
    } else {
        Entry::Data
    }
}

/// Steps over the section that starts at `at`.
pub fn skip_section(bytes: &[u8], at: usize) -> (end: Option<usize>)
    requires
        at <= bytes.len() <= MAX_LEN,
    ensures
        match end {
            Some(next) => past_section(bytes@, at as int) == Some(next as int) && at < next
                <= bytes.len(),
            None => past_section(bytes@, at as int).is_none(),
        },
{
    if at >= bytes.len() {
        return None;
    }
    let id = bytes[at];
    if id == 0 {
        match frame_custom(bytes, at + 1) {
            Some((_, _, payload_end)) => Some(payload_end),
            None => None,
        }
    } else if id == 3 {
        match skip_unsigned(bytes, at + 1) {
            Some(list) => skip_plain_list(Plain::Index, bytes, list),
            None => None,
        }
    } else if id == 8 {
        match skip_unsigned(bytes, at + 1) {
            Some(index) => skip_unsigned(bytes, index),
            None => None,
        }
    } else if id <= 11 {
        match skip_unsigned(bytes, at + 1) {
            Some(list) => skip_entry_list(entry_listed_in(id), bytes, list),
            None => None,
        }
    } else {
        skip_string(bytes, at + 1)
    }
}

/// Whether the symbol extractor can be handed `wasm_code`.
pub fn is_well_framed(wasm_code: &[u8]) -> (framed: bool)
    ensures
        framed == well_framed(wasm_code@),
{
    if wasm_code.len() > MAX_LEN || wasm_code.len() < 8 {
        return false;
    }
    if wasm_code[0] != 0x00 || wasm_code[1] != 0x61 || wasm_code[2] != 0x73 || wasm_code[3] != 0x6d
        || wasm_code[4] != 0x01 || wasm_code[5] != 0x00 || wasm_code[6] != 0x00 || wasm_code[7]
        != 0x00 {
        return false;
    }
    let mut here: usize = 8;
    let mut named = false;
    while here < wasm_code.len()
        invariant
            8 <= here <= wasm_code.len() <= MAX_LEN,
            has_header(wasm_code@),
            sections_framed(wasm_code@, 8, false) == sections_framed(
                wasm_code@,
                here as int,
                named,
            ),
        decreases wasm_code.len() - here,
    {
        if wasm_code[here] == 0 {
            match frame_custom(wasm_code, here + 1) {
                Some((name_start, payload_start, payload_end)) => {
                    if !named && is_name_section_name(wasm_code, name_start, payload_start) {
                        let payload = slice_subrange(wasm_code, payload_start, payload_end);
                        if !name_map_is_safe(payload, wasm_code.len() as u64) {
                            return false;
                        }
                        named = true;
                    }
                    here = payload_end;
                },
                None => {
                    return false;
                },
            }
        } else {
            match skip_section(wasm_code, here) {
                Some(next) => {
                    here = next;
                },
                None => {
                    return false;
                },
            }
        }
    }
    true
}

} // verus!
