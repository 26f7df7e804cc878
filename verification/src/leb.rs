//! The variable-length integers of the binary format, as far as their extent
//! and their value matter to the shape of a module.

use vstd::prelude::*;

verus! {

/// No input longer than this is looked into: lengths and positions then fit
/// in 32 bits with room to spare.
pub const MAX_LEN: usize = 0x7fff_ffff;

/// The weight of the `k`-th group of seven bits of an unsigned integer.
pub open spec fn weight(k: int) -> int {
    if k <= 0 {
        1
    } else if k == 1 {
        0x80
    } else if k == 2 {
        0x4000
    } else if k == 3 {
        0x20_0000
    } else {
        0x1000_0000
    }
}

/// The value of the unsigned 32-bit integer whose `k`-th byte stands at
/// `at`, counted from that byte on, and the position after its last byte.
///
/// `None` where the bytes run out or a sixth byte would be needed. Of a
/// fifth byte only the four bits that fit in 32 count.
pub open spec fn unsigned_from(bytes: Seq<u8>, at: int, k: int) -> Option<(int, int)>
    decreases 5 - k,
{
    if at < 0 || at >= bytes.len() || k < 0 || k >= 5 {
        None
    } else if bytes[at] < 0x80 {
        if k == 4 {
            Some(((bytes[at] % 0x10) * weight(k), at + 1))
        } else {
            Some((bytes[at] * weight(k), at + 1))
        }
    } else {
        match unsigned_from(bytes, at + 1, k + 1) {
            Some((rest, next)) => Some(((bytes[at] - 0x80) * weight(k) + rest, next)),
            None => None,
        }
    }
}

/// The unsigned 32-bit integer that starts at `at`, and the position after it.
pub open spec fn unsigned(bytes: Seq<u8>, at: int) -> Option<(int, int)> {
    unsigned_from(bytes, at, 0)
}

/// An unsigned integer that starts at `at` would take a sixth byte, and the
/// byte is there to be read.
pub open spec fn overlong(bytes: Seq<u8>, at: int) -> bool {
    0 <= at && at + 5 < bytes.len() && bytes[at] >= 0x80 && bytes[at + 1] >= 0x80 && bytes[at + 2]
        >= 0x80 && bytes[at + 3] >= 0x80 && bytes[at + 4] >= 0x80
}

/// The position after the integer that starts at `at`, if it ends within
/// `most` bytes.
pub open spec fn past_integer(bytes: Seq<u8>, at: int, most: int) -> Option<int>
    decreases most,
{
    if at < 0 || at >= bytes.len() || most <= 0 {
        None
    } else if bytes[at] < 0x80 {
        Some(at + 1)
    } else {
        past_integer(bytes, at + 1, most - 1)
    }
}

/// The position `count` bytes after `at`, if the input reaches that far.
pub open spec fn past_bytes(bytes: Seq<u8>, at: int, count: int) -> Option<int> {
    if 0 <= at && 0 <= count && at + count <= bytes.len() {
        Some(at + count)
    } else {
        None
    }
}

/// The position after the byte string that starts at `at`: an unsigned
/// length and that many bytes, all of them present.
pub open spec fn past_string(bytes: Seq<u8>, at: int) -> Option<int> {
    match unsigned(bytes, at) {
        Some((length, start)) => past_bytes(bytes, start, length),
        None => None,
    }
}

fn weigh(k: u8) -> (w: u64)
    requires
        k < 5,
    ensures
        w == weight(k as int),
{
    if k == 0 {
        1
    } else if k == 1 {
        0x80
    } else if k == 2 {
        0x4000
    } else if k == 3 {
        0x20_0000
    } else {
        0x1000_0000
    }
}

/// Reads the unsigned integer whose `k`-th byte stands at `at`.
pub fn read_unsigned_from(bytes: &[u8], at: usize, k: u8) -> (read: Option<(u64, usize)>)
    requires
        at <= bytes.len() <= MAX_LEN,
        k <= 5,
    ensures
        match read {
            Some((value, next)) => unsigned_from(bytes@, at as int, k as int) == Some(
                (value as int, next as int),
            ) && at < next <= bytes.len() && value + weight(k as int) <= 0x1_0000_0000,
            None => unsigned_from(bytes@, at as int, k as int).is_none(),
        },
    decreases 5 - k,
{
    if at >= bytes.len() || k >= 5 {
        return None;
    }
    let byte = bytes[at];
    let w = weigh(k);
    if byte < 0x80 {
        if k == 4 {
            Some((((byte % 0x10) as u64) * w, at + 1))
        } else {
            Some(((byte as u64) * w, at + 1))
        }
    } else {
        match read_unsigned_from(bytes, at + 1, k + 1) {
            Some((rest, next)) => Some((((byte - 0x80) as u64) * w + rest, next)),
            None => None,
        }
    }
}

/// Reads the unsigned 32-bit integer that starts at `at`.
pub fn read_unsigned(bytes: &[u8], at: usize) -> (read: Option<(u64, usize)>)
    requires
        at <= bytes.len() <= MAX_LEN,
    ensures
        match read {
            Some((value, next)) => unsigned(bytes@, at as int) == Some((value as int, next as int))
                && at < next <= bytes.len() && value <= 0xffff_ffff,
            None => unsigned(bytes@, at as int).is_none(),
        },
{
    read_unsigned_from(bytes, at, 0)
}

/// Whether an unsigned integer that starts at `at` would take a sixth byte
/// that is there to be read.
pub fn is_overlong(bytes: &[u8], at: usize) -> (long: bool)
    requires
        at <= bytes.len() <= MAX_LEN,
    ensures
        long == overlong(bytes@, at as int),
{
    bytes.len() - at > 5 && bytes[at] >= 0x80 && bytes[at + 1] >= 0x80 && bytes[at + 2] >= 0x80
        && bytes[at + 3] >= 0x80 && bytes[at + 4] >= 0x80
}

/// Finds the end of the integer that starts at `at`, looking at no more than
/// `most` bytes.
pub fn skip_integer(bytes: &[u8], at: usize, most: u8) -> (end: Option<usize>)
    requires
        at <= bytes.len() <= MAX_LEN,
    ensures
        match end {
            Some(next) => past_integer(bytes@, at as int, most as int) == Some(next as int) && at
                < next <= bytes.len(),
            None => past_integer(bytes@, at as int, most as int).is_none(),
        },
    decreases most,
{
    if at >= bytes.len() || most == 0 {
        None
    } else if bytes[at] < 0x80 {
        Some(at + 1)
    } else {
        skip_integer(bytes, at + 1, most - 1)
    }
}

/// Steps over `count` bytes from `at`, if the input reaches that far.
pub fn skip_bytes(bytes: &[u8], at: usize, count: u64) -> (end: Option<usize>)
    requires
        at <= bytes.len() <= MAX_LEN,
    ensures
        match end {
            Some(next) => past_bytes(bytes@, at as int, count as int) == Some(next as int) && at
                <= next <= bytes.len(),
            None => past_bytes(bytes@, at as int, count as int).is_none(),
        },
{
    if count <= (bytes.len() - at) as u64 {
        Some(at + count as usize)
    } else {
        None
    }
}

/// Steps over the byte string that starts at `at`.
pub fn skip_string(bytes: &[u8], at: usize) -> (end: Option<usize>)
    requires
        at <= bytes.len() <= MAX_LEN,
    ensures
        match end {
            Some(next) => past_string(bytes@, at as int) == Some(next as int) && at < next
                <= bytes.len(),
            None => past_string(bytes@, at as int).is_none(),
        },
{
    match read_unsigned(bytes, at) {
        Some((length, start)) => skip_bytes(bytes, start, length),
        None => None,
    }
}

} // verus!
