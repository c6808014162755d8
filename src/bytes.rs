//! Little-endian integers read at byte offsets of a buffer.

use vstd::prelude::*;

verus! {

/// Why a file of one of the game's binary formats could not be parsed.
#[derive(Debug, Clone, Copy, PartialEq, Eq, Structural)]
pub enum ParseError {
    /// An offset or a record lies past the end of the data.
    Truncated,
    /// A field that must hold a fixed value holds another.
    BadTag,
    /// A record announces a size that its kind does not allow.
    BadSize,
    /// An instruction has an opcode that the format does not define.
    UnknownOpcode,
    /// A jump targets an offset that starts no instruction.
    BadJump,
}

/// The little-endian u16 at offset `i`.
pub open spec fn u16_at(s: Seq<u8>, i: int) -> u16 {
    (s[i] as int + 256 * s[i + 1] as int) as u16
}

/// The little-endian u32 at offset `i`.
pub open spec fn u32_at(s: Seq<u8>, i: int) -> u32 {
    (s[i] as int + 0x100 * s[i + 1] as int + 0x1_0000 * s[i + 2] as int + 0x100_0000 * s[i
        + 3] as int) as u32
}

/// Whether `n` bytes from offset `i` lie inside `s`.
pub open spec fn fits(s: Seq<u8>, i: int, n: int) -> bool {
    0 <= i && i + n <= s.len()
}

/// Whether `n` bytes from offset `i` lie inside `s`, without overflow.
pub fn in_bounds(s: &[u8], i: usize, n: usize) -> (r: bool)
    ensures
        r == fits(s@, i as int, n as int),
        s@.len() <= usize::MAX,
{
    i <= s.len() && s.len() - i >= n
}

/// The byte at offset `i`, if there is one.
pub fn read_u8(s: &[u8], i: usize) -> (r: Option<u8>)
    ensures
        r is Some <==> fits(s@, i as int, 1),
        r matches Some(v) ==> v == s@[i as int],
{
    if i < s.len() {
        Some(s[i])
    } else {
        None
    }
}

/// The little-endian u16 at offset `i`, if it lies inside `s`.
pub fn read_u16(s: &[u8], i: usize) -> (r: Option<u16>)
    ensures
        r is Some <==> fits(s@, i as int, 2),
        r matches Some(v) ==> v == u16_at(s@, i as int),
{
    if !in_bounds(s, i, 2) {
        return None;
    }
    Some(s[i] as u16 + (s[i + 1] as u16) * 256)
}

/// The little-endian i16 at offset `i`, if it lies inside `s`.
pub fn read_i16(s: &[u8], i: usize) -> (r: Option<i16>)
    ensures
        r is Some <==> fits(s@, i as int, 2),
        r matches Some(v) ==> v == u16_at(s@, i as int) as i16,
{
    match read_u16(s, i) {
        Some(v) => Some(v as i16),
        None => None,
    }
}

/// The little-endian u32 at offset `i`, if it lies inside `s`.
pub fn read_u32(s: &[u8], i: usize) -> (r: Option<u32>)
    ensures
        r is Some <==> fits(s@, i as int, 4),
        r matches Some(v) ==> v == u32_at(s@, i as int),
{
    if !in_bounds(s, i, 4) {
        return None;
    }
    Some(
        s[i] as u32 + (s[i + 1] as u32) * 0x100 + (s[i + 2] as u32) * 0x1_0000 + (s[i + 3] as u32)
            * 0x100_0000,
    )
}

/// The little-endian i32 at offset `i`, if it lies inside `s`.
pub fn read_i32(s: &[u8], i: usize) -> (r: Option<i32>)
    ensures
        r is Some <==> fits(s@, i as int, 4),
        r matches Some(v) ==> v == u32_at(s@, i as int) as i32,
{
    match read_u32(s, i) {
        Some(v) => Some(v as i32),
        None => None,
    }
}

} // verus!
