//! The ANM0 animation format: a sprite table and animation scripts.
//!
//! Floating-point fields are kept as their IEEE-754 bit patterns.

use crate::bytes::{fits, in_bounds, read_u16, read_u32, u16_at, u32_at, ParseError};
use crate::text::{decode_shift_jis, shift_jis_decoded, take_until_nul, until_nul};
use vstd::prelude::*;

verus! {

/// Coordinates of a sprite in the texture, as f32 bits.
#[derive(Debug, Clone, Copy, PartialEq, Eq, Structural)]
pub struct Sprite {
    /// Index inside the anm0.
    pub index: u32,
    pub x: u32,
    pub y: u32,
    pub width: u32,
    pub height: u32,
}

/// Instructions of an animation script. Floats are f32 bits.
#[derive(Debug, Clone, Copy, PartialEq, Eq, Structural)]
pub enum Instruction {
    Delete,
    LoadSprite(u32),
    SetScale(u32, u32),
    SetAlpha(u32),
    /// Red, green, blue; the file stores them as blue, green, red.
    SetColor(u8, u8, u8),
    /// Before the jump targets are resolved, a byte offset from the start
    /// of the script; after, an instruction index.
    Jump(u32),
    ToggleMirrored,
    SetRotations3d(u32, u32, u32),
    SetRotationsSpeed3d(u32, u32, u32),
    SetScaleSpeed(u32, u32),
    Fade(u32, u32),
    SetBlendmodeAdd,
    SetBlendmodeAlphablend,
    KeepStill,
    LoadRandomSprite(u32, u32),
    Move(u32, u32, u32),
    MoveToLinear(u32, u32, u32, u32),
    MoveToDecel(u32, u32, u32, u32),
    MoveToAccel(u32, u32, u32, u32),
    Wait,
    InterruptLabel(i32),
    SetCornerRelativePlacement,
    WaitEx,
    SetAllowOffset(u32),
    SetAutomaticOrientation(u32),
    ShiftTextureX(u32),
    ShiftTextureY(u32),
    SetVisible(u32),
    ScaleIn(u32, u32, u32),
    Unknown31(u32),
}

/// A single instruction, part of a `Script`.
#[derive(Debug, Clone, Copy, PartialEq, Eq, Structural)]
pub struct Call {
    /// Time at which this instruction will be called.
    pub time: u16,
    /// The instruction to call.
    pub instr: Instruction,
}

/// Script driving an animation.
#[derive(Debug, Clone)]
pub struct Script {
    /// List of instructions in this script.
    pub instructions: Vec<Call>,
    /// The interrupt labels of the script, in order: (label, index of the
    /// instruction after the label).
    pub interrupts: Vec<(i32, u32)>,
}

/// An animation file.
#[derive(Debug)]
pub struct Anm0 {
    /// Resolution of the image used by this ANM.
    pub size: (u32, u32),
    /// Format of this ANM.
    pub format: u32,
    /// File name of the main image.
    pub first_name: String,
    /// File name of an alpha channel image.
    pub second_name: String,
    /// A list of sprites, coordinates into the attached image.
    pub sprites: Vec<Sprite>,
    /// The scripts with their numbers, in file order.
    pub scripts: Vec<(u8, Script)>,
}

/// The number of argument bytes of an opcode, or `None` for an unknown one.
pub open spec fn args_len(opcode: u8) -> Option<nat> {
    if opcode == 0 || opcode == 7 || opcode == 13 || opcode == 14 || opcode == 15 || opcode == 21
        || opcode == 23 || opcode == 24 {
        Some(0)
    } else if opcode == 1 || opcode == 3 || opcode == 5 || opcode == 22 || opcode == 25 || opcode
        == 26 || opcode == 27 || opcode == 28 || opcode == 29 || opcode == 31 {
        Some(4)
    } else if opcode == 4 {
        Some(3)
    } else if opcode == 2 || opcode == 11 || opcode == 12 || opcode == 16 {
        Some(8)
    } else if opcode == 9 || opcode == 10 || opcode == 17 || opcode == 30 {
        Some(12)
    } else if opcode == 18 || opcode == 19 || opcode == 20 {
        Some(16)
    } else {
        None
    }
}

/// The instruction of a known opcode whose arguments start at `i`.
pub open spec fn instruction_at(s: Seq<u8>, i: int, opcode: u8) -> Instruction {
    let a = u32_at(s, i);
    let b = u32_at(s, i + 4);
    let c = u32_at(s, i + 8);
    let d = u32_at(s, i + 12);
    if opcode == 0 {
        Instruction::Delete
    } else if opcode == 1 {
        Instruction::LoadSprite(a)
    } else if opcode == 2 {
        Instruction::SetScale(a, b)
    } else if opcode == 3 {
        Instruction::SetAlpha(a)
    } else if opcode == 4 {
        Instruction::SetColor(s[i + 2], s[i + 1], s[i])
    } else if opcode == 5 {
        Instruction::Jump(a)
    } else if opcode == 7 {
        Instruction::ToggleMirrored
    } else if opcode == 9 {
        Instruction::SetRotations3d(a, b, c)
    } else if opcode == 10 {
        Instruction::SetRotationsSpeed3d(a, b, c)
    } else if opcode == 11 {
        Instruction::SetScaleSpeed(a, b)
    } else if opcode == 12 {
        Instruction::Fade(a, b)
    } else if opcode == 13 {
        Instruction::SetBlendmodeAdd
    } else if opcode == 14 {
        Instruction::SetBlendmodeAlphablend
    } else if opcode == 15 {
        Instruction::KeepStill
    } else if opcode == 16 {
        Instruction::LoadRandomSprite(a, b)
    } else if opcode == 17 {
        Instruction::Move(a, b, c)
    } else if opcode == 18 {
        Instruction::MoveToLinear(a, b, c, d)
    } else if opcode == 19 {
        Instruction::MoveToDecel(a, b, c, d)
    } else if opcode == 20 {
        Instruction::MoveToAccel(a, b, c, d)
    } else if opcode == 21 {
        Instruction::Wait
    } else if opcode == 22 {
        Instruction::InterruptLabel(a as i32)
    } else if opcode == 23 {
        Instruction::SetCornerRelativePlacement
    } else if opcode == 24 {
        Instruction::WaitEx
    } else if opcode == 25 {
        Instruction::SetAllowOffset(a)
    } else if opcode == 26 {
        Instruction::SetAutomaticOrientation(a)
    } else if opcode == 27 {
        Instruction::ShiftTextureX(a)
    } else if opcode == 28 {
        Instruction::ShiftTextureY(a)
    } else if opcode == 29 {
        Instruction::SetVisible(a)
    } else if opcode == 30 {
        Instruction::ScaleIn(a, b, c)
    } else {
        Instruction::Unknown31(a)
    }
}

/// The raw instructions of a script starting at `start`, from offset `off`
/// on, after `calls`, with `offsets` the offsets (from `start`) of the
/// instructions read so far. Each record is time (u16), opcode (u8), size
/// of the payload (u8) and payload; the record of opcode 0 ends the script.
/// The result adds the offset just past the end.
pub open spec fn calls_from(s: Seq<u8>, start: int, off: int, calls: Seq<Call>, offsets: Seq<int>) -> Result<
    (Seq<Call>, Seq<int>),
    ParseError,
>
    decreases s.len() - off,
{
    if !fits(s, off, 4) {
        Err(ParseError::Truncated)
    } else {
        let time = u16_at(s, off);
        let opcode = s[off + 2];
        let size = s[off + 3] as int;
        match args_len(opcode) {
            None => Err(ParseError::UnknownOpcode),
            Some(n) => if size < n {
                Err(ParseError::BadSize)
            } else if !fits(s, off + 4, size) {
                Err(ParseError::Truncated)
            } else {
                let calls2 = calls.push(Call { time, instr: instruction_at(s, off + 4, opcode) });
                let offsets2 = offsets.push(off - start);
                if opcode == 0 {
                    Ok((calls2, offsets2.push(off + 4 + size - start)))
                } else {
                    calls_from(s, start, off + 4 + size, calls2, offsets2)
                }
            },
        }
    }
}

/// The index of the first element of `offsets` equal to `target`.
pub open spec fn index_of(offsets: Seq<int>, target: int) -> Option<int>
    decreases offsets.len(),
{
    if offsets.len() == 0 {
        None
    } else if offsets.last() == target {
        match index_of(offsets.drop_last(), target) {
            Some(i) => Some(i),
            None => Some(offsets.len() - 1),
        }
    } else {
        index_of(offsets.drop_last(), target)
    }
}

/// A call with its jump target, a byte offset, replaced by the index of
/// the instruction at that offset.
pub open spec fn resolve_call(c: Call, offsets: Seq<int>) -> Option<Call> {
    match c.instr {
        Instruction::Jump(t) => match index_of(offsets, t as int) {
            Some(i) => Some(Call { time: c.time, instr: Instruction::Jump(i as u32) }),
            None => None,
        },
        _ => Some(c),
    }
}

/// Whether every jump of `calls` resolves against `offsets`, and `resolved`
/// holds the resolved calls.
pub open spec fn resolved(calls: Seq<Call>, offsets: Seq<int>, resolved: Seq<Call>) -> bool {
    &&& resolved.len() == calls.len()
    &&& forall|j: int|
        0 <= j < calls.len() ==> resolve_call(#[trigger] calls[j], offsets) == Some(resolved[j])
}

/// The interrupt labels of `calls`, in order, each with the index of the
/// instruction after it.
pub open spec fn labels_of(calls: Seq<Call>) -> Seq<(i32, u32)>
    decreases calls.len(),
{
    if calls.len() == 0 {
        Seq::empty()
    } else {
        let prev = labels_of(calls.drop_last());
        match calls.last().instr {
            Instruction::InterruptLabel(l) => prev.push((l, calls.len() as u32)),
            _ => prev,
        }
    }
}

/// Whether `sc` is the script at offset `start`.
pub open spec fn script_at(s: Seq<u8>, start: int, sc: Script) -> bool {
    match calls_from(s, start, start, Seq::empty(), Seq::empty()) {
        Ok((calls, offsets)) => resolved(calls, offsets, sc.instructions@) && sc.interrupts@
            == labels_of(sc.instructions@),
        Err(_) => false,
    }
}

/// Whether the script at offset `start` parses and its jumps resolve.
pub open spec fn script_ok(s: Seq<u8>, start: int) -> bool {
    match calls_from(s, start, start, Seq::empty(), Seq::empty()) {
        Ok((calls, offsets)) => forall|j: int|
            0 <= j < calls.len() ==> #[trigger] resolve_call(calls[j], offsets) is Some,
        Err(_) => false,
    }
}

/// Whether `s` holds an animation header: 64 bytes, with the fields that
/// must be zero (the tag, version, has_data and the last one) zero.
pub open spec fn header_ok(s: Seq<u8>) -> bool {
    &&& fits(s, 0, 64)
    &&& u32_at(s, 8) == 0
    &&& u32_at(s, 40) == 0
    &&& u32_at(s, 52) == 0
    &&& u32_at(s, 60) == 0
}

/// The name at offset `off`: up to 32 bytes (fewer where the data ends),
/// cut at the first NUL; no name where the offset is zero.
pub open spec fn name_at(s: Seq<u8>, off: int) -> Seq<char> {
    if off == 0 {
        Seq::empty()
    } else {
        shift_jis_decoded(until_nul(s.subrange(off, if off + 32 <= s.len() { off + 32 } else { s.len() as int })))
    }
}

/// The sprite record at offset `off`.
pub open spec fn sprite_at(s: Seq<u8>, off: int) -> Sprite {
    Sprite {
        index: u32_at(s, off),
        x: u32_at(s, off + 4),
        y: u32_at(s, off + 8),
        width: u32_at(s, off + 12),
        height: u32_at(s, off + 16),
    }
}

/// Offset of the `k`-th sprite offset.
pub open spec fn sprite_slot(k: int) -> int {
    64 + 4 * k
}

/// Offset of the `k`-th (script number, script offset) pair.
pub open spec fn script_slot(s: Seq<u8>, k: int) -> int {
    64 + 4 * u32_at(s, 0) + 8 * k
}

/// Whether `s` holds a well-formed animation file.
pub open spec fn anm_ok(s: Seq<u8>) -> bool {
    &&& header_ok(s)
    &&& fits(s, 64, 4 * u32_at(s, 0) + 8 * u32_at(s, 4))
    &&& u32_at(s, 28) <= s.len()
    &&& u32_at(s, 36) <= s.len()
    &&& forall|k: int|
        0 <= k < u32_at(s, 0) ==> fits(s, #[trigger] u32_at(s, sprite_slot(k)) as int, 20)
    &&& forall|k: int|
        0 <= k < u32_at(s, 4) ==> script_ok(s, #[trigger] u32_at(s, script_slot(s, k) + 4) as int)
}

/// The offsets as integers.
pub open spec fn as_ints(o: Seq<usize>) -> Seq<int> {
    o.map_values(|v: usize| v as int)
}

proof fn lemma_index_of_push(offsets: Seq<int>, x: int, target: int)
    ensures
        index_of(offsets.push(x), target) == match index_of(offsets, target) {
            Some(i) => Some(i),
            None => if x == target {
                Some(offsets.len() as int)
            } else {
                None
            },
        },
{
    assert(offsets.push(x).drop_last() =~= offsets);
}

/// Reads the raw instructions of the script at `start`.
fn parse_calls(s: &[u8], start: usize) -> (r: Result<(Vec<Call>, Vec<usize>), ParseError>)
    ensures
        match calls_from(s@, start as int, start as int, Seq::empty(), Seq::empty()) {
            Ok((calls, offsets)) => r matches Ok((c, o)) && c@ == calls && as_ints(o@) == offsets,
            Err(e) => r == Err::<(Vec<Call>, Vec<usize>), ParseError>(e),
        },
{
    let mut calls: Vec<Call> = Vec::new();
    let mut offsets: Vec<usize> = Vec::new();
    let mut off = start;
    assert(as_ints(offsets@) =~= Seq::<int>::empty());
    loop
        invariant
            start <= off,
            calls_from(s@, start as int, start as int, Seq::empty(), Seq::empty()) == calls_from(
                s@,
                start as int,
                off as int,
                calls@,
                as_ints(offsets@),
            ),
        decreases s@.len() - off,
    {
        if !in_bounds(s, off, 4) {
            return Err(ParseError::Truncated);
        }
        let time = read_u16(s, off).unwrap();
        let opcode = s[off + 2];
        let size = s[off + 3] as usize;
        let n = match args_len_exec(opcode) {
            Some(n) => n,
            None => {
                return Err(ParseError::UnknownOpcode);
            },
        };
        if size < n {
            return Err(ParseError::BadSize);
        }
        if !in_bounds(s, off + 4, size) {
            return Err(ParseError::Truncated);
        }
        let instr = parse_instruction(s, off + 4, opcode);
        calls.push(Call { time, instr });
        let ghost prev = offsets@;
        offsets.push(off - start);
        assert(as_ints(offsets@) =~= as_ints(prev).push(
            off - start,
        ));
        if opcode == 0 {
            let ghost prev2 = offsets@;
            offsets.push(off + 4 + size - start);
            assert(as_ints(offsets@) =~= as_ints(prev2).push(
                off + 4 + size - start,
            ));
            return Ok((calls, offsets));
        }
        off = off + 4 + size;
    }
}

fn args_len_exec(opcode: u8) -> (r: Option<usize>)
    ensures
        r matches Some(n) ==> args_len(opcode) == Some(n as nat),
        r is None ==> args_len(opcode) is None,
{
    if opcode == 0 || opcode == 7 || opcode == 13 || opcode == 14 || opcode == 15 || opcode == 21
        || opcode == 23 || opcode == 24 {
        Some(0)
    } else if opcode == 1 || opcode == 3 || opcode == 5 || opcode == 22 || opcode == 25 || opcode
        == 26 || opcode == 27 || opcode == 28 || opcode == 29 || opcode == 31 {
        Some(4)
    } else if opcode == 4 {
        Some(3)
    } else if opcode == 2 || opcode == 11 || opcode == 12 || opcode == 16 {
        Some(8)
    } else if opcode == 9 || opcode == 10 || opcode == 17 || opcode == 30 {
        Some(12)
    } else if opcode == 18 || opcode == 19 || opcode == 20 {
        Some(16)
    } else {
        None
    }
}

fn parse_instruction(s: &[u8], i: usize, opcode: u8) -> (r: Instruction)
    requires
        args_len(opcode) matches Some(n) && fits(s@, i as int, n as int),
        s@.len() <= usize::MAX,
    ensures
        r == instruction_at(s@, i as int, opcode),
{
    let a = if opcode == 4 || args_len_exec(opcode) == Some(0usize) {
        0
    } else {
        read_u32(s, i).unwrap()
    };
    let b = if in_bounds(s, i, 8) {
        read_u32(s, i + 4).unwrap()
    } else {
        0
    };
    let c = if in_bounds(s, i, 12) {
        read_u32(s, i + 8).unwrap()
    } else {
        0
    };
    let d = if in_bounds(s, i, 16) {
        read_u32(s, i + 12).unwrap()
    } else {
        0
    };
    if opcode == 0 {
        Instruction::Delete
    } else if opcode == 1 {
        Instruction::LoadSprite(a)
    } else if opcode == 2 {
        Instruction::SetScale(a, b)
    } else if opcode == 3 {
        Instruction::SetAlpha(a)
    } else if opcode == 4 {
        Instruction::SetColor(s[i + 2], s[i + 1], s[i])
    } else if opcode == 5 {
        Instruction::Jump(a)
    } else if opcode == 7 {
        Instruction::ToggleMirrored
    } else if opcode == 9 {
        Instruction::SetRotations3d(a, b, c)
    } else if opcode == 10 {
        Instruction::SetRotationsSpeed3d(a, b, c)
    } else if opcode == 11 {
        Instruction::SetScaleSpeed(a, b)
    } else if opcode == 12 {
        Instruction::Fade(a, b)
    } else if opcode == 13 {
        Instruction::SetBlendmodeAdd
    } else if opcode == 14 {
        Instruction::SetBlendmodeAlphablend
    } else if opcode == 15 {
        Instruction::KeepStill
    } else if opcode == 16 {
        Instruction::LoadRandomSprite(a, b)
    } else if opcode == 17 {
        Instruction::Move(a, b, c)
    } else if opcode == 18 {
        Instruction::MoveToLinear(a, b, c, d)
    } else if opcode == 19 {
        Instruction::MoveToDecel(a, b, c, d)
    } else if opcode == 20 {
        Instruction::MoveToAccel(a, b, c, d)
    } else if opcode == 21 {
        Instruction::Wait
    } else if opcode == 22 {
        Instruction::InterruptLabel(a as i32)
    } else if opcode == 23 {
        Instruction::SetCornerRelativePlacement
    } else if opcode == 24 {
        Instruction::WaitEx
    } else if opcode == 25 {
        Instruction::SetAllowOffset(a)
    } else if opcode == 26 {
        Instruction::SetAutomaticOrientation(a)
    } else if opcode == 27 {
        Instruction::ShiftTextureX(a)
    } else if opcode == 28 {
        Instruction::ShiftTextureY(a)
    } else if opcode == 29 {
        Instruction::SetVisible(a)
    } else if opcode == 30 {
        Instruction::ScaleIn(a, b, c)
    } else {
        Instruction::Unknown31(a)
    }
}

/// The index of the first offset equal to `target`.
fn find_offset(offsets: &Vec<usize>, target: u32) -> (r: Option<usize>)
    ensures
        match index_of(as_ints(offsets@), target as int) {
            Some(i) => r matches Some(k) && k as int == i,
            None => r is None,
        },
{
    let ghost all = as_ints(offsets@);
    let mut k: usize = 0;
    while k < offsets.len()
        invariant
            k <= offsets@.len(),
            all == as_ints(offsets@),
            index_of(all.subrange(0, k as int), target as int) is None,
        decreases offsets.len() - k,
    {
        proof {
            assert(all.subrange(0, k + 1) =~= all.subrange(0, k as int).push(all[k as int]));
            lemma_index_of_push(all.subrange(0, k as int), all[k as int], target as int);
        }
        if offsets[k] == target as usize {
            proof {
                lemma_index_of_prefix(all, k + 1, target as int);
            }
            return Some(k);
        }
        k = k + 1;
    }
    assert(all.subrange(0, k as int) =~= all);
    None
}

/// A match in a prefix is the first match of the whole sequence.
proof fn lemma_index_of_prefix(all: Seq<int>, n: int, target: int)
    requires
        0 <= n <= all.len(),
        index_of(all.subrange(0, n), target) is Some,
    ensures
        index_of(all, target) == index_of(all.subrange(0, n), target),
    decreases all.len() - n,
{
    if n < all.len() {
        assert(all.subrange(0, n + 1) =~= all.subrange(0, n).push(all[n]));
        lemma_index_of_push(all.subrange(0, n), all[n], target);
        lemma_index_of_prefix(all, n + 1, target);
    } else {
        assert(all.subrange(0, n) =~= all);
    }
}

/// Replaces the byte offsets of the jumps by instruction indices, and
/// collects the interrupt labels.
fn resolve_script(calls: Vec<Call>, offsets: &Vec<usize>) -> (r: Result<Script, ParseError>)
    ensures
        r is Ok <==> forall|j: int|
            0 <= j < calls@.len() ==> #[trigger] resolve_call(
                calls@[j],
                as_ints(offsets@),
            ) is Some,
        r matches Ok(sc) ==> resolved(calls@, as_ints(offsets@), sc.instructions@)
            && sc.interrupts@ == labels_of(sc.instructions@),
        r is Err ==> r == Err::<Script, ParseError>(ParseError::BadJump),
{
    let ghost offs = as_ints(offsets@);
    let mut instructions: Vec<Call> = Vec::new();
    let mut interrupts: Vec<(i32, u32)> = Vec::new();
    let mut j: usize = 0;
    while j < calls.len()
        invariant
            offs == as_ints(offsets@),
            j <= calls@.len(),
            instructions@.len() == j,
            forall|q: int|
                0 <= q < j ==> resolve_call(#[trigger] calls@[q], offs) == Some(instructions@[q]),
            interrupts@ == labels_of(instructions@),
        decreases calls.len() - j,
    {
        let call = calls[j];
        let out = match call.instr {
            Instruction::Jump(t) => match find_offset(offsets, t) {
                Some(k) => Call { time: call.time, instr: Instruction::Jump(k as u32) },
                None => {
                    return Err(ParseError::BadJump);
                },
            },
            _ => call,
        };
        let ghost prev = instructions@;
        assert(resolve_call(calls@[j as int], offs) == Some(out));
        instructions.push(out);
        assert(instructions@.drop_last() =~= prev);
        assert(forall|q: int| 0 <= q < j ==> instructions@[q] == prev[q]);
        if let Instruction::InterruptLabel(l) = out.instr {
            interrupts.push((l, (j + 1) as u32));
        }
        j = j + 1;
    }
    Ok(Script { instructions, interrupts })
}

fn parse_name(s: &[u8], offset: usize) -> (r: String)
    requires
        offset <= s@.len(),
    ensures
        r@ == name_at(s@, offset as int),
{
    if offset == 0 {
        return String::new();
    }
    let end = if s.len() - offset >= 32 {
        offset + 32
    } else {
        s.len()
    };
    let raw = take_until_nul(&s[offset..end]);
    decode_shift_jis(raw.as_slice())
}

impl Anm0 {
    /// Parse a slice of bytes into an `Anm0`.
    pub fn from_slice(data: &[u8]) -> (r: Result<Anm0, ParseError>)
        ensures
            r is Ok <==> anm_ok(data@),
            r matches Ok(a) ==> {
                &&& a.size == (u32_at(data@, 12), u32_at(data@, 16))
                &&& a.format == u32_at(data@, 20)
                &&& a.first_name@ == name_at(data@, u32_at(data@, 28) as int)
                &&& a.second_name@ == name_at(data@, u32_at(data@, 36) as int)
                &&& a.sprites@.len() == u32_at(data@, 0)
                &&& forall|k: int|
                    0 <= k < a.sprites@.len() ==> #[trigger] a.sprites@[k] == sprite_at(
                        data@,
                        u32_at(data@, sprite_slot(k)) as int,
                    )
                &&& a.scripts@.len() == u32_at(data@, 4)
                &&& forall|k: int|
                    0 <= k < a.scripts@.len() ==> (#[trigger] a.scripts@[k]).0 == u32_at(
                        data@,
                        script_slot(data@, k),
                    ) as u8 && script_at(
                        data@,
                        u32_at(data@, script_slot(data@, k) + 4) as int,
                        a.scripts@[k].1,
                    )
            },
    {
        if !in_bounds(data, 0, 64) {
            return Err(ParseError::Truncated);
        }
        let num_sprites = read_u32(data, 0).unwrap();
        let num_scripts = read_u32(data, 4).unwrap();
        if read_u32(data, 8).unwrap() != 0 || read_u32(data, 40).unwrap() != 0 || read_u32(
            data,
            52,
        ).unwrap() != 0 || read_u32(data, 60).unwrap() != 0 {
            return Err(ParseError::BadTag);
        }
        let width = read_u32(data, 12).unwrap();
        let height = read_u32(data, 16).unwrap();
        let format = read_u32(data, 20).unwrap();
        let first_name_offset = read_u32(data, 28).unwrap();
        let second_name_offset = read_u32(data, 36).unwrap();
        let table_len = match (num_sprites as usize).checked_mul(4) {
            Some(a) => match (num_scripts as usize).checked_mul(8) {
                Some(b) => a.checked_add(b),
                None => None,
            },
            None => None,
        };
        let table_len = match table_len {
            Some(t) => t,
            None => {
                return Err(ParseError::Truncated);
            },
        };
        if !in_bounds(data, 64, table_len) {
            return Err(ParseError::Truncated);
        }
        if first_name_offset as usize > data.len() || second_name_offset as usize > data.len() {
            return Err(ParseError::Truncated);
        }
        let first_name = parse_name(data, first_name_offset as usize);
        let second_name = parse_name(data, second_name_offset as usize);
        let mut sprites: Vec<Sprite> = Vec::new();
        let mut k: usize = 0;
        while k < num_sprites as usize
            invariant
                num_sprites == u32_at(data@, 0),
                fits(data@, 64, table_len as int),
                table_len == 4 * num_sprites + 8 * num_scripts,
                data@.len() <= usize::MAX,
                k <= num_sprites,
                sprites@.len() == k,
                forall|j: int|
                    0 <= j < k ==> fits(data@, #[trigger] u32_at(data@, sprite_slot(j)) as int, 20),
                forall|j: int|
                    0 <= j < k ==> #[trigger] sprites@[j] == sprite_at(
                        data@,
                        u32_at(data@, sprite_slot(j)) as int,
                    ),
            decreases num_sprites - k,
        {
            let offset = read_u32(data, 64 + 4 * k).unwrap() as usize;
            assert(u32_at(data@, sprite_slot(k as int)) == offset);
            if !in_bounds(data, offset, 20) {
                return Err(ParseError::Truncated);
            }
            sprites.push(
                Sprite {
                    index: read_u32(data, offset).unwrap(),
                    x: read_u32(data, offset + 4).unwrap(),
                    y: read_u32(data, offset + 8).unwrap(),
                    width: read_u32(data, offset + 12).unwrap(),
                    height: read_u32(data, offset + 16).unwrap(),
                },
            );
            k = k + 1;
        }
        let base = 64 + 4 * num_sprites as usize;
        let mut scripts: Vec<(u8, Script)> = Vec::new();
        let mut k: usize = 0;
        while k < num_scripts as usize
            invariant
                num_sprites == u32_at(data@, 0),
                num_scripts == u32_at(data@, 4),
                fits(data@, 64, table_len as int),
                table_len == 4 * num_sprites + 8 * num_scripts,
                base == 64 + 4 * num_sprites,
                data@.len() <= usize::MAX,
                k <= num_scripts,
                scripts@.len() == k,
                forall|j: int|
                    0 <= j < k ==> script_ok(
                        data@,
                        #[trigger] u32_at(data@, script_slot(data@, j) + 4) as int,
                    ),
                forall|j: int|
                    0 <= j < k ==> (#[trigger] scripts@[j]).0 == u32_at(
                        data@,
                        script_slot(data@, j),
                    ) as u8 && script_at(
                        data@,
                        u32_at(data@, script_slot(data@, j) + 4) as int,
                        scripts@[j].1,
                    ),
            decreases num_scripts - k,
        {
            let index = read_u32(data, base + 8 * k).unwrap() as u8;
            let offset = read_u32(data, base + 8 * k + 4).unwrap() as usize;
            assert(u32_at(data@, script_slot(data@, k as int) + 4) == offset);
            assert(u32_at(data@, script_slot(data@, k as int)) as u8 == index);
            let (calls, offsets) = match parse_calls(data, offset) {
                Ok(p) => p,
                Err(e) => {
                    assert(!script_ok(data@, offset as int));
                    return Err(e);
                },
            };
            let script = match resolve_script(calls, &offsets) {
                Ok(sc) => sc,
                Err(e) => {
                    assert(!script_ok(data@, offset as int));
                    return Err(e);
                },
            };
            scripts.push((index, script));
            k = k + 1;
        }
        Ok(Anm0 { size: (width, height), format, first_name, second_name, sprites, scripts })
    }
}

/// Whether `o` is strictly increasing.
pub open spec fn increasing(o: Seq<int>) -> bool {
    forall|i: int, j: int| 0 <= i < j < o.len() ==> o[i] < o[j]
}

proof fn lemma_index_of_absent(o: Seq<int>, t: int)
    requires
        forall|i: int| 0 <= i < o.len() ==> o[i] < t,
    ensures
        index_of(o, t) is None,
    decreases o.len(),
{
    if o.len() > 0 {
        lemma_index_of_absent(o.drop_last(), t);
    }
}

proof fn lemma_calls_from_shape(s: Seq<u8>, start: int, off: int, calls: Seq<Call>, offsets: Seq<int>)
    requires
        increasing(offsets),
        forall|i: int| 0 <= i < offsets.len() ==> offsets[i] < off - start,
        offsets.len() == calls.len(),
    ensures
        calls_from(s, start, off, calls, offsets) matches Ok((c, o)) ==> increasing(o) && o.len()
            == c.len() + 1,
    decreases s.len() - off,
{
    if fits(s, off, 4) {
        let opcode = s[off + 2];
        let size = s[off + 3] as int;
        if let Some(n) = args_len(opcode) {
            if size >= n && fits(s, off + 4, size) {
                let calls2 = calls.push(
                    Call { time: u16_at(s, off), instr: instruction_at(s, off + 4, opcode) },
                );
                let offsets2 = offsets.push(off - start);
                if opcode != 0 {
                    lemma_calls_from_shape(s, start, off + 4 + size, calls2, offsets2);
                }
            }
        }
    }
}

/// A jump whose target is the offset just past the end of its script
/// resolves to the number of instructions of the script.
pub proof fn lemma_jump_to_end(s: Seq<u8>, start: int)
    ensures
        calls_from(s, start, start, Seq::empty(), Seq::empty()) matches Ok((c, o)) ==> index_of(
            o,
            o.last(),
        ) == Some(c.len() as int),
{
    lemma_calls_from_shape(s, start, start, Seq::empty(), Seq::empty());
    if let Ok((c, o)) = calls_from(s, start, start, Seq::empty(), Seq::empty()) {
        lemma_index_of_absent(o.drop_last(), o.last());
    }
}

} // verus!
