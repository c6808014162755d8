//! The STD stage format: models made of quads, their instances, and a
//! timeline of camera and fog instructions.
//!
//! Floating-point fields are kept as their IEEE-754 bit patterns.

use crate::bytes::{fits, in_bounds, read_u16, read_u32, u16_at, u32_at, ParseError};
use crate::text::{decode_field, shift_jis_decoded, until_nul};
use vstd::prelude::*;

verus! {

/// A position in the 3D space, each component as f32 bits.
#[derive(Debug, Clone, Copy, PartialEq, Eq, Structural)]
pub struct Position {
    pub x: u32,
    pub y: u32,
    pub z: u32,
}

/// A 2D box, each side as f32 bits.
#[derive(Debug, Clone, Copy, PartialEq, Eq, Structural)]
pub struct Box2D {
    pub width: u32,
    pub height: u32,
}

/// A quad in the 3D space.
#[derive(Debug, Clone, Copy, PartialEq, Eq, Structural)]
pub struct Quad {
    /// The anm script to run for this quad.
    pub anm_script: u16,
    /// The position of this quad in the 3D space.
    pub pos: Position,
    /// The size of this quad.
    pub size_override: Box2D,
}

/// A model formed of multiple quads in space.
#[derive(Debug, Clone)]
pub struct Model {
    pub unknown: u16,
    /// The bounding box around this model, as f32 bits.
    pub bounding_box: Vec<u32>,
    /// The quads composing this model.
    pub quads: Vec<Quad>,
}

/// An instance of a model.
#[derive(Debug, Clone, Copy, PartialEq, Eq, Structural)]
pub struct Instance {
    /// The model this is an instance of.
    pub id: u16,
    /// Where to position the instance of this model.
    pub pos: Position,
}

/// Instructions of a stage timeline. Floats are f32 bits.
#[derive(Debug, Clone, Copy, PartialEq, Eq, Structural)]
pub enum Instruction {
    SetViewpos(u32, u32, u32),
    /// Fog color (red, green, blue, alpha), then near and far planes. The
    /// file stores the color bytes as blue, green, red, alpha.
    SetFog(u8, u8, u8, u8, u32, u32),
    SetViewpos2(u32, u32, u32),
    StartInterpolatingViewpos2(i32, i32, i32),
    StartInterpolatingFog(i32, i32, i32),
    Unknown(i32, i32, i32),
}

/// A single instruction of the timeline.
#[derive(Debug, Clone, Copy, PartialEq, Eq, Structural)]
pub struct Call {
    /// Frame at which this instruction runs.
    pub time: u32,
    /// The instruction to run.
    pub instr: Instruction,
}

/// A stage.
#[derive(Debug, Clone)]
pub struct Stage {
    /// The name of the stage.
    pub name: String,
    /// The four music slots: (name, path), or nothing.
    pub musics: Vec<Option<(String, String)>>,
    /// List of models.
    pub models: Vec<Model>,
    /// List of instances.
    pub instances: Vec<Instance>,
    /// List of instructions in the script.
    pub script: Vec<Call>,
}

/// The instruction of opcode `opcode` whose twelve bytes of arguments start
/// at `i`.
pub open spec fn instruction_at(s: Seq<u8>, i: int, opcode: u16) -> Option<Instruction> {
    let a = u32_at(s, i);
    let b = u32_at(s, i + 4);
    let c = u32_at(s, i + 8);
    if opcode == 0 {
        Some(Instruction::SetViewpos(a, b, c))
    } else if opcode == 1 {
        Some(Instruction::SetFog(s[i + 2], s[i + 1], s[i], s[i + 3], b, c))
    } else if opcode == 2 {
        Some(Instruction::SetViewpos2(a, b, c))
    } else if opcode == 3 {
        Some(Instruction::StartInterpolatingViewpos2(a as i32, b as i32, c as i32))
    } else if opcode == 4 {
        Some(Instruction::StartInterpolatingFog(a as i32, b as i32, c as i32))
    } else if opcode == 5 {
        Some(Instruction::Unknown(a as i32, b as i32, c as i32))
    } else {
        None
    }
}

/// The timeline from offset `off` on, after `acc`: records of time (u32),
/// opcode (u16), size (u16, always 12) and arguments, up to a record of
/// time 0xFFFFFFFF, opcode and size 0xFFFF.
pub open spec fn script_from(s: Seq<u8>, off: int, acc: Seq<Call>) -> Result<Seq<Call>, ParseError>
    decreases s.len() - off,
{
    if !fits(s, off, 8) {
        Err(ParseError::Truncated)
    } else {
        let time = u32_at(s, off);
        let opcode = u16_at(s, off + 4);
        let size = u16_at(s, off + 6);
        if time == 0xffff_ffff && opcode == 0xffff && size == 0xffff {
            Ok(acc)
        } else if size != 12 {
            Err(ParseError::BadSize)
        } else if !fits(s, off + 8, 12) {
            Err(ParseError::Truncated)
        } else {
            match instruction_at(s, off + 8, opcode) {
                None => Err(ParseError::UnknownOpcode),
                Some(instr) => script_from(s, off + 20, acc.push(Call { time, instr })),
            }
        }
    }
}

/// The position made of three f32 at `i`.
pub open spec fn position_at(s: Seq<u8>, i: int) -> Position {
    Position { x: u32_at(s, i), y: u32_at(s, i + 4), z: u32_at(s, i + 8) }
}

/// The instances from offset `off` on, after `acc`: records of 16 bytes up
/// to one whose id and second field are both 0xFFFF; that field is 0x100
/// in every other record.
pub open spec fn instances_from(s: Seq<u8>, off: int, acc: Seq<Instance>) -> Result<
    Seq<Instance>,
    ParseError,
>
    decreases s.len() - off,
{
    if !fits(s, off, 16) {
        Err(ParseError::Truncated)
    } else {
        let id = u16_at(s, off);
        let unknown = u16_at(s, off + 2);
        if id == 0xffff && unknown == 0xffff {
            Ok(acc)
        } else if unknown != 0x100 {
            Err(ParseError::BadTag)
        } else {
            instances_from(s, off + 16, acc.push(Instance { id, pos: position_at(s, off + 4) }))
        }
    }
}

/// The quads of a model from offset `off` on, after `acc`: records of
/// 0x1C bytes up to one whose first field is 0xFFFF.
pub open spec fn quads_from(s: Seq<u8>, off: int, acc: Seq<Quad>) -> Result<Seq<Quad>, ParseError>
    decreases s.len() - off,
{
    if !fits(s, off, 4) {
        Err(ParseError::Truncated)
    } else if u16_at(s, off) == 0xffff {
        Ok(acc)
    } else if u16_at(s, off + 2) != 0x1c {
        Err(ParseError::BadSize)
    } else if !fits(s, off + 4, 24) {
        Err(ParseError::Truncated)
    } else if u16_at(s, off + 6) != 0 {
        Err(ParseError::BadTag)
    } else {
        quads_from(
            s,
            off + 28,
            acc.push(
                Quad {
                    anm_script: u16_at(s, off + 4),
                    pos: position_at(s, off + 8),
                    size_override: Box2D { width: u32_at(s, off + 20), height: u32_at(s, off + 24) },
                },
            ),
        )
    }
}

/// Whether `m` is the model at offset `off`: id and unknown (u16), six f32
/// of bounding box, then its quads.
pub open spec fn model_at(s: Seq<u8>, off: int, m: Model) -> bool {
    &&& fits(s, off, 28)
    &&& m.unknown == u16_at(s, off + 2)
    &&& m.bounding_box@ == Seq::new(6, |k: int| u32_at(s, off + 4 + 4 * k))
    &&& quads_from(s, off + 28, Seq::empty()) == Ok::<Seq<Quad>, ParseError>(m.quads@)
}

/// Whether the model at offset `off` can be read.
pub open spec fn model_ok(s: Seq<u8>, off: int) -> bool {
    fits(s, off, 28) && quads_from(s, off + 28, Seq::empty()) is Ok
}

/// Offset of the stage name; the four music names and the four music paths
/// follow, each a field of 128 bytes, then the model offsets.
pub open spec fn name_offset() -> int {
    16
}

/// The text of the 128-byte field at `off`.
pub open spec fn field_text(s: Seq<u8>, off: int) -> Seq<char> {
    shift_jis_decoded(until_nul(s.subrange(off, off + 128)))
}

/// Whether `s` holds a well-formed stage.
pub open spec fn stage_ok(s: Seq<u8>) -> bool {
    &&& fits(s, 0, 1168)
    &&& u32_at(s, 12) == 0
    &&& fits(s, 1168, 4 * u16_at(s, 0))
    &&& forall|k: int| 0 <= k < u16_at(s, 0) ==> model_ok(s, #[trigger] u32_at(s, 1168 + 4 * k) as int)
    &&& instances_from(s, u32_at(s, 4) as int, Seq::empty()) is Ok
    &&& script_from(s, u32_at(s, 8) as int, Seq::empty()) is Ok
}

fn parse_instruction(s: &[u8], i: usize, opcode: u16) -> (r: Option<Instruction>)
    requires
        fits(s@, i as int, 12),
        s@.len() <= usize::MAX,
    ensures
        r == instruction_at(s@, i as int, opcode),
{
    let a = read_u32(s, i).unwrap();
    let b = read_u32(s, i + 4).unwrap();
    let c = read_u32(s, i + 8).unwrap();
    if opcode == 0 {
        Some(Instruction::SetViewpos(a, b, c))
    } else if opcode == 1 {
        Some(Instruction::SetFog(s[i + 2], s[i + 1], s[i], s[i + 3], b, c))
    } else if opcode == 2 {
        Some(Instruction::SetViewpos2(a, b, c))
    } else if opcode == 3 {
        Some(Instruction::StartInterpolatingViewpos2(a as i32, b as i32, c as i32))
    } else if opcode == 4 {
        Some(Instruction::StartInterpolatingFog(a as i32, b as i32, c as i32))
    } else if opcode == 5 {
        Some(Instruction::Unknown(a as i32, b as i32, c as i32))
    } else {
        None
    }
}

fn parse_script(s: &[u8], offset: usize) -> (r: Result<Vec<Call>, ParseError>)
    ensures
        match script_from(s@, offset as int, Seq::empty()) {
            Ok(v) => r matches Ok(w) && w@ == v,
            Err(e) => r == Err::<Vec<Call>, ParseError>(e),
        },
{
    let mut script: Vec<Call> = Vec::new();
    let mut off = offset;
    loop
        invariant
            script_from(s@, offset as int, Seq::empty()) == script_from(s@, off as int, script@),
        decreases s@.len() - off,
    {
        if !in_bounds(s, off, 8) {
            return Err(ParseError::Truncated);
        }
        let time = read_u32(s, off).unwrap();
        let opcode = read_u16(s, off + 4).unwrap();
        let size = read_u16(s, off + 6).unwrap();
        if time == 0xffff_ffff && opcode == 0xffff && size == 0xffff {
            return Ok(script);
        }
        if size != 12 {
            return Err(ParseError::BadSize);
        }
        if !in_bounds(s, off + 8, 12) {
            return Err(ParseError::Truncated);
        }
        let instr = match parse_instruction(s, off + 8, opcode) {
            Some(instr) => instr,
            None => {
                return Err(ParseError::UnknownOpcode);
            },
        };
        script.push(Call { time, instr });
        off = off + 20;
    }
}

fn parse_instances(s: &[u8], offset: usize) -> (r: Result<Vec<Instance>, ParseError>)
    ensures
        match instances_from(s@, offset as int, Seq::empty()) {
            Ok(v) => r matches Ok(w) && w@ == v,
            Err(e) => r == Err::<Vec<Instance>, ParseError>(e),
        },
{
    let mut instances: Vec<Instance> = Vec::new();
    let mut off = offset;
    loop
        invariant
            instances_from(s@, offset as int, Seq::empty()) == instances_from(
                s@,
                off as int,
                instances@,
            ),
        decreases s@.len() - off,
    {
        if !in_bounds(s, off, 16) {
            return Err(ParseError::Truncated);
        }
        let id = read_u16(s, off).unwrap();
        let unknown = read_u16(s, off + 2).unwrap();
        if id == 0xffff && unknown == 0xffff {
            return Ok(instances);
        }
        if unknown != 0x100 {
            return Err(ParseError::BadTag);
        }
        let pos = Position {
            x: read_u32(s, off + 4).unwrap(),
            y: read_u32(s, off + 8).unwrap(),
            z: read_u32(s, off + 12).unwrap(),
        };
        instances.push(Instance { id, pos });
        off = off + 16;
    }
}

fn parse_quads(s: &[u8], offset: usize) -> (r: Result<Vec<Quad>, ParseError>)
    ensures
        match quads_from(s@, offset as int, Seq::empty()) {
            Ok(v) => r matches Ok(w) && w@ == v,
            Err(e) => r == Err::<Vec<Quad>, ParseError>(e),
        },
{
    let mut quads: Vec<Quad> = Vec::new();
    let mut off = offset;
    loop
        invariant
            quads_from(s@, offset as int, Seq::empty()) == quads_from(s@, off as int, quads@),
        decreases s@.len() - off,
    {
        if !in_bounds(s, off, 4) {
            return Err(ParseError::Truncated);
        }
        if read_u16(s, off).unwrap() == 0xffff {
            return Ok(quads);
        }
        if read_u16(s, off + 2).unwrap() != 0x1c {
            return Err(ParseError::BadSize);
        }
        if !in_bounds(s, off + 4, 24) {
            return Err(ParseError::Truncated);
        }
        if read_u16(s, off + 6).unwrap() != 0 {
            return Err(ParseError::BadTag);
        }
        let quad = Quad {
            anm_script: read_u16(s, off + 4).unwrap(),
            pos: Position {
                x: read_u32(s, off + 8).unwrap(),
                y: read_u32(s, off + 12).unwrap(),
                z: read_u32(s, off + 16).unwrap(),
            },
            size_override: Box2D {
                width: read_u32(s, off + 20).unwrap(),
                height: read_u32(s, off + 24).unwrap(),
            },
        };
        quads.push(quad);
        off = off + 28;
    }
}

fn parse_model(s: &[u8], offset: usize) -> (r: Result<Model, ParseError>)
    ensures
        r is Ok <==> model_ok(s@, offset as int),
        r matches Ok(m) ==> model_at(s@, offset as int, m),
{
    if !in_bounds(s, offset, 28) {
        return Err(ParseError::Truncated);
    }
    let unknown = read_u16(s, offset + 2).unwrap();
    let mut bounding_box: Vec<u32> = Vec::new();
    let mut k: usize = 0;
    while k < 6
        invariant
            fits(s@, offset as int, 28),
            s@.len() <= usize::MAX,
            k <= 6,
            bounding_box@.len() == k,
            forall|j: int| 0 <= j < k ==> bounding_box@[j] == u32_at(s@, offset + 4 + 4 * j),
        decreases 6 - k,
    {
        bounding_box.push(read_u32(s, offset + 4 + 4 * k).unwrap());
        k = k + 1;
    }
    assert(bounding_box@ =~= Seq::new(6, |j: int| u32_at(s@, offset + 4 + 4 * j)));
    let quads = parse_quads(s, offset + 28)?;
    Ok(Model { unknown, bounding_box, quads })
}

/// Whether the 128-byte music name field at `off` holds a single space.
fn is_blank_slot(s: &[u8], off: usize) -> (r: bool)
    requires
        fits(s@, off as int, 128),
    ensures
        r == (until_nul(s@.subrange(off as int, off + 128)) == seq![0x20u8]),
{
    let ghost f = s@.subrange(off as int, off + 128);
    assert(f.drop_first()[0] == f[1]);
    assert(until_nul(f) == seq![0x20u8] <==> f[0] == 0x20 && f[1] == 0) by {
        if f[0] == 0 {
            assert(until_nul(f).len() == 0);
        } else {
            let rest = until_nul(f.drop_first());
            assert(until_nul(f) == seq![f[0]] + rest);
            assert((seq![f[0]] + rest)[0] == f[0]);
            if f[1] == 0 {
                assert(rest.len() == 0);
                assert(seq![f[0]] + rest =~= seq![f[0]]);
            } else {
                assert(rest == seq![f[1]] + until_nul(f.drop_first().drop_first()));
                assert((seq![f[0]] + rest).len() >= 2);
            }
        }
    }
    s[off] == 0x20 && s[off + 1] == 0
}

impl Stage {
    /// Parse a slice of bytes into a `Stage`.
    pub fn from_slice(data: &[u8]) -> (r: Result<Stage, ParseError>)
        ensures
            r is Ok <==> stage_ok(data@),
            r matches Ok(st) ==> {
                &&& st.name@ == field_text(data@, name_offset())
                &&& st.musics@.len() == 4
                &&& forall|k: int|
                    0 <= k < 4 ==> (#[trigger] st.musics@[k] is None <==> until_nul(
                        data@.subrange(144 + 128 * k, 272 + 128 * k),
                    ) == seq![0x20u8])
                &&& forall|k: int|
                    0 <= k < 4 ==> (#[trigger] st.musics@[k] matches Some((n, p)) ==> n@
                        == field_text(data@, 144 + 128 * k) && p@ == field_text(
                        data@,
                        656 + 128 * k,
                    ))
                &&& st.models@.len() == u16_at(data@, 0)
                &&& forall|k: int|
                    0 <= k < st.models@.len() ==> model_at(
                        data@,
                        u32_at(data@, 1168 + 4 * k) as int,
                        #[trigger] st.models@[k],
                    )
                &&& instances_from(data@, u32_at(data@, 4) as int, Seq::empty()) == Ok::<
                    Seq<Instance>,
                    ParseError,
                >(st.instances@)
                &&& script_from(data@, u32_at(data@, 8) as int, Seq::empty()) == Ok::<
                    Seq<Call>,
                    ParseError,
                >(st.script@)
            },
    {
        if !in_bounds(data, 0, 1168) {
            return Err(ParseError::Truncated);
        }
        let num_models = read_u16(data, 0).unwrap();
        let instances_offset = read_u32(data, 4).unwrap();
        let script_offset = read_u32(data, 8).unwrap();
        if read_u32(data, 12).unwrap() != 0 {
            return Err(ParseError::BadTag);
        }
        let name = decode_field(&data[16..144]);
        assert(data@.subrange(16, 144) == data@.subrange(name_offset(), name_offset() + 128));
        let mut musics: Vec<Option<(String, String)>> = Vec::new();
        let mut k: usize = 0;
        while k < 4
            invariant
                fits(data@, 0, 1168),
                k <= 4,
                musics@.len() == k,
                forall|j: int|
                    0 <= j < k ==> (#[trigger] musics@[j] is None <==> until_nul(
                        data@.subrange(144 + 128 * j, 272 + 128 * j),
                    ) == seq![0x20u8]),
                forall|j: int|
                    0 <= j < k ==> (#[trigger] musics@[j] matches Some((n, p)) ==> n@
                        == field_text(data@, 144 + 128 * j) && p@ == field_text(
                        data@,
                        656 + 128 * j,
                    )),
            decreases 4 - k,
        {
            let name_at = 144 + 128 * k;
            let path_at = 656 + 128 * k;
            if is_blank_slot(data, name_at) {
                musics.push(None);
            } else {
                let music_name = decode_field(&data[name_at..name_at + 128]);
                let music_path = decode_field(&data[path_at..path_at + 128]);
                musics.push(Some((music_name, music_path)));
            }
            k = k + 1;
        }
        if !in_bounds(data, 1168, 4 * num_models as usize) {
            return Err(ParseError::Truncated);
        }
        let mut models: Vec<Model> = Vec::new();
        let mut m: usize = 0;
        while m < num_models as usize
            invariant
                fits(data@, 1168, 4 * num_models),
                num_models == u16_at(data@, 0),
                m <= num_models,
                models@.len() == m,
                forall|j: int|
                    0 <= j < m ==> model_at(
                        data@,
                        u32_at(data@, 1168 + 4 * j) as int,
                        #[trigger] models@[j],
                    ),
                forall|j: int| 0 <= j < m ==> model_ok(data@, #[trigger] u32_at(data@, 1168 + 4 * j) as int),
            decreases num_models - m,
        {
            let offset = read_u32(data, 1168 + 4 * m).unwrap();
            let model = match parse_model(data, offset as usize) {
                Ok(model) => model,
                Err(e) => {
                    return Err(e);
                },
            };
            models.push(model);
            m = m + 1;
        }
        let instances = parse_instances(data, instances_offset as usize)?;
        let script = parse_script(data, script_offset as usize)?;
        Ok(Stage { name, musics, models, instances, script })
    }
}

} // verus!
