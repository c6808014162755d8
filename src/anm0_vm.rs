//! Animation runner: interprets an ANM script, frame by frame, on a sprite.
//!
//! Floating-point fields are f32 bits. What needs floating-point arithmetic
//! (rotation and scale speeds, sampling the interpolators, texture shifts)
//! is left to the caller, who applies it after each frame.

use crate::anm0;
use crate::anm0::{Anm0, Call, Instruction, Script};
use crate::interpolator::{Formula, Interpolator1, Interpolator2, Interpolator3, Vec2, Vec3};
use crate::stage_vm::Rgba;
use vstd::prelude::*;

verus! {

/// The bits of the f32 1.0.
pub const ONE: u32 = 0x3f80_0000;

/// Most instructions one runner runs in one frame; a script that runs more
/// (a jump loop that never waits) is stopped.
pub const MAX_STEPS_PER_FRAME: u32 = 0x1_0000;

/// A rectangle in the texture, as f32 bits.
#[derive(Debug, Clone, Copy, PartialEq, Eq, Structural)]
pub struct Rect {
    pub x: u32,
    pub y: u32,
    pub width: u32,
    pub height: u32,
}

/// Base visual element.
#[derive(Debug, Clone, Copy, PartialEq, Eq, Structural)]
pub struct Sprite {
    /// 0 for additive blending, 1 for alpha blending.
    pub blendfunc: u32,
    pub frame: u16,
    pub width_override: u32,
    pub height_override: u32,
    pub angle: u32,
    pub removed: bool,
    pub changed: bool,
    pub visible: bool,
    pub force_rotation: bool,
    pub automatic_orientation: bool,
    pub allow_dest_offset: bool,
    pub mirrored: bool,
    pub corner_relative_placement: bool,
    pub scale_interpolator: Option<Interpolator2>,
    /// Interpolates the alpha byte; its values are plain integers.
    pub fade_interpolator: Option<Interpolator1>,
    pub offset_interpolator: Option<Interpolator3>,
    pub rotation_interpolator: Option<Interpolator3>,
    pub color_interpolator: Option<Interpolator3>,
    pub dest_offset: Vec3,
    pub texcoords: Rect,
    pub texoffsets: Vec2,
    pub rescale: Vec2,
    pub scale_speed: Vec2,
    pub rotations_3d: Vec3,
    pub rotations_speed_3d: Vec3,
    pub color: Rgba,
}

/// A texture offset to add to the sprite's `texoffsets` (f32 bits).
#[derive(Debug, Clone, Copy, PartialEq, Eq, Structural)]
pub enum TextureShift {
    X(u32),
    Y(u32),
}

/// The state of a runner that its instructions change.
#[derive(Debug, Clone, Copy, PartialEq, Eq, Structural)]
pub struct AnmState {
    pub sprite: Sprite,
    pub running: bool,
    pub instruction_pointer: usize,
    /// The runner's clock.
    pub frame: u16,
    pub waiting: bool,
    pub timeout: Option<u16>,
}

/// Interpreter for `Anm0` scripts, updating a `Sprite`.
pub struct AnmRunner {
    /// The sprite table of the animation file.
    pub table: Vec<anm0::Sprite>,
    /// The script being run.
    pub script: Script,
    /// Added to sprite numbers while the first frame runs.
    pub sprite_index_offset: u32,
    pub state: AnmState,
    /// Texture shifts run so far, for the caller to apply.
    pub texture_shifts: Vec<TextureShift>,
}

impl Sprite {
    /// A fresh sprite: visible, changed, unit scale, opaque white.
    pub open spec fn fresh(width_override: u32, height_override: u32) -> Sprite {
        Sprite {
            blendfunc: 0,
            frame: 0,
            width_override,
            height_override,
            angle: 0,
            removed: false,
            changed: true,
            visible: true,
            force_rotation: false,
            automatic_orientation: false,
            allow_dest_offset: false,
            mirrored: false,
            corner_relative_placement: false,
            scale_interpolator: None,
            fade_interpolator: None,
            offset_interpolator: None,
            rotation_interpolator: None,
            color_interpolator: None,
            dest_offset: Vec3 { x: 0, y: 0, z: 0 },
            texcoords: Rect { x: 0, y: 0, width: 0, height: 0 },
            texoffsets: Vec2 { x: 0, y: 0 },
            rescale: Vec2 { x: ONE, y: ONE },
            scale_speed: Vec2 { x: 0, y: 0 },
            rotations_3d: Vec3 { x: 0, y: 0, z: 0 },
            rotations_speed_3d: Vec3 { x: 0, y: 0, z: 0 },
            color: Rgba { r: 255, g: 255, b: 255, a: 255 },
        }
    }

    /// Create a new sprite.
    pub fn new(width_override: u32, height_override: u32) -> (r: Sprite)
        ensures
            r == Sprite::fresh(width_override, height_override),
    {
        Sprite {
            blendfunc: 0,
            frame: 0,
            width_override,
            height_override,
            angle: 0,
            removed: false,
            changed: true,
            visible: true,
            force_rotation: false,
            automatic_orientation: false,
            allow_dest_offset: false,
            mirrored: false,
            corner_relative_placement: false,
            scale_interpolator: None,
            fade_interpolator: None,
            offset_interpolator: None,
            rotation_interpolator: None,
            color_interpolator: None,
            dest_offset: Vec3 { x: 0, y: 0, z: 0 },
            texcoords: Rect { x: 0, y: 0, width: 0, height: 0 },
            texoffsets: Vec2 { x: 0, y: 0 },
            rescale: Vec2 { x: ONE, y: ONE },
            scale_speed: Vec2 { x: 0, y: 0 },
            rotations_3d: Vec3 { x: 0, y: 0, z: 0 },
            rotations_speed_3d: Vec3 { x: 0, y: 0, z: 0 },
            color: Rgba { r: 255, g: 255, b: 255, a: 255 },
        }
    }
}

/// Loads sprite `index + offset` of the table, or stops the runner where
/// the table has no such sprite.
pub open spec fn load_sprite(st: AnmState, index: u32, table: Seq<anm0::Sprite>, offset: u32) -> AnmState {
    let i = index as int + offset as int;
    if i < table.len() {
        AnmState {
            sprite: Sprite {
                texcoords: Rect {
                    x: table[i].x,
                    y: table[i].y,
                    width: table[i].width,
                    height: table[i].height,
                },
                ..st.sprite
            },
            ..st
        }
    } else {
        AnmState { running: false, ..st }
    }
}

/// The state after one instruction.
pub open spec fn exec_instr(
    st: AnmState,
    instr: Instruction,
    script: Seq<Call>,
    table: Seq<anm0::Sprite>,
    offset: u32,
) -> AnmState {
    let sp = st.sprite;
    match instr {
        Instruction::Delete => AnmState {
            sprite: Sprite { removed: true, ..sp },
            running: false,
            ..st
        },
        Instruction::LoadSprite(i) => load_sprite(st, i, table, offset),
        Instruction::SetScale(x, y) => AnmState {
            sprite: Sprite { rescale: Vec2 { x, y }, ..sp },
            ..st
        },
        Instruction::SetAlpha(a) => AnmState {
            sprite: Sprite { color: Rgba { a: (a % 256) as u8, ..sp.color }, ..sp },
            ..st
        },
        Instruction::SetColor(r, g, b) => if sp.fade_interpolator is None {
            AnmState { sprite: Sprite { color: Rgba { r, g, b, a: sp.color.a }, ..sp }, ..st }
        } else {
            st
        },
        Instruction::Jump(p) => if (p as int) < script.len() {
            AnmState { instruction_pointer: p as usize, frame: script[p as int].time, ..st }
        } else {
            AnmState { instruction_pointer: p as usize, running: false, ..st }
        },
        Instruction::ToggleMirrored => AnmState {
            sprite: Sprite { mirrored: !sp.mirrored, ..sp },
            ..st
        },
        Instruction::SetRotations3d(x, y, z) => AnmState {
            sprite: Sprite { rotations_3d: Vec3 { x, y, z }, ..sp },
            ..st
        },
        Instruction::SetRotationsSpeed3d(x, y, z) => AnmState {
            sprite: Sprite { rotations_speed_3d: Vec3 { x, y, z }, ..sp },
            ..st
        },
        Instruction::SetScaleSpeed(x, y) => AnmState {
            sprite: Sprite { scale_speed: Vec2 { x, y }, ..sp },
            ..st
        },
        Instruction::Fade(a, d) => AnmState {
            sprite: Sprite {
                fade_interpolator: Some(
                    Interpolator1 {
                        start_values: sp.color.a as u32,
                        end_values: a,
                        start_frame: sp.frame,
                        end_frame: sp.frame.wrapping_add(d as u16),
                        formula: Formula::Linear,
                    },
                ),
                ..sp
            },
            ..st
        },
        Instruction::SetBlendmodeAdd => AnmState { sprite: Sprite { blendfunc: 0, ..sp }, ..st },
        Instruction::SetBlendmodeAlphablend => AnmState {
            sprite: Sprite { blendfunc: 1, ..sp },
            ..st
        },
        Instruction::KeepStill => AnmState { running: false, ..st },
        Instruction::LoadRandomSprite(min, _) => load_sprite(st, min, table, offset),
        Instruction::Move(x, y, z) => AnmState {
            sprite: Sprite { dest_offset: Vec3 { x, y, z }, ..sp },
            ..st
        },
        Instruction::MoveToLinear(x, y, z, d) => move_to(st, Vec3 { x, y, z }, d, Formula::Linear),
        Instruction::MoveToDecel(x, y, z, d) => move_to(
            st,
            Vec3 { x, y, z },
            d,
            Formula::InvertPower2,
        ),
        Instruction::MoveToAccel(x, y, z, d) => move_to(st, Vec3 { x, y, z }, d, Formula::Power2),
        Instruction::Wait => AnmState { waiting: true, ..st },
        Instruction::InterruptLabel(_) => st,
        Instruction::SetCornerRelativePlacement => AnmState {
            sprite: Sprite { corner_relative_placement: true, ..sp },
            ..st
        },
        Instruction::WaitEx => AnmState {
            sprite: Sprite { visible: false, ..sp },
            waiting: true,
            ..st
        },
        Instruction::SetAllowOffset(v) => AnmState {
            sprite: Sprite { allow_dest_offset: v == 1, ..sp },
            ..st
        },
        Instruction::SetAutomaticOrientation(v) => AnmState {
            sprite: Sprite { automatic_orientation: v == 1, ..sp },
            ..st
        },
        Instruction::ShiftTextureX(_) => st,
        Instruction::ShiftTextureY(_) => st,
        Instruction::SetVisible(v) => AnmState {
            sprite: Sprite { visible: v % 2 == 1, ..sp },
            ..st
        },
        Instruction::ScaleIn(x, y, d) => AnmState {
            sprite: Sprite {
                scale_interpolator: Some(
                    Interpolator2 {
                        start_values: sp.rescale,
                        end_values: Vec2 { x, y },
                        start_frame: sp.frame,
                        end_frame: sp.frame.wrapping_add(d as u16),
                        formula: Formula::Linear,
                    },
                ),
                ..sp
            },
            ..st
        },
        Instruction::Unknown31(_) => st,
    }
}

/// Installs a move of the destination offset to `to` over `d` frames.
pub open spec fn move_to(st: AnmState, to: Vec3, d: u32, formula: Formula) -> AnmState {
    AnmState {
        sprite: Sprite {
            offset_interpolator: Some(
                Interpolator3 {
                    start_values: st.sprite.dest_offset,
                    end_values: to,
                    start_frame: st.sprite.frame,
                    end_frame: st.sprite.frame.wrapping_add(d as u16),
                    formula,
                },
            ),
            ..st.sprite
        },
        ..st
    }
}

/// The texture shift an instruction asks for.
pub open spec fn shift_of(instr: Instruction) -> Seq<TextureShift> {
    match instr {
        Instruction::ShiftTextureX(d) => seq![TextureShift::X(d)],
        Instruction::ShiftTextureY(d) => seq![TextureShift::Y(d)],
        _ => Seq::empty(),
    }
}

/// The dispatch loop of a frame, with `fuel` steps left: while the runner
/// runs and does not wait, take the instruction at the instruction pointer;
/// stop at one due later; step over it, and run it if it is due now. Past
/// the last instruction, or out of fuel, the runner stops. The state at the
/// end, and the texture shifts run.
pub open spec fn dispatch(
    st: AnmState,
    script: Seq<Call>,
    table: Seq<anm0::Sprite>,
    offset: u32,
    fuel: nat,
) -> (AnmState, Seq<TextureShift>)
    decreases fuel,
{
    if !st.running || st.waiting {
        (st, Seq::empty())
    } else if st.instruction_pointer >= script.len() || fuel == 0 {
        (AnmState { running: false, ..st }, Seq::empty())
    } else {
        let call = script[st.instruction_pointer as int];
        if call.time > st.frame {
            (st, Seq::empty())
        } else {
            let st1 = AnmState { instruction_pointer: (st.instruction_pointer + 1) as usize, ..st };
            if call.time == st.frame {
                let st2 = exec_instr(st1, call.instr, script, table, offset);
                let st3 = AnmState { sprite: Sprite { changed: true, ..st2.sprite }, ..st2 };
                let (fin, shifts) = dispatch(st3, script, table, offset, (fuel - 1) as nat);
                (fin, shift_of(call.instr) + shifts)
            } else {
                dispatch(st1, script, table, offset, (fuel - 1) as nat)
            }
        }
    }
}

/// The end of a frame: the clock advances unless the runner waits (a wait
/// with a timeout ends when the sprite reaches it), and the sprite's own
/// frame counter advances.
pub open spec fn clock(st: AnmState) -> AnmState {
    let st1 = if !st.waiting {
        AnmState { frame: st.frame.wrapping_add(1), ..st }
    } else if st.timeout == Some(st.sprite.frame) {
        AnmState { waiting: false, ..st }
    } else {
        st
    };
    AnmState { sprite: Sprite { frame: st1.sprite.frame.wrapping_add(1), ..st1.sprite }, ..st1 }
}

/// The target of interrupt `label` in `interrupts`: the last entry of that
/// label.
pub open spec fn label_target(interrupts: Seq<(i32, u32)>, label: i32) -> Option<u32>
    decreases interrupts.len(),
{
    if interrupts.len() == 0 {
        None
    } else if interrupts.last().0 == label {
        Some(interrupts.last().1)
    } else {
        label_target(interrupts.drop_last(), label)
    }
}

/// The index of the last script of number `id`.
pub open spec fn script_index(scripts: Seq<(u8, Script)>, id: u8) -> Option<int>
    decreases scripts.len(),
{
    if scripts.len() == 0 {
        None
    } else if scripts.last().0 == id {
        Some(scripts.len() - 1)
    } else {
        script_index(scripts.drop_last(), id)
    }
}

/// The state of a runner before its first frame.
pub open spec fn initial_state(sprite: Sprite) -> AnmState {
    AnmState {
        sprite,
        running: true,
        instruction_pointer: 0,
        frame: 0,
        waiting: false,
        timeout: None,
    }
}

/// A copy of `v`.
pub fn copy_vec<T: Copy>(v: &Vec<T>) -> (r: Vec<T>)
    ensures
        r@ == v@,
{
    let mut out: Vec<T> = Vec::new();
    let mut i: usize = 0;
    while i < v.len()
        invariant
            i <= v@.len(),
            out@ == v@.subrange(0, i as int),
        decreases v.len() - i,
    {
        out.push(v[i]);
        i = i + 1;
        assert(out@ =~= v@.subrange(0, i as int));
    }
    assert(v@.subrange(0, v@.len() as int) =~= v@);
    out
}

/// The instructions that touch neither the script, the sprite table nor
/// the texture shifts.
fn sprite_step(st: AnmState, instruction: Instruction) -> (r: AnmState)
    requires
        !(instruction is LoadSprite || instruction is LoadRandomSprite || instruction is Jump
            || instruction is ShiftTextureX || instruction is ShiftTextureY),
    ensures
        r == exec_instr(st, instruction, Seq::empty(), Seq::empty(), 0),
{
    let sp = st.sprite;
    match instruction {
        Instruction::Delete => AnmState { sprite: Sprite { removed: true, ..sp }, running: false, ..st },
        Instruction::SetScale(x, y) => AnmState { sprite: Sprite { rescale: Vec2 { x, y }, ..sp }, ..st },
        Instruction::SetAlpha(a) => AnmState {
            sprite: Sprite { color: Rgba { a: (a % 256) as u8, ..sp.color }, ..sp },
            ..st
        },
        Instruction::SetColor(r, g, b) => if sp.fade_interpolator.is_none() {
            AnmState { sprite: Sprite { color: Rgba { r, g, b, a: sp.color.a }, ..sp }, ..st }
        } else {
            st
        },
        Instruction::ToggleMirrored => AnmState { sprite: Sprite { mirrored: !sp.mirrored, ..sp }, ..st },
        Instruction::SetRotations3d(x, y, z) => AnmState {
            sprite: Sprite { rotations_3d: Vec3 { x, y, z }, ..sp },
            ..st
        },
        Instruction::SetRotationsSpeed3d(x, y, z) => AnmState {
            sprite: Sprite { rotations_speed_3d: Vec3 { x, y, z }, ..sp },
            ..st
        },
        Instruction::SetScaleSpeed(x, y) => AnmState {
            sprite: Sprite { scale_speed: Vec2 { x, y }, ..sp },
            ..st
        },
        Instruction::Fade(a, d) => AnmState {
            sprite: Sprite {
                fade_interpolator: Some(
                    Interpolator1::new(
                        sp.color.a as u32,
                        sp.frame,
                        a,
                        sp.frame.wrapping_add(d as u16),
                        Formula::Linear,
                    ),
                ),
                ..sp
            },
            ..st
        },
        Instruction::SetBlendmodeAdd => AnmState { sprite: Sprite { blendfunc: 0, ..sp }, ..st },
        Instruction::SetBlendmodeAlphablend => AnmState { sprite: Sprite { blendfunc: 1, ..sp }, ..st },
        Instruction::KeepStill => AnmState { running: false, ..st },
        Instruction::Move(x, y, z) => AnmState {
            sprite: Sprite { dest_offset: Vec3 { x, y, z }, ..sp },
            ..st
        },
        Instruction::MoveToLinear(x, y, z, d) => move_to_exec(st, Vec3 { x, y, z }, d, Formula::Linear),
        Instruction::MoveToDecel(x, y, z, d) => move_to_exec(
            st,
            Vec3 { x, y, z },
            d,
            Formula::InvertPower2,
        ),
        Instruction::MoveToAccel(x, y, z, d) => move_to_exec(st, Vec3 { x, y, z }, d, Formula::Power2),
        Instruction::Wait => AnmState { waiting: true, ..st },
        Instruction::SetCornerRelativePlacement => AnmState {
            sprite: Sprite { corner_relative_placement: true, ..sp },
            ..st
        },
        Instruction::WaitEx => AnmState { sprite: Sprite { visible: false, ..sp }, waiting: true, ..st },
        Instruction::SetAllowOffset(v) => AnmState {
            sprite: Sprite { allow_dest_offset: v == 1, ..sp },
            ..st
        },
        Instruction::SetAutomaticOrientation(v) => AnmState {
            sprite: Sprite { automatic_orientation: v == 1, ..sp },
            ..st
        },
        Instruction::SetVisible(v) => AnmState { sprite: Sprite { visible: v % 2 == 1, ..sp }, ..st },
        Instruction::ScaleIn(x, y, d) => AnmState {
            sprite: Sprite {
                scale_interpolator: Some(
                    Interpolator2::new(
                        sp.rescale,
                        sp.frame,
                        Vec2 { x, y },
                        sp.frame.wrapping_add(d as u16),
                        Formula::Linear,
                    ),
                ),
                ..sp
            },
            ..st
        },
        _ => st,
    }
}

fn move_to_exec(st: AnmState, to: Vec3, d: u32, formula: Formula) -> (r: AnmState)
    ensures
        r == move_to(st, to, d, formula),
{
    AnmState {
        sprite: Sprite {
            offset_interpolator: Some(
                Interpolator3::new(
                    st.sprite.dest_offset,
                    st.sprite.frame,
                    to,
                    st.sprite.frame.wrapping_add(d as u16),
                    formula,
                ),
            ),
            ..st.sprite
        },
        ..st
    }
}

fn find_label(interrupts: &Vec<(i32, u32)>, label: i32) -> (r: Option<u32>)
    ensures
        r == label_target(interrupts@, label),
{
    let mut i: usize = interrupts.len();
    assert(interrupts@.subrange(0, i as int) =~= interrupts@);
    while i > 0
        invariant
            i <= interrupts@.len(),
            label_target(interrupts@, label) == label_target(interrupts@.subrange(0, i as int), label),
        decreases i,
    {
        let ghost pre = interrupts@.subrange(0, i as int);
        assert(pre.drop_last() =~= interrupts@.subrange(0, i - 1));
        if interrupts[i - 1].0 == label {
            return Some(interrupts[i - 1].1);
        }
        i = i - 1;
    }
    None
}

fn find_script(scripts: &Vec<(u8, Script)>, id: u8) -> (r: Option<usize>)
    ensures
        match script_index(scripts@, id) {
            Some(k) => r matches Some(j) && j as int == k && j < scripts@.len(),
            None => r is None,
        },
{
    let mut i: usize = scripts.len();
    assert(scripts@.subrange(0, i as int) =~= scripts@);
    while i > 0
        invariant
            i <= scripts@.len(),
            script_index(scripts@, id) == script_index(scripts@.subrange(0, i as int), id),
        decreases i,
    {
        let ghost pre = scripts@.subrange(0, i as int);
        assert(pre.drop_last() =~= scripts@.subrange(0, i - 1));
        if scripts[i - 1].0 == id {
            return Some(i - 1);
        }
        i = i - 1;
    }
    None
}

impl AnmRunner {
    fn load_sprite(&mut self, index: u32)
        ensures
            final(self).state == load_sprite(
                old(self).state,
                index,
                old(self).table@,
                old(self).sprite_index_offset,
            ),
            final(self).table == old(self).table,
            final(self).script == old(self).script,
            final(self).sprite_index_offset == old(self).sprite_index_offset,
            final(self).texture_shifts == old(self).texture_shifts,
    {
        let i = index as u64 + self.sprite_index_offset as u64;
        if i < self.table.len() as u64 {
            let t = self.table[i as usize];
            self.state.sprite.texcoords = Rect { x: t.x, y: t.y, width: t.width, height: t.height };
        } else {
            self.state.running = false;
        }
    }

    fn run_instruction(&mut self, instruction: Instruction)
        ensures
            final(self).state == exec_instr(
                old(self).state,
                instruction,
                old(self).script.instructions@,
                old(self).table@,
                old(self).sprite_index_offset,
            ),
            final(self).texture_shifts@ == old(self).texture_shifts@ + shift_of(instruction),
            final(self).table == old(self).table,
            final(self).script == old(self).script,
            final(self).sprite_index_offset == old(self).sprite_index_offset,
    {
        match instruction {
            Instruction::LoadSprite(index) => {
                self.load_sprite(index);
            },
            Instruction::LoadRandomSprite(min_index, _amplitude) => {
                self.load_sprite(min_index);
            },
            Instruction::Jump(pointer) => {
                self.state.instruction_pointer = pointer as usize;
                if (pointer as usize) < self.script.instructions.len() {
                    self.state.frame = self.script.instructions[pointer as usize].time;
                } else {
                    self.state.running = false;
                }
            },
            Instruction::ShiftTextureX(dx) => {
                self.texture_shifts.push(TextureShift::X(dx));
            },
            Instruction::ShiftTextureY(dy) => {
                self.texture_shifts.push(TextureShift::Y(dy));
            },
            _ => {
                self.state = sprite_step(self.state, instruction);
            },
        }
        assert(self.texture_shifts@ =~= old(self).texture_shifts@ + shift_of(instruction));
    }


    /// One turn of the dispatch loop, with `fuel` steps left; true where the
    /// loop ends there.
    fn step(&mut self, fuel: u32) -> (done: bool)
        ensures
            final(self).table == old(self).table,
            final(self).script == old(self).script,
            final(self).sprite_index_offset == old(self).sprite_index_offset,
            ({
                let d = dispatch(
                    old(self).state,
                    old(self).script.instructions@,
                    old(self).table@,
                    old(self).sprite_index_offset,
                    fuel as nat,
                );
                if done {
                    d.0 == final(self).state && old(self).texture_shifts@ + d.1
                        == final(self).texture_shifts@
                } else {
                    let e = dispatch(
                        final(self).state,
                        old(self).script.instructions@,
                        old(self).table@,
                        old(self).sprite_index_offset,
                        (fuel - 1) as nat,
                    );
                    &&& fuel > 0
                    &&& d.0 == e.0
                    &&& old(self).texture_shifts@ + d.1 == final(self).texture_shifts@ + e.1
                }
            }),
    {
        let ghost script = self.script.instructions@;
        let ghost table = self.table@;
        let ghost offset = self.sprite_index_offset;
        if !self.state.running || self.state.waiting {
            assert(self.texture_shifts@ + Seq::<TextureShift>::empty() =~= self.texture_shifts@);
            return true;
        }
        if self.state.instruction_pointer >= self.script.instructions.len() || fuel == 0 {
            self.state.running = false;
            assert(self.texture_shifts@ + Seq::<TextureShift>::empty() =~= self.texture_shifts@);
            return true;
        }
        let call = self.script.instructions[self.state.instruction_pointer];
        if call.time > self.state.frame {
            assert(self.texture_shifts@ + Seq::<TextureShift>::empty() =~= self.texture_shifts@);
            return true;
        }
        self.state.instruction_pointer = self.state.instruction_pointer + 1;
        if call.time == self.state.frame {
            let ghost before = self.texture_shifts@;
            self.run_instruction(call.instr);
            self.state.sprite.changed = true;
            let ghost rest = dispatch(self.state, script, table, offset, (fuel - 1) as nat).1;
            assert(before + (shift_of(call.instr) + rest) =~= self.texture_shifts@ + rest);
        }
        false
    }

    /// Advance the animation of a single frame; returns whether the runner
    /// still runs. A stopped runner does nothing.
    pub fn run_frame(&mut self) -> (r: bool)
        ensures
            final(self).table == old(self).table,
            final(self).script == old(self).script,
            final(self).sprite_index_offset == old(self).sprite_index_offset,
            !old(self).state.running ==> !r && final(self).state == old(self).state
                && final(self).texture_shifts == old(self).texture_shifts,
            old(self).state.running ==> ({
                let (st, shifts) = dispatch(
                    old(self).state,
                    old(self).script.instructions@,
                    old(self).table@,
                    old(self).sprite_index_offset,
                    MAX_STEPS_PER_FRAME as nat,
                );
                &&& final(self).state == clock(st)
                &&& final(self).texture_shifts@ == old(self).texture_shifts@ + shifts
                &&& r == final(self).state.running
            }),
    {
        if !self.state.running {
            return false;
        }
        let ghost script = self.script.instructions@;
        let ghost table = self.table@;
        let ghost offset = self.sprite_index_offset;
        let ghost goal = dispatch(self.state, script, table, offset, MAX_STEPS_PER_FRAME as nat);
        let mut fuel: u32 = MAX_STEPS_PER_FRAME;
        let mut done = false;
        while !done
            invariant
                self.script == old(self).script,
                self.table == old(self).table,
                self.sprite_index_offset == old(self).sprite_index_offset,
                script == self.script.instructions@,
                table == self.table@,
                offset == self.sprite_index_offset,
                goal == dispatch(old(self).state, script, table, offset, MAX_STEPS_PER_FRAME as nat),
                !done ==> goal.0 == dispatch(self.state, script, table, offset, fuel as nat).0
                    && old(self).texture_shifts@ + goal.1 == self.texture_shifts@ + dispatch(
                    self.state,
                    script,
                    table,
                    offset,
                    fuel as nat,
                ).1,
                done ==> goal.0 == self.state && old(self).texture_shifts@ + goal.1
                    == self.texture_shifts@,
            decreases fuel + if done {
                0int
            } else {
                1int
            },
        {
            done = self.step(fuel);
            if !done {
                fuel = fuel - 1;
            }
        }
        if !self.state.waiting {
            self.state.frame = self.state.frame.wrapping_add(1);
        } else if let Some(timeout) = self.state.timeout {
            if timeout == self.state.sprite.frame {
                self.state.waiting = false;
            }
        }
        self.state.sprite.frame = self.state.sprite.frame.wrapping_add(1);
        self.state.running
    }

    /// Trigger an interrupt: jump after the last label `interrupt`, or else
    /// after the last label -1, and show the sprite. Without either label,
    /// nothing changes and the result is false.
    pub fn interrupt(&mut self, interrupt: i32) -> (r: bool)
        ensures
            final(self).table == old(self).table,
            final(self).script == old(self).script,
            final(self).sprite_index_offset == old(self).sprite_index_offset,
            final(self).texture_shifts == old(self).texture_shifts,
            ({
                let target = match label_target(old(self).script.interrupts@, interrupt) {
                    Some(t) => Some(t),
                    None => label_target(old(self).script.interrupts@, -1i32),
                };
                match target {
                    None => !r && final(self).state == old(self).state,
                    Some(t) => r && final(self).state == (if (t as int) < old(
                        self,
                    ).script.instructions@.len() {
                        AnmState {
                            instruction_pointer: t as usize,
                            frame: old(self).script.instructions@[t as int].time,
                            waiting: false,
                            sprite: Sprite { visible: true, ..old(self).state.sprite },
                            ..old(self).state
                        }
                    } else {
                        AnmState {
                            instruction_pointer: t as usize,
                            running: false,
                            waiting: false,
                            sprite: Sprite { visible: true, ..old(self).state.sprite },
                            ..old(self).state
                        }
                    }),
                }
            }),
    {
        let target = match find_label(&self.script.interrupts, interrupt) {
            Some(t) => Some(t),
            None => find_label(&self.script.interrupts, -1),
        };
        let t = match target {
            Some(t) => t,
            None => {
                return false;
            },
        };
        self.state.instruction_pointer = t as usize;
        if (t as usize) < self.script.instructions.len() {
            self.state.frame = self.script.instructions[t as usize].time;
        } else {
            self.state.running = false;
        }
        self.state.waiting = false;
        self.state.sprite.visible = true;
        true
    }

    /// Create a runner of script `script_id` of `anm` on `sprite`, and run
    /// its first frame with sprite numbers shifted by `sprite_index_offset`.
    /// No runner where the file has no such script.
    pub fn new(anm: &Anm0, script_id: u8, sprite: Sprite, sprite_index_offset: u32) -> (r: Option<AnmRunner>)
        ensures
            match script_index(anm.scripts@, script_id) {
                None => r is None,
                Some(k) => r matches Some(run) && {
                    let script = anm.scripts@[k].1;
                    let (st, shifts) = dispatch(
                        initial_state(sprite),
                        script.instructions@,
                        anm.sprites@,
                        sprite_index_offset,
                        MAX_STEPS_PER_FRAME as nat,
                    );
                    &&& run.script.instructions@ == script.instructions@
                    &&& run.script.interrupts@ == script.interrupts@
                    &&& run.table@ == anm.sprites@
                    &&& run.sprite_index_offset == 0
                    &&& run.state == clock(st)
                    &&& run.texture_shifts@ == shifts
                },
            },
    {
        let k = match find_script(&anm.scripts, script_id) {
            Some(k) => k,
            None => {
                return None;
            },
        };
        let source = &anm.scripts[k].1;
        let script = Script {
            instructions: copy_vec(&source.instructions),
            interrupts: copy_vec(&source.interrupts),
        };
        let mut runner = AnmRunner {
            table: copy_vec(&anm.sprites),
            script,
            sprite_index_offset,
            state: AnmState {
                sprite,
                running: true,
                instruction_pointer: 0,
                frame: 0,
                waiting: false,
                timeout: None,
            },
            texture_shifts: Vec::new(),
        };
        assert(runner.texture_shifts@ + Seq::<TextureShift>::empty() =~= Seq::<TextureShift>::empty());
        runner.run_frame();
        assert(Seq::<TextureShift>::empty() + dispatch(
            initial_state(sprite),
            runner.script.instructions@,
            runner.table@,
            sprite_index_offset,
            MAX_STEPS_PER_FRAME as nat,
        ).1 =~= runner.texture_shifts@);
        runner.sprite_index_offset = 0;
        Some(runner)
    }

    /// The sprite this runner animates.
    pub fn get_sprite(&self) -> (r: Sprite)
        ensures
            r == self.state.sprite,
    {
        self.state.sprite
    }

    /// Hands out the texture shifts run so far, in order, and forgets them.
    pub fn take_texture_shifts(&mut self) -> (r: Vec<TextureShift>)
        ensures
            r@ == old(self).texture_shifts@,
            final(self).texture_shifts@.len() == 0,
            final(self).state == old(self).state,
            final(self).table == old(self).table,
            final(self).script == old(self).script,
            final(self).sprite_index_offset == old(self).sprite_index_offset,
    {
        let mut out: Vec<TextureShift> = Vec::new();
        std::mem::swap(&mut out, &mut self.texture_shifts);
        out
    }
}

/// Whether a script holds no jump.
pub open spec fn has_no_jump(script: Seq<Call>) -> bool {
    forall|i: int| 0 <= i < script.len() ==> !(#[trigger] script[i].instr is Jump)
}

/// Without jumps, the dispatch loop never moves the runner's clock.
pub proof fn lemma_dispatch_keeps_frame(
    st: AnmState,
    script: Seq<Call>,
    table: Seq<anm0::Sprite>,
    offset: u32,
    fuel: nat,
)
    requires
        has_no_jump(script),
    ensures
        dispatch(st, script, table, offset, fuel).0.frame == st.frame,
    decreases fuel,
{
    if st.running && !st.waiting && st.instruction_pointer < script.len() && fuel > 0 {
        let call = script[st.instruction_pointer as int];
        if call.time <= st.frame {
            let st1 = AnmState { instruction_pointer: (st.instruction_pointer + 1) as usize, ..st };
            if call.time == st.frame {
                let st2 = exec_instr(st1, call.instr, script, table, offset);
                assert(!(call.instr is Jump));
                assert(st2.frame == st.frame);
                let st3 = AnmState { sprite: Sprite { changed: true, ..st2.sprite }, ..st2 };
                lemma_dispatch_keeps_frame(st3, script, table, offset, (fuel - 1) as nat);
            } else {
                lemma_dispatch_keeps_frame(st1, script, table, offset, (fuel - 1) as nat);
            }
        }
    }
}

/// After a frame of a script without jumps that ends without waiting, the
/// runner's clock has advanced by exactly one.
pub proof fn lemma_frame_advances(st: AnmState, script: Seq<Call>, table: Seq<anm0::Sprite>, offset: u32)
    requires
        has_no_jump(script),
        !dispatch(st, script, table, offset, MAX_STEPS_PER_FRAME as nat).0.waiting,
    ensures
        clock(dispatch(st, script, table, offset, MAX_STEPS_PER_FRAME as nat).0).frame
            == st.frame.wrapping_add(1),
{
    lemma_dispatch_keeps_frame(st, script, table, offset, MAX_STEPS_PER_FRAME as nat);
}

/// Entering execution past the last instruction (where a jump to the end
/// of the script leads) stops the runner cleanly: nothing else changes.
pub proof fn lemma_past_end_stops(st: AnmState, script: Seq<Call>, table: Seq<anm0::Sprite>, offset: u32, fuel: nat)
    requires
        st.running,
        !st.waiting,
        st.instruction_pointer >= script.len(),
    ensures
        dispatch(st, script, table, offset, fuel) == (AnmState { running: false, ..st }, Seq::<TextureShift>::empty()),
{
}

/// The state of a runner after `n` frames, its sprite numbers unshifted.
pub open spec fn frames(st: AnmState, script: Seq<Call>, table: Seq<anm0::Sprite>, n: nat) -> Seq<AnmState>
    decreases n,
{
    if n == 0 {
        Seq::empty()
    } else {
        let prev = frames(st, script, table, (n - 1) as nat);
        let cur = if prev.len() == 0 {
            st
        } else {
            prev.last()
        };
        let next = if cur.running {
            clock(dispatch(cur, script, table, 0, MAX_STEPS_PER_FRAME as nat).0)
        } else {
            cur
        };
        prev.push(next)
    }
}

/// Determinism: two runners in the same state on the same script and
/// sprite table go through the same states, frame after frame.
pub proof fn lemma_deterministic(
    a: AnmState,
    b: AnmState,
    script: Seq<Call>,
    table: Seq<anm0::Sprite>,
    n: nat,
)
    requires
        a == b,
    ensures
        frames(a, script, table, n) == frames(b, script, table, n),
        frames(a, script, table, n).len() == n,
    decreases n,
{
    if n > 0 {
        lemma_deterministic(a, b, script, table, (n - 1) as nat);
    }
}

/// A sprite's alpha is always a byte value.
pub proof fn lemma_alpha_in_range(s: Sprite)
    ensures
        0 <= s.color.a <= 255,
{
}

} // verus!
