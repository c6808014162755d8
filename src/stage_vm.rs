//! Interpreter of stage timelines: camera and fog, frame by frame.

use crate::stage::{Call, Instruction, Position, Stage};
use vstd::prelude::*;

verus! {

/// A color as four bytes; a byte `v` stands for the intensity `v / 255`.
#[derive(Debug, Clone, Copy, PartialEq, Eq, Structural)]
pub struct Rgba {
    pub r: u8,
    pub g: u8,
    pub b: u8,
    pub a: u8,
}

/// What a stage timeline controls. Floats are f32 bits.
#[derive(Debug, Clone, Copy, PartialEq, Eq, Structural)]
pub struct Camera {
    /// Camera position.
    pub position: Position,
    /// Look-at offset.
    pub direction: Position,
    pub fog_color: Rgba,
    pub fog_near: u32,
    pub fog_far: u32,
}

/// The bits of the f32 1000.0, the initial far fog plane.
pub const FOG_FAR_DEFAULT: u32 = 0x447a_0000;

/// The camera after one instruction.
pub open spec fn apply_instruction(c: Camera, instr: Instruction) -> Camera {
    match instr {
        Instruction::SetViewpos(x, y, z) => Camera { position: Position { x, y, z }, ..c },
        Instruction::SetFog(r, g, b, a, near, far) => Camera {
            fog_color: Rgba { r, g, b, a },
            fog_near: near,
            fog_far: far,
            ..c
        },
        Instruction::SetViewpos2(x, y, z) => Camera { direction: Position { x, y, z }, ..c },
        _ => c,
    }
}

/// The camera after running, in order, the calls of `calls` that are due at
/// `frame`.
pub open spec fn run_calls(c: Camera, calls: Seq<Call>, frame: u32) -> Camera
    decreases calls.len(),
{
    if calls.len() == 0 {
        c
    } else {
        let prev = run_calls(c, calls.drop_last(), frame);
        if calls.last().time == frame {
            apply_instruction(prev, calls.last().instr)
        } else {
            prev
        }
    }
}

/// Interpreter for a `Stage`.
pub struct StageRunner {
    stage: Stage,
    frame: u32,
    camera: Camera,
}

fn apply(c: Camera, instr: Instruction) -> (r: Camera)
    ensures
        r == apply_instruction(c, instr),
{
    match instr {
        Instruction::SetViewpos(x, y, z) => Camera { position: Position { x, y, z }, ..c },
        Instruction::SetFog(r, g, b, a, near, far) => Camera {
            fog_color: Rgba { r, g, b, a },
            fog_near: near,
            fog_far: far,
            ..c
        },
        Instruction::SetViewpos2(x, y, z) => Camera { direction: Position { x, y, z }, ..c },
        _ => c,
    }
}

impl StageRunner {
    /// The frame about to run.
    pub closed spec fn frame_spec(&self) -> u32 {
        self.frame
    }

    /// The stage being run.
    pub closed spec fn stage_spec(&self) -> Stage {
        self.stage
    }

    /// The camera and fog of the current frame.
    pub closed spec fn camera_spec(&self) -> Camera {
        self.camera
    }

    /// The stage being run.
    pub fn stage(&self) -> (r: &Stage)
        ensures
            *r == self.stage_spec(),
    {
        &self.stage
    }

    /// The camera and fog of the current frame.
    pub fn camera(&self) -> (r: Camera)
        ensures
            r == self.camera_spec(),
    {
        self.camera
    }

    /// Create a new StageRunner attached to a Stage: camera at the origin,
    /// white opaque fog from 0 to 1000.
    pub fn new(stage: Stage) -> (r: StageRunner)
        ensures
            r.frame_spec() == 0,
            r.stage_spec() == stage,
            r.camera_spec() == (Camera {
                position: Position { x: 0, y: 0, z: 0 },
                direction: Position { x: 0, y: 0, z: 0 },
                fog_color: Rgba { r: 255, g: 255, b: 255, a: 255 },
                fog_near: 0,
                fog_far: FOG_FAR_DEFAULT,
            }),
    {
        StageRunner {
            stage,
            frame: 0,
            camera: Camera {
                position: Position { x: 0, y: 0, z: 0 },
                direction: Position { x: 0, y: 0, z: 0 },
                fog_color: Rgba { r: 255, g: 255, b: 255, a: 255 },
                fog_near: 0,
                fog_far: FOG_FAR_DEFAULT,
            },
        }
    }

    /// The frame about to run.
    pub fn frame(&self) -> (r: u32)
        ensures
            r == self.frame_spec(),
    {
        self.frame
    }

    /// Advance the simulation one frame: run every instruction due at the
    /// current frame, in script order, then move to the next frame.
    pub fn run_frame(&mut self)
        requires
            old(self).frame_spec() < u32::MAX,
        ensures
            final(self).frame_spec() == old(self).frame_spec() + 1,
            final(self).stage_spec() == old(self).stage_spec(),
            final(self).camera_spec() == run_calls(
                old(self).camera_spec(),
                old(self).stage_spec().script@,
                old(self).frame_spec(),
            ),
    {
        let ghost c0 = self.camera;
        let n = self.stage.script.len();
        let mut i: usize = 0;
        while i < n
            invariant
                n == self.stage.script@.len(),
                self.stage == old(self).stage,
                self.frame == old(self).frame,
                c0 == old(self).camera,
                i <= n,
                self.camera == run_calls(c0, self.stage.script@.subrange(0, i as int), self.frame),
            decreases n - i,
        {
            let call = self.stage.script[i];
            assert(self.stage.script@.subrange(0, i + 1).drop_last() =~= self.stage.script@.subrange(
                0,
                i as int,
            ));
            if call.time == self.frame {
                self.camera = apply(self.camera, call.instr);
            }
            i = i + 1;
        }
        assert(self.stage.script@.subrange(0, n as int) =~= self.stage.script@);
        self.frame = self.frame + 1;
    }
}

} // verus!
