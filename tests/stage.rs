use touhou::stage::{Instruction, Stage};
use touhou::stage_vm::{Rgba, StageRunner};

fn put_u16(b: &mut Vec<u8>, v: u16) {
    b.extend_from_slice(&v.to_le_bytes());
}

fn put_u32(b: &mut Vec<u8>, v: u32) {
    b.extend_from_slice(&v.to_le_bytes());
}

fn put_f32(b: &mut Vec<u8>, v: f32) {
    b.extend_from_slice(&v.to_bits().to_le_bytes());
}

fn field(text: &[u8]) -> Vec<u8> {
    let mut f = text.to_vec();
    f.resize(128, 0);
    f
}

/// A stage with one model of one quad, one instance and the given script
/// records (time, opcode, twelve bytes of arguments).
fn stage_bytes(script: &[(u32, u16, [u8; 12])]) -> Vec<u8> {
    let model_at = 1168 + 4;
    let instances_at = model_at + 28 + 28 + 4;
    let script_at = instances_at + 16 + 16;
    let mut b = Vec::new();
    put_u16(&mut b, 1);
    put_u16(&mut b, 1);
    put_u32(&mut b, instances_at as u32);
    put_u32(&mut b, script_at as u32);
    put_u32(&mut b, 0);
    b.extend(field(b"Stage 1"));
    b.extend(field(b"Theme"));
    for _ in 0..3 {
        b.extend(field(b" "));
    }
    b.extend(field(b"bgm/th06_02.mid"));
    for _ in 0..3 {
        b.extend(field(b""));
    }
    put_u32(&mut b, model_at as u32);
    assert_eq!(b.len(), model_at);
    put_u16(&mut b, 0);
    put_u16(&mut b, 7);
    for v in [1.0f32, 2.0, 3.0, 4.0, 5.0, 6.0] {
        put_f32(&mut b, v);
    }
    put_u16(&mut b, 0);
    put_u16(&mut b, 0x1c);
    put_u16(&mut b, 3);
    put_u16(&mut b, 0);
    for v in [10.0f32, 20.0, 30.0, 40.0, 50.0] {
        put_f32(&mut b, v);
    }
    put_u16(&mut b, 0xffff);
    put_u16(&mut b, 0);
    assert_eq!(b.len(), instances_at);
    put_u16(&mut b, 0);
    put_u16(&mut b, 0x100);
    for v in [0.0f32, 0.0, -100.0] {
        put_f32(&mut b, v);
    }
    put_u16(&mut b, 0xffff);
    put_u16(&mut b, 0xffff);
    b.extend_from_slice(&[0; 12]);
    assert_eq!(b.len(), script_at);
    for (time, opcode, args) in script {
        put_u32(&mut b, *time);
        put_u16(&mut b, *opcode);
        put_u16(&mut b, 12);
        b.extend_from_slice(args);
    }
    put_u32(&mut b, 0xffff_ffff);
    put_u16(&mut b, 0xffff);
    put_u16(&mut b, 0xffff);
    b
}

fn fog_args(b: u8, g: u8, r: u8, a: u8, near: f32, far: f32) -> [u8; 12] {
    let mut args = [0u8; 12];
    args[0] = b;
    args[1] = g;
    args[2] = r;
    args[3] = a;
    args[4..8].copy_from_slice(&near.to_bits().to_le_bytes());
    args[8..12].copy_from_slice(&far.to_bits().to_le_bytes());
    args
}

fn viewpos_args(x: f32, y: f32, z: f32) -> [u8; 12] {
    let mut args = [0u8; 12];
    args[0..4].copy_from_slice(&x.to_bits().to_le_bytes());
    args[4..8].copy_from_slice(&y.to_bits().to_le_bytes());
    args[8..12].copy_from_slice(&z.to_bits().to_le_bytes());
    args
}

#[test]
fn stage_parses_every_table() {
    let data = stage_bytes(&[(0, 0, viewpos_args(1.0, 2.0, 3.0)), (5, 2, viewpos_args(0.0, 0.0, 1.0))]);
    let stage = Stage::from_slice(&data).unwrap();
    assert_eq!(stage.name, "Stage 1");
    assert_eq!(stage.musics.len(), 4);
    assert_eq!(stage.musics[0], Some((String::from("Theme"), String::from("bgm/th06_02.mid"))));
    assert_eq!(stage.musics[1], None);
    assert_eq!(stage.models.len(), 1);
    assert_eq!(stage.models[0].unknown, 7);
    assert_eq!(stage.models[0].bounding_box[5], 6.0f32.to_bits());
    assert_eq!(stage.models[0].quads.len(), 1);
    assert_eq!(stage.models[0].quads[0].anm_script, 3);
    assert_eq!(stage.models[0].quads[0].size_override.height, 50.0f32.to_bits());
    assert_eq!(stage.instances.len(), 1);
    assert_eq!(stage.instances[0].pos.z, (-100.0f32).to_bits());
    assert_eq!(stage.script.len(), 2);
    assert_eq!(stage.script[1].time, 5);
    assert_eq!(stage.script[1].instr, Instruction::SetViewpos2(0, 0, 1.0f32.to_bits()));
}

#[test]
fn stage_rejects_bad_input() {
    let data = stage_bytes(&[(0, 9, [0; 12])]);
    assert!(Stage::from_slice(&data).is_err());
    let data = stage_bytes(&[]);
    assert!(Stage::from_slice(&data[..data.len() - 1]).is_err());
    assert!(Stage::from_slice(&data[..100]).is_err());
    let mut tagged = data.clone();
    tagged[12] = 1;
    assert!(Stage::from_slice(&tagged).is_err());
}

#[test]
fn stage_runner_fog_after_one_frame() {
    let data = stage_bytes(&[(0, 1, fog_args(128, 0, 0, 255, 100.0, 500.0))]);
    let stage = Stage::from_slice(&data).unwrap();
    assert_eq!(stage.script[0].instr, Instruction::SetFog(0, 0, 128, 255, 100.0f32.to_bits(), 500.0f32.to_bits()));
    let mut runner = StageRunner::new(stage);
    runner.run_frame();
    let camera = runner.camera();
    assert_eq!(camera.fog_color, Rgba { r: 0, g: 0, b: 128, a: 255 });
    let color = [camera.fog_color.r, camera.fog_color.g, camera.fog_color.b, camera.fog_color.a]
        .map(|c| c as f32 / 255.);
    assert_eq!(color[0], 0.0);
    assert_eq!(color[1], 0.0);
    assert!((color[2] - 0.50196).abs() < 1e-5);
    assert_eq!(color[3], 1.0);
    assert_eq!(f32::from_bits(camera.fog_near), 100.0);
    assert_eq!(f32::from_bits(camera.fog_far), 500.0);
    assert_eq!(runner.frame(), 1);
}

#[test]
fn stage_runner_runs_only_due_instructions() {
    let data = stage_bytes(&[(0, 0, viewpos_args(1.0, 2.0, 3.0)), (2, 0, viewpos_args(4.0, 5.0, 6.0))]);
    let mut runner = StageRunner::new(Stage::from_slice(&data).unwrap());
    assert_eq!(f32::from_bits(runner.camera().fog_far), 1000.0);
    runner.run_frame();
    assert_eq!(runner.camera().position.x, 1.0f32.to_bits());
    runner.run_frame();
    assert_eq!(runner.camera().position.x, 1.0f32.to_bits());
    runner.run_frame();
    assert_eq!(runner.camera().position.z, 6.0f32.to_bits());
    assert_eq!(runner.frame(), 3);
}
