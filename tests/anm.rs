use touhou::anm0::{Anm0, Instruction};
use touhou::anm0_vm::{AnmRunner, Sprite, TextureShift};
use touhou::bytes::ParseError;

fn put_u32(b: &mut Vec<u8>, v: u32) {
    b.extend_from_slice(&v.to_le_bytes());
}

/// One instruction record: time, opcode, payload.
fn ins(time: u16, opcode: u8, payload: &[u32]) -> Vec<u8> {
    let mut b = Vec::new();
    b.extend_from_slice(&time.to_le_bytes());
    b.push(opcode);
    b.push((payload.len() * 4) as u8);
    for v in payload {
        put_u32(&mut b, *v);
    }
    b
}

/// An animation file of 256×256, format 5, with one sprite and the given
/// scripts.
fn anm_bytes(scripts: &[Vec<u8>]) -> Vec<u8> {
    let sprite_at = 64 + 4 + 8 * scripts.len();
    let mut script_at = sprite_at + 20;
    let mut b = Vec::new();
    for v in [1, scripts.len() as u32, 0, 256, 256, 5, 0, 0, 0, 0, 0, 0, 0, 0, 0, 0] {
        put_u32(&mut b, v);
    }
    put_u32(&mut b, sprite_at as u32);
    for (i, s) in scripts.iter().enumerate() {
        put_u32(&mut b, i as u32);
        put_u32(&mut b, script_at as u32);
        script_at += s.len();
    }
    put_u32(&mut b, 0);
    for v in [16.0f32, 32.0, 64.0, 48.0] {
        put_u32(&mut b, v.to_bits());
    }
    for s in scripts {
        b.extend_from_slice(s);
    }
    b
}

fn script(parts: &[Vec<u8>]) -> Vec<u8> {
    parts.concat()
}

fn sample_anm() -> Anm0 {
    let s0 = script(&[ins(0, 0, &[])]);
    let s1 = script(&[
        ins(0, 1, &[0]),
        ins(0, 22, &[3]),
        ins(5, 3, &[128]),
        ins(20, 5, &[0]),
        ins(30, 0, &[]),
    ]);
    let s2 = script(&[ins(0, 5, &[12]), ins(0, 0, &[])]);
    let s3 = script(&[ins(0, 27, &[1.5f32.to_bits()]), ins(0, 21, &[]), ins(0, 0, &[])]);
    Anm0::from_slice(&anm_bytes(&[s0, s1, s2, s3])).unwrap()
}

#[test]
fn anm_header_and_tables() {
    let anm0 = sample_anm();
    assert_eq!(anm0.size, (256, 256));
    assert_eq!(anm0.format, 5);
    assert_eq!(anm0.sprites.len(), 1);
    assert_eq!(anm0.sprites[0].width, 64.0f32.to_bits());
    assert_eq!(anm0.scripts.len(), 4);
    let (index, s1) = &anm0.scripts[1];
    assert_eq!(*index, 1);
    assert_eq!(s1.instructions.len(), 5);
    assert_eq!(s1.instructions[3].instr, Instruction::Jump(0));
    assert_eq!(s1.interrupts, vec![(3, 2)]);
}

#[test]
fn anm_jump_to_end_resolves_to_count() {
    let anm0 = sample_anm();
    let s2 = &anm0.scripts[2].1;
    assert_eq!(s2.instructions[0].instr, Instruction::Jump(2));
    let runner = AnmRunner::new(&anm0, 2, Sprite::new(0, 0), 0).unwrap();
    assert!(!runner.state.running);
    assert!(!runner.get_sprite().removed);
}

#[test]
fn anm_unresolved_jump_is_an_error() {
    let bad = script(&[ins(0, 5, &[5]), ins(0, 0, &[])]);
    assert!(matches!(Anm0::from_slice(&anm_bytes(&[bad])), Err(ParseError::BadJump)));
}

#[test]
fn anm_unknown_opcode_and_truncation() {
    let bad = script(&[ins(0, 6, &[]), ins(0, 0, &[])]);
    assert!(matches!(Anm0::from_slice(&anm_bytes(&[bad])), Err(ParseError::UnknownOpcode)));
    let unterminated = script(&[ins(0, 1, &[0])]);
    assert!(matches!(Anm0::from_slice(&anm_bytes(&[unterminated])), Err(ParseError::Truncated)));
    let mut versioned = anm_bytes(&[script(&[ins(0, 0, &[])])]);
    versioned[40] = 1;
    assert!(matches!(Anm0::from_slice(&versioned), Err(ParseError::BadTag)));
}

#[test]
fn anm_runner_fifty_frames() {
    let anm0 = sample_anm();
    let mut runner = AnmRunner::new(&anm0, 1, Sprite::new(0, 0), 0).unwrap();
    for _ in 1..50 {
        runner.run_frame();
    }
    let sprite = runner.get_sprite();
    assert!(runner.state.running);
    assert!(sprite.visible);
    assert_eq!(sprite.frame, 50);
    assert_eq!(sprite.texcoords.x, 16.0f32.to_bits());
    assert_eq!(sprite.color.a, 128);
}

#[test]
fn anm_runner_delete_removes_sprite() {
    let anm0 = sample_anm();
    let mut runner = AnmRunner::new(&anm0, 0, Sprite::new(0, 0), 0).unwrap();
    assert!(runner.get_sprite().removed);
    assert!(!runner.run_frame());
}

#[test]
fn anm_runner_missing_script() {
    let anm0 = sample_anm();
    assert!(AnmRunner::new(&anm0, 9, Sprite::new(0, 0), 0).is_none());
}

#[test]
fn anm_interrupt_jumps_to_label() {
    let anm0 = sample_anm();
    let mut runner = AnmRunner::new(&anm0, 1, Sprite::new(0, 0), 0).unwrap();
    assert!(runner.interrupt(3));
    assert_eq!(runner.state.instruction_pointer, 2);
    assert_eq!(runner.state.frame, 5);
    assert!(runner.get_sprite().visible);
}

#[test]
fn anm_interrupt_without_label_changes_nothing() {
    let anm0 = sample_anm();
    let mut runner = AnmRunner::new(&anm0, 1, Sprite::new(0, 0), 0).unwrap();
    let before = runner.state;
    assert!(!runner.interrupt(7));
    assert_eq!(runner.state, before);
}

#[test]
fn anm_texture_shifts_and_wait() {
    let anm0 = sample_anm();
    let mut runner = AnmRunner::new(&anm0, 3, Sprite::new(0, 0), 0).unwrap();
    assert!(runner.state.waiting);
    assert_eq!(runner.state.frame, 0);
    assert_eq!(runner.take_texture_shifts(), vec![TextureShift::X(1.5f32.to_bits())]);
    assert!(runner.take_texture_shifts().is_empty());
    runner.run_frame();
    assert_eq!(runner.state.frame, 0);
    assert_eq!(runner.get_sprite().frame, 2);
}
