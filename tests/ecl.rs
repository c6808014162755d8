use touhou::bytes::ParseError;
use touhou::ecl::{Ecl, MainInstruction, SubInstruction};
use touhou::ecl_vm::{EclError, EclRunner, Step};
use touhou::enemy::{movement_anim, Direction, Enemy, MovementSprites, Position, Rank};

fn put_u16(b: &mut Vec<u8>, v: u16) {
    b.extend_from_slice(&v.to_le_bytes());
}

fn put_u32(b: &mut Vec<u8>, v: u32) {
    b.extend_from_slice(&v.to_le_bytes());
}

/// One sub instruction record, run at every rank.
fn sub_ins(time: u32, opcode: u16, args: &[u32]) -> Vec<u8> {
    let mut b = Vec::new();
    put_u32(&mut b, time);
    put_u16(&mut b, opcode);
    put_u16(&mut b, (12 + 4 * args.len()) as u16);
    put_u16(&mut b, 0xff00);
    put_u16(&mut b, 0);
    for v in args {
        put_u32(&mut b, *v);
    }
    b
}

/// A file of one sub, and a main timeline spawning one enemy.
fn ecl_bytes(sub: &[Vec<u8>]) -> Vec<u8> {
    let mut body = sub.concat();
    body.extend_from_slice(&[0xff; 12]);
    let sub_at = 20u32;
    let main_at = sub_at + body.len() as u32;
    let mut b = Vec::new();
    put_u16(&mut b, 1);
    put_u16(&mut b, 0);
    put_u32(&mut b, main_at);
    put_u32(&mut b, 0);
    put_u32(&mut b, 0);
    put_u32(&mut b, sub_at);
    b.extend(body);
    put_u16(&mut b, 60);
    put_u16(&mut b, 0);
    put_u16(&mut b, 0);
    put_u16(&mut b, 28);
    for v in [192.0f32, 64.0, 0.0] {
        put_u32(&mut b, v.to_bits());
    }
    put_u16(&mut b, 500);
    put_u16(&mut b, 1);
    put_u32(&mut b, 1000);
    put_u16(&mut b, 0xffff);
    put_u16(&mut b, 4);
    b
}

fn runner_for(sub: &[Vec<u8>]) -> EclRunner {
    let ecl = Ecl::from_slice(&ecl_bytes(sub)).unwrap();
    let enemy = Enemy::new(Position::new(0, 0), 100, 0, 0);
    EclRunner::new(&ecl, enemy, 0, Rank::Easy, 0).unwrap()
}

fn frame(runner: &mut EclRunner) -> Vec<SubInstruction> {
    let mut host = Vec::new();
    loop {
        match runner.run_frame() {
            Step::FrameDone => return host,
            Step::Host(instr) => host.push(instr),
        }
    }
}

#[test]
fn ecl_parses_subs_and_main() {
    let ecl = Ecl::from_slice(&ecl_bytes(&[sub_ins(1, 0, &[]), sub_ins(1, 2, &[0, 0])])).unwrap();
    assert_eq!(ecl.subs.len(), 1);
    assert_eq!(ecl.subs[0].instructions.len(), 2);
    assert_eq!(ecl.subs[0].instructions[1].instr, SubInstruction::RelativeJump(0, 0));
    assert_eq!(ecl.mains.len(), 1);
    assert_eq!(ecl.mains[0].instructions.len(), 1);
    assert_eq!(ecl.mains[0].instructions[0].time, 60);
    assert_eq!(
        ecl.mains[0].instructions[0].instr,
        MainInstruction::SpawnEnemy(192.0f32.to_bits(), 64.0f32.to_bits(), 0, 500, 1, 1000)
    );
}

#[test]
fn ecl_rejects_malformed_records() {
    let wrong_size = ecl_bytes(&[sub_ins(1, 0, &[7])]);
    assert!(matches!(Ecl::from_slice(&wrong_size), Err(ParseError::BadSize)));
    let unknown = ecl_bytes(&[sub_ins(1, 7, &[])]);
    assert!(matches!(Ecl::from_slice(&unknown), Err(ParseError::UnknownOpcode)));
    let mut with_main_count = ecl_bytes(&[]);
    with_main_count[2] = 1;
    assert!(matches!(Ecl::from_slice(&with_main_count), Err(ParseError::BadTag)));
    let whole = ecl_bytes(&[]);
    assert!(matches!(Ecl::from_slice(&whole[..whole.len() - 2]), Err(ParseError::Truncated)));
}

#[test]
fn ecl_relative_jump_reenters() {
    let mut runner = runner_for(&[sub_ins(1, 0, &[]), sub_ins(1, 0, &[]), sub_ins(1, 2, &[0, 0])]);
    for _ in 0..5 {
        assert!(frame(&mut runner).is_empty());
    }
    assert_eq!(runner.state.ip, 0);
    assert_eq!(runner.state.frame, 1);
    assert!(runner.state.running);
}

#[test]
fn ecl_integer_variables_and_compare() {
    let mut runner = runner_for(&[
        sub_ins(0, 4, &[(-10001i32) as u32, 7]),
        sub_ins(0, 13, &[(-10002i32) as u32, (-10001i32) as u32, 5]),
        sub_ins(0, 27, &[(-10002i32) as u32, 12]),
        sub_ins(0, 18, &[(-10001i32) as u32]),
        sub_ins(0, 16, &[(-10010i32) as u32, (-7i32) as u32, 2]),
        sub_ins(0, 17, &[(-10011i32) as u32, (-7i32) as u32, 2]),
    ]);
    frame(&mut runner);
    assert_eq!(runner.get_i32(-10001), Ok(8));
    assert_eq!(runner.get_i32(-10002), Ok(12));
    assert_eq!(runner.state.comparison_reg, 0);
    assert_eq!(runner.get_i32(-10010), Ok(-3));
    assert_eq!(runner.get_i32(-10011), Ok(-1));
    assert_eq!(runner.get_i32(-10013), Ok(0x100));
    assert_eq!(runner.get_i32(-10024), Ok(100));
    assert_eq!(runner.get_i32(42), Ok(42));
    assert_eq!(runner.get_i32(-10020), Err(EclError::UnmappedVar));
}

#[test]
fn ecl_float_instructions_go_to_the_host() {
    let mut runner = runner_for(&[
        sub_ins(0, 47, &[2.5f32.to_bits()]),
        sub_ins(0, 104, &[0]),
        sub_ins(1, 1, &[0]),
    ]);
    assert_eq!(frame(&mut runner), vec![SubInstruction::SetSpeed(2.5f32.to_bits())]);
    assert!(!runner.state.enemy.collidable);
    assert!(runner.state.running);
    frame(&mut runner);
    assert!(runner.state.enemy.removed);
    assert!(!runner.state.running);
}

#[test]
fn ecl_division_by_zero_stops_the_runner() {
    let mut runner = runner_for(&[sub_ins(0, 16, &[(-10001i32) as u32, 1, 0])]);
    frame(&mut runner);
    assert!(!runner.state.running);
    assert_eq!(runner.state.error, Some(EclError::DivisionError));
}

#[test]
fn ecl_rank_mask_skips_instructions() {
    let mut skipped = sub_ins(0, 4, &[(-10001i32) as u32, 9]);
    skipped[8] = 0;
    skipped[9] = 0x02;
    let mut runner = runner_for(&[skipped]);
    frame(&mut runner);
    assert_eq!(runner.get_i32(-10001), Ok(0));
}

#[test]
fn ecl_runaway_loop_is_stopped() {
    let mut runner = runner_for(&[sub_ins(0, 2, &[0, 0])]);
    frame(&mut runner);
    assert!(!runner.state.running);
    assert_eq!(runner.state.error, Some(EclError::Runaway));
}

#[test]
fn enemy_negative_life_clamps_to_one() {
    assert_eq!(Enemy::new(Position::new(0, 0), -5, 0, 640).life, 1);
    assert_eq!(Enemy::new(Position::new(0, 0), 500, 0, 640).life, 500);
}

#[test]
fn enemy_movement_animations() {
    let sprites = MovementSprites { end_left: 1, end_right: 2, left: 3, right: 4 };
    assert_eq!(movement_anim(sprites, Direction::Center, -1), Some((3, Direction::Left)));
    assert_eq!(movement_anim(sprites, Direction::Left, -1), None);
    assert_eq!(movement_anim(sprites, Direction::Left, 1), Some((4, Direction::Right)));
    assert_eq!(movement_anim(sprites, Direction::Left, 0), Some((1, Direction::Center)));
    assert_eq!(movement_anim(sprites, Direction::Right, 0), Some((2, Direction::Center)));
    assert_eq!(movement_anim(sprites, Direction::Center, 0), None);
}
