//! ECL runner: interprets a sub, frame by frame, on an enemy.
//!
//! The runner itself runs control flow, integer variables and the integer
//! and boolean state of its enemy. Instructions that work on floating-point
//! values or act on the rest of the game are handed to the host, one at a
//! time and in script order; the host runs each before asking for more.

use crate::ecl::{CallSub, Ecl, SubInstruction};
use crate::enemy::{rank_bits, Enemy, Rank};
use vstd::prelude::*;

verus! {

/// Most instructions one runner steps over in one frame; a script that
/// steps over more (a jump loop that never waits) is stopped.
pub const MAX_STEPS_PER_FRAME: u32 = 0x1_0000;

/// Why a runner stopped on an error.
#[derive(Debug, Clone, Copy, PartialEq, Eq, Structural)]
pub enum EclError {
    /// A variable that cannot be read or written there.
    UnmappedVar,
    /// An instruction this runner cannot run.
    UnknownOpcode,
    /// An effect the host refuses (memory writes).
    HostCallbackRefused,
    /// An integer division by zero, or one that overflows.
    DivisionError,
    /// More steps in one frame than allowed.
    Runaway,
}

/// Four integer variables.
#[derive(Debug, Clone, Copy, PartialEq, Eq, Structural)]
pub struct IntBank {
    pub a: i32,
    pub b: i32,
    pub c: i32,
    pub d: i32,
}

/// Four floating-point variables, as f32 bits.
#[derive(Debug, Clone, Copy, PartialEq, Eq, Structural)]
pub struct FloatBank {
    pub a: u32,
    pub b: u32,
    pub c: u32,
    pub d: u32,
}

/// The three variable banks: ids -10001 to -10004, -10005 to -10008 and
/// -10009 to -10012.
#[derive(Debug, Clone, Copy, PartialEq, Eq, Structural)]
pub struct Variables {
    pub ints: IntBank,
    pub floats: FloatBank,
    pub ints2: IntBank,
}

/// The state of a runner that its instructions change.
#[derive(Debug, Clone, Copy, PartialEq, Eq, Structural)]
pub struct EclState {
    pub enemy: Enemy,
    pub running: bool,
    pub frame: i32,
    pub ip: i32,
    pub variables: Variables,
    /// -1, 0 or 1: the sign of the last comparison.
    pub comparison_reg: i8,
    /// Steps left in the current frame.
    pub steps_left: u32,
    /// The error the runner stopped on, if any.
    pub error: Option<EclError>,
}

/// Interpreter for enemy scripts.
pub struct EclRunner {
    /// The instructions of the sub being run.
    pub sub: Vec<CallSub>,
    /// The number of the sub being run.
    pub sub_index: u8,
    pub rank: Rank,
    pub difficulty: i32,
    pub state: EclState,
}

/// What the runner needs from the host.
#[derive(Debug, Clone, Copy, PartialEq, Eq, Structural)]
pub enum Step {
    /// Run this instruction, then ask again.
    Host(SubInstruction),
    /// The frame is over.
    FrameDone,
}

pub open spec fn bank_get(b: IntBank, i: int) -> i32 {
    if i == 0 {
        b.a
    } else if i == 1 {
        b.b
    } else if i == 2 {
        b.c
    } else {
        b.d
    }
}

pub open spec fn bank_set(b: IntBank, i: int, v: i32) -> IntBank {
    if i == 0 {
        IntBank { a: v, ..b }
    } else if i == 1 {
        IntBank { b: v, ..b }
    } else if i == 2 {
        IntBank { c: v, ..b }
    } else {
        IntBank { d: v, ..b }
    }
}

/// Whether an operand names a value held as a float: the float bank or the
/// enemy's position.
pub open spec fn float_sourced(var: i32) -> bool {
    (-10008 <= var <= -10005) || (-10017 <= var <= -10015)
}

/// The integer value of an operand: a variable where it names one, else
/// the operand itself.
pub open spec fn read_int(st: EclState, var: i32, rank: Rank, difficulty: i32) -> Result<i32, EclError> {
    if -10004 <= var <= -10001 {
        Ok(bank_get(st.variables.ints, -10001 - var))
    } else if -10012 <= var <= -10009 {
        Ok(bank_get(st.variables.ints2, -10009 - var))
    } else if var == -10013 {
        Ok(rank_bits(rank) as i32)
    } else if var == -10014 {
        Ok(difficulty)
    } else if var == -10022 {
        Ok(st.enemy.frame as i32)
    } else if var == -10024 {
        Ok(st.enemy.life as i32)
    } else if -10025 <= var <= -10001 {
        Err(EclError::UnmappedVar)
    } else {
        Ok(var)
    }
}

/// Life as stored from a script value: negative values become 0.
pub open spec fn clamped_life(v: i32) -> u32 {
    if v < 0 {
        0
    } else {
        v as u32
    }
}

/// The state after storing `value` in integer variable `var`.
pub open spec fn write_int(st: EclState, var: i32, value: i32) -> Result<EclState, EclError> {
    if -10004 <= var <= -10001 {
        Ok(
            EclState {
                variables: Variables {
                    ints: bank_set(st.variables.ints, -10001 - var, value),
                    ..st.variables
                },
                ..st
            },
        )
    } else if -10012 <= var <= -10009 {
        Ok(
            EclState {
                variables: Variables {
                    ints2: bank_set(st.variables.ints2, -10009 - var, value),
                    ..st.variables
                },
                ..st
            },
        )
    } else if var == -10022 {
        Ok(EclState { enemy: Enemy { frame: value as u32, ..st.enemy }, ..st })
    } else if var == -10024 {
        Ok(EclState { enemy: Enemy { life: clamped_life(value), ..st.enemy }, ..st })
    } else {
        Err(EclError::UnmappedVar)
    }
}

/// Whether an instruction goes to the host: it works on floating-point
/// values, acts on the rest of the game, or reads an integer operand held
/// as a float.
#[verifier::opaque]
pub open spec fn for_host(instr: SubInstruction) -> bool {
    match instr {
        SubInstruction::Noop | SubInstruction::Destroy(_) | SubInstruction::RelativeJump(_, _)
        | SubInstruction::SetInt(_, _) | SubInstruction::CallSpecialFunction(_, _)
        | SubInstruction::Call(_, _, _) | SubInstruction::Return
        | SubInstruction::RelativeJumpIfLowerThan(_, _)
        | SubInstruction::RelativeJumpIfLowerOrEqual(_, _)
        | SubInstruction::RelativeJumpIfEqual(_, _)
        | SubInstruction::RelativeJumpIfGreaterThan(_, _)
        | SubInstruction::RelativeJumpIfGreaterOrEqual(_, _)
        | SubInstruction::RelativeJumpIfNotEqual(_, _) | SubInstruction::SetCollidable(_)
        | SubInstruction::SetDamageable(_) | SubInstruction::SetTouchable(_)
        | SubInstruction::SetDeathFlags(_) | SubInstruction::DelayAttack
        | SubInstruction::NoDelayAttack | SubInstruction::SetUpcomingLaserId(_)
        | SubInstruction::SetDeathAnim(_) | SubInstruction::ClearScreenBox
        | SubInstruction::SetBossMode(_) | SubInstruction::SetLife(_)
        | SubInstruction::SetLowLifeTrigger(_) | SubInstruction::SetLowLifeCallback(_)
        | SubInstruction::SetTimeout(_) | SubInstruction::SetTimeoutCallback(_)
        | SubInstruction::SetDeathCallback(_) | SubInstruction::SetInvisible(_)
        | SubInstruction::SetRemainingLives(_) | SubInstruction::MemoryWriteInt(_, _) => false,
        SubInstruction::RelativeJumpEx(_, _, v) => float_sourced(v),
        SubInstruction::AddInt(_, a, b) | SubInstruction::SubstractInt(_, a, b)
        | SubInstruction::MultiplyInt(_, a, b) | SubInstruction::DivideInt(_, a, b)
        | SubInstruction::Modulo(_, a, b) => float_sourced(a) || float_sourced(b),
        SubInstruction::Increment(v) => float_sourced(v),
        SubInstruction::CompareInts(a, b) => float_sourced(a) || float_sourced(b),
        SubInstruction::CallIfEqual(_, _, _, a, b) => float_sourced(a) || float_sourced(b),
        _ => true,
    }
}

/// The runner stopped on `e`.
pub open spec fn fail(st: EclState, e: EclError) -> EclState {
    EclState { running: false, error: Some(e), ..st }
}

/// A jump to frame `frame` and instruction `ip`.
pub open spec fn jump(st: EclState, frame: i32, ip: i32) -> EclState {
    EclState { frame, ip, ..st }
}

/// The sign of `a − b`.
pub open spec fn sign_of(a: i32, b: i32) -> i8 {
    if a < b {
        -1i8
    } else if a == b {
        0i8
    } else {
        1i8
    }
}

/// Stores `f(a, b)` in `var`, or stops on the error of a read or a write.
pub open spec fn arith(
    st: EclState,
    var: i32,
    a: i32,
    b: i32,
    rank: Rank,
    difficulty: i32,
    op: spec_fn(i32, i32) -> Option<i32>,
) -> EclState {
    match (read_int(st, a, rank, difficulty), read_int(st, b, rank, difficulty)) {
        (Ok(x), Ok(y)) => match op(x, y) {
            Some(v) => match write_int(st, var, v) {
                Ok(s) => s,
                Err(e) => fail(st, e),
            },
            None => fail(st, EclError::DivisionError),
        },
        (Err(e), _) => fail(st, e),
        (_, Err(e)) => fail(st, e),
    }
}

pub open spec fn add_op(x: i32, y: i32) -> Option<i32> {
    Some(x.wrapping_add(y))
}

pub open spec fn sub_op(x: i32, y: i32) -> Option<i32> {
    Some(x.wrapping_sub(y))
}

pub open spec fn mul_op(x: i32, y: i32) -> Option<i32> {
    Some(x.wrapping_mul(y))
}

pub open spec fn abs(x: int) -> int {
    if x < 0 {
        -x
    } else {
        x
    }
}

/// The quotient of `x / y` rounded toward zero.
pub open spec fn trunc_div(x: int, y: int) -> int {
    if (x < 0) != (y < 0) {
        -(abs(x) / abs(y))
    } else {
        abs(x) / abs(y)
    }
}

/// Division rounding toward zero; none by zero or of `i32::MIN` by -1.
pub open spec fn div_op(x: i32, y: i32) -> Option<i32> {
    if y == 0 || (x == i32::MIN && y == -1) {
        None
    } else {
        Some(trunc_div(x as int, y as int) as i32)
    }
}

/// The remainder of the division rounding toward zero.
pub open spec fn mod_op(x: i32, y: i32) -> Option<i32> {
    if y == 0 || (x == i32::MIN && y == -1) {
        None
    } else {
        Some((x - trunc_div(x as int, y as int) * y) as i32)
    }
}

/// The state after an instruction the runner runs itself.
#[verifier::opaque]
pub open spec fn exec_local(st: EclState, instr: SubInstruction, rank: Rank, difficulty: i32) -> EclState {
    let en = st.enemy;
    match instr {
        SubInstruction::Destroy(_) => EclState {
            enemy: Enemy { removed: true, ..en },
            running: false,
            ..st
        },
        SubInstruction::RelativeJump(frame, ip) => jump(st, frame as i32, ip),
        SubInstruction::RelativeJumpEx(frame, ip, var) => match read_int(st, var, rank, difficulty) {
            Err(e) => fail(st, e),
            Ok(v) => match write_int(st, var, v.wrapping_sub(1)) {
                Err(e) => fail(st, e),
                Ok(s) => if v.wrapping_sub(1) > 0 {
                    jump(s, frame as i32, ip)
                } else {
                    s
                },
            },
        },
        SubInstruction::SetInt(var, value) => match write_int(st, var, value) {
            Ok(s) => s,
            Err(e) => fail(st, e),
        },
        SubInstruction::AddInt(var, a, b) => arith(
            st,
            var,
            a,
            b,
            rank,
            difficulty,
            |x: i32, y: i32| add_op(x, y),
        ),
        SubInstruction::SubstractInt(var, a, b) => arith(
            st,
            var,
            a,
            b,
            rank,
            difficulty,
            |x: i32, y: i32| sub_op(x, y),
        ),
        SubInstruction::MultiplyInt(var, a, b) => arith(
            st,
            var,
            a,
            b,
            rank,
            difficulty,
            |x: i32, y: i32| mul_op(x, y),
        ),
        SubInstruction::DivideInt(var, a, b) => arith(
            st,
            var,
            a,
            b,
            rank,
            difficulty,
            |x: i32, y: i32| div_op(x, y),
        ),
        SubInstruction::Modulo(var, a, b) => arith(
            st,
            var,
            a,
            b,
            rank,
            difficulty,
            |x: i32, y: i32| mod_op(x, y),
        ),
        SubInstruction::Increment(var) => arith(
            st,
            var,
            var,
            1,
            rank,
            difficulty,
            |x: i32, y: i32| add_op(x, y),
        ),
        SubInstruction::CompareInts(a, b) => match (
            read_int(st, a, rank, difficulty),
            read_int(st, b, rank, difficulty),
        ) {
            (Ok(x), Ok(y)) => EclState { comparison_reg: sign_of(x, y), ..st },
            (Err(e), _) => fail(st, e),
            (_, Err(e)) => fail(st, e),
        },
        SubInstruction::RelativeJumpIfLowerThan(f, ip) => if st.comparison_reg == -1 {
            jump(st, f, ip)
        } else {
            st
        },
        SubInstruction::RelativeJumpIfLowerOrEqual(f, ip) => if st.comparison_reg != 1 {
            jump(st, f, ip)
        } else {
            st
        },
        SubInstruction::RelativeJumpIfEqual(f, ip) => if st.comparison_reg == 0 {
            jump(st, f, ip)
        } else {
            st
        },
        SubInstruction::RelativeJumpIfGreaterThan(f, ip) => if st.comparison_reg == 1 {
            jump(st, f, ip)
        } else {
            st
        },
        SubInstruction::RelativeJumpIfGreaterOrEqual(f, ip) => if st.comparison_reg != -1 {
            jump(st, f, ip)
        } else {
            st
        },
        SubInstruction::RelativeJumpIfNotEqual(f, ip) => if st.comparison_reg != 0 {
            jump(st, f, ip)
        } else {
            st
        },
        SubInstruction::Call(_, _, _) => fail(st, EclError::UnknownOpcode),
        SubInstruction::Return => fail(st, EclError::UnknownOpcode),
        SubInstruction::CallIfEqual(_, _, _, a, b) => match (
            read_int(st, a, rank, difficulty),
            read_int(st, b, rank, difficulty),
        ) {
            (Ok(x), Ok(y)) => if x == y {
                fail(st, EclError::UnknownOpcode)
            } else {
                st
            },
            (Err(e), _) => fail(st, e),
            (_, Err(e)) => fail(st, e),
        },
        SubInstruction::CallSpecialFunction(_, _) => fail(st, EclError::UnknownOpcode),
        SubInstruction::MemoryWriteInt(_, _) => fail(st, EclError::HostCallbackRefused),
        SubInstruction::SetCollidable(v) => EclState {
            enemy: Enemy { collidable: v & 1 != 0, ..en },
            ..st
        },
        SubInstruction::SetDamageable(v) => EclState {
            enemy: Enemy { damageable: v & 1 != 0, ..en },
            ..st
        },
        SubInstruction::SetTouchable(v) => EclState { enemy: Enemy { touchable: v != 0, ..en }, ..st },
        SubInstruction::SetDeathFlags(v) => EclState {
            enemy: Enemy { death_flags: v as u32, ..en },
            ..st
        },
        SubInstruction::DelayAttack => EclState { enemy: Enemy { delay_attack: true, ..en }, ..st },
        SubInstruction::NoDelayAttack => EclState {
            enemy: Enemy { delay_attack: false, ..en },
            ..st
        },
        SubInstruction::SetUpcomingLaserId(id) => EclState {
            enemy: Enemy { current_laser_id: id as u32, ..en },
            ..st
        },
        SubInstruction::SetDeathAnim(i) => EclState { enemy: Enemy { death_anim: i, ..en }, ..st },
        SubInstruction::ClearScreenBox => EclState { enemy: Enemy { screen_box: None, ..en }, ..st },
        SubInstruction::SetBossMode(v) => EclState { enemy: Enemy { boss: v != 0, ..en }, ..st },
        SubInstruction::SetLife(l) => EclState { enemy: Enemy { life: clamped_life(l), ..en }, ..st },
        SubInstruction::SetLowLifeTrigger(t) => EclState {
            enemy: Enemy { low_life_trigger: Some(t as u32), ..en },
            ..st
        },
        SubInstruction::SetLowLifeCallback(sub) => EclState {
            enemy: Enemy { low_life_callback: Some(sub), ..en },
            ..st
        },
        SubInstruction::SetTimeout(t) => EclState {
            enemy: Enemy { timeout: Some(t as u32), ..en },
            ..st
        },
        SubInstruction::SetTimeoutCallback(sub) => EclState {
            enemy: Enemy { timeout_callback: Some(sub), ..en },
            ..st
        },
        SubInstruction::SetDeathCallback(sub) => EclState {
            enemy: Enemy { death_callback: Some(sub), ..en },
            ..st
        },
        SubInstruction::SetInvisible(v) => EclState { enemy: Enemy { visible: v == 0, ..en }, ..st },
        SubInstruction::SetRemainingLives(n) => EclState {
            enemy: Enemy { remaining_lives: n as u32, ..en },
            ..st
        },
        _ => st,
    }
}

/// The dispatch loop of a frame: while the runner runs, take the
/// instruction at the instruction pointer; stop at one due later; step
/// over it, skip it where its rank mask leaves out the rank, and run it if
/// it is due now, or stop there and hand it to the host where it is the
/// host's. Past the end of the sub the runner stops; out of steps, it stops
/// on an error. The state at the end, and the instruction for the host.
pub open spec fn ecl_dispatch(st: EclState, sub: Seq<CallSub>, rank: Rank, difficulty: i32) -> (EclState, Option<SubInstruction>)
    decreases st.steps_left,
{
    if !st.running {
        (st, None)
    } else if st.steps_left == 0 {
        (fail(st, EclError::Runaway), None)
    } else if st.ip < 0 || st.ip >= sub.len() {
        (EclState { running: false, ..st }, None)
    } else {
        let call = sub[st.ip as int];
        if call.time as int > st.frame as int {
            (st, None)
        } else {
            let st1 = EclState { ip: st.ip.wrapping_add(1), steps_left: (st.steps_left - 1) as u32, ..st };
            if call.rank_mask & rank_bits(rank) == 0 {
                ecl_dispatch(st1, sub, rank, difficulty)
            } else if call.time as int == st.frame as int {
                if for_host(call.instr) {
                    (st1, Some(call.instr))
                } else {
                    let st2 = exec_local(st1, call.instr, rank, difficulty);
                    ecl_dispatch(EclState { steps_left: st1.steps_left, ..st2 }, sub, rank, difficulty)
                }
            } else {
                ecl_dispatch(st1, sub, rank, difficulty)
            }
        }
    }
}

/// The end of a frame: the clock advances and the step budget is renewed.
pub open spec fn end_frame(st: EclState) -> EclState {
    EclState { frame: st.frame.wrapping_add(1), steps_left: MAX_STEPS_PER_FRAME, ..st }
}

fn bank_read(b: IntBank, i: i32) -> (r: i32)
    ensures
        r == bank_get(b, i as int),
{
    if i == 0 {
        b.a
    } else if i == 1 {
        b.b
    } else if i == 2 {
        b.c
    } else {
        b.d
    }
}

fn bank_write(b: IntBank, i: i32, v: i32) -> (r: IntBank)
    ensures
        r == bank_set(b, i as int, v),
{
    if i == 0 {
        IntBank { a: v, ..b }
    } else if i == 1 {
        IntBank { b: v, ..b }
    } else if i == 2 {
        IntBank { c: v, ..b }
    } else {
        IntBank { d: v, ..b }
    }
}

fn read_int_exec(st: &EclState, var: i32, rank: Rank, difficulty: i32) -> (r: Result<i32, EclError>)
    ensures
        r == read_int(*st, var, rank, difficulty),
{
    if -10004 <= var && var <= -10001 {
        Ok(bank_read(st.variables.ints, -10001 - var))
    } else if -10012 <= var && var <= -10009 {
        Ok(bank_read(st.variables.ints2, -10009 - var))
    } else if var == -10013 {
        Ok(rank.bits() as i32)
    } else if var == -10014 {
        Ok(difficulty)
    } else if var == -10022 {
        Ok(st.enemy.frame as i32)
    } else if var == -10024 {
        Ok(st.enemy.life as i32)
    } else if -10025 <= var && var <= -10001 {
        Err(EclError::UnmappedVar)
    } else {
        Ok(var)
    }
}

fn write_int_exec(st: EclState, var: i32, value: i32) -> (r: Result<EclState, EclError>)
    ensures
        r == write_int(st, var, value),
{
    if -10004 <= var && var <= -10001 {
        Ok(
            EclState {
                variables: Variables {
                    ints: bank_write(st.variables.ints, -10001 - var, value),
                    ..st.variables
                },
                ..st
            },
        )
    } else if -10012 <= var && var <= -10009 {
        Ok(
            EclState {
                variables: Variables {
                    ints2: bank_write(st.variables.ints2, -10009 - var, value),
                    ..st.variables
                },
                ..st
            },
        )
    } else if var == -10022 {
        Ok(EclState { enemy: Enemy { frame: value as u32, ..st.enemy }, ..st })
    } else if var == -10024 {
        Ok(
            EclState {
                enemy: Enemy {
                    life: if value < 0 {
                        0
                    } else {
                        value as u32
                    },
                    ..st.enemy
                },
                ..st
            },
        )
    } else {
        Err(EclError::UnmappedVar)
    }
}

fn fail_exec(st: EclState, e: EclError) -> (r: EclState)
    ensures
        r == fail(st, e),
{
    EclState { running: false, error: Some(e), ..st }
}

/// Which integer operation an arithmetic instruction applies.
#[derive(Debug, Clone, Copy, PartialEq, Eq, Structural)]
pub enum IntOp {
    Add,
    Sub,
    Mul,
    Div,
    Mod,
}

pub open spec fn op_spec(op: IntOp) -> spec_fn(i32, i32) -> Option<i32> {
    match op {
        IntOp::Add => |x: i32, y: i32| add_op(x, y),
        IntOp::Sub => |x: i32, y: i32| sub_op(x, y),
        IntOp::Mul => |x: i32, y: i32| mul_op(x, y),
        IntOp::Div => |x: i32, y: i32| div_op(x, y),
        IntOp::Mod => |x: i32, y: i32| mod_op(x, y),
    }
}

fn apply_op(op: IntOp, x: i32, y: i32) -> (r: Option<i32>)
    ensures
        r == (op_spec(op))(x, y),
{
    match op {
        IntOp::Add => Some(x.wrapping_add(y)),
        IntOp::Sub => Some(x.wrapping_sub(y)),
        IntOp::Mul => Some(x.wrapping_mul(y)),
        IntOp::Div | IntOp::Mod => {
            if y == 0 || (x == i32::MIN && y == -1) {
                return None;
            }
            let ax: u32 = if x < 0 {
                (-(x as i64)) as u32
            } else {
                x as u32
            };
            let ay: u32 = if y < 0 {
                (-(y as i64)) as u32
            } else {
                y as u32
            };
            let q: u32 = ax / ay;
            let quotient: i64 = if (x < 0) != (y < 0) {
                -(q as i64)
            } else {
                q as i64
            };
            assert(quotient == trunc_div(x as int, y as int));
            proof {
                vstd::arithmetic::div_mod::lemma_fundamental_div_mod(ax as int, ay as int);
                vstd::arithmetic::div_mod::lemma_mod_pos_bound(ax as int, ay as int);
                assert(q as int * ay as int <= ax as int) by (nonlinear_arith)
                    requires
                        ax as int == ay as int * (ax as int / ay as int) + ax as int % ay as int,
                        ax as int % ay as int >= 0,
                        q as int == ax as int / ay as int,
                ;
                assert(ax <= 0x8000_0000u32);
                assert(-0x8000_0000 <= quotient * (y as i64) <= 0x8000_0000) by (nonlinear_arith)
                    requires
                        q as int * ay as int <= ax as int,
                        ax <= 0x8000_0000u32,
                        quotient == q || quotient == -q,
                        y == ay || y == -ay,
                        q >= 0,
                        ay >= 1,
                ;
            }
            if op == IntOp::Div {
                Some(quotient as i32)
            } else {
                let rem: i64 = x as i64 - quotient * (y as i64);
                Some(rem as i32)
            }
        },
    }
}

fn arith_exec(st: EclState, var: i32, a: i32, b: i32, rank: Rank, difficulty: i32, op: IntOp) -> (r: EclState)
    ensures
        r == arith(st, var, a, b, rank, difficulty, op_spec(op)),
{
    let x = match read_int_exec(&st, a, rank, difficulty) {
        Ok(x) => x,
        Err(e) => {
            return fail_exec(st, e);
        },
    };
    let y = match read_int_exec(&st, b, rank, difficulty) {
        Ok(y) => y,
        Err(e) => {
            return fail_exec(st, e);
        },
    };
    match apply_op(op, x, y) {
        Some(v) => match write_int_exec(st, var, v) {
            Ok(s) => s,
            Err(e) => fail_exec(st, e),
        },
        None => fail_exec(st, EclError::DivisionError),
    }
}

fn is_float_sourced(var: i32) -> (r: bool)
    ensures
        r == float_sourced(var),
{
    (-10008 <= var && var <= -10005) || (-10017 <= var && var <= -10015)
}

fn is_for_host(instr: SubInstruction) -> (r: bool)
    ensures
        r == for_host(instr),
{
    reveal(exec_local);
    reveal(for_host);
    match instr {
        SubInstruction::Noop | SubInstruction::Destroy(_) | SubInstruction::RelativeJump(_, _)
        | SubInstruction::SetInt(_, _) | SubInstruction::CallSpecialFunction(_, _)
        | SubInstruction::Call(_, _, _) | SubInstruction::Return
        | SubInstruction::RelativeJumpIfLowerThan(_, _)
        | SubInstruction::RelativeJumpIfLowerOrEqual(_, _)
        | SubInstruction::RelativeJumpIfEqual(_, _)
        | SubInstruction::RelativeJumpIfGreaterThan(_, _)
        | SubInstruction::RelativeJumpIfGreaterOrEqual(_, _)
        | SubInstruction::RelativeJumpIfNotEqual(_, _) | SubInstruction::SetCollidable(_)
        | SubInstruction::SetDamageable(_) | SubInstruction::SetTouchable(_)
        | SubInstruction::SetDeathFlags(_) | SubInstruction::DelayAttack
        | SubInstruction::NoDelayAttack | SubInstruction::SetUpcomingLaserId(_)
        | SubInstruction::SetDeathAnim(_) | SubInstruction::ClearScreenBox
        | SubInstruction::SetBossMode(_) | SubInstruction::SetLife(_)
        | SubInstruction::SetLowLifeTrigger(_) | SubInstruction::SetLowLifeCallback(_)
        | SubInstruction::SetTimeout(_) | SubInstruction::SetTimeoutCallback(_)
        | SubInstruction::SetDeathCallback(_) | SubInstruction::SetInvisible(_)
        | SubInstruction::SetRemainingLives(_) | SubInstruction::MemoryWriteInt(_, _) => false,
        SubInstruction::RelativeJumpEx(_, _, v) => is_float_sourced(v),
        SubInstruction::AddInt(_, a, b) | SubInstruction::SubstractInt(_, a, b)
        | SubInstruction::MultiplyInt(_, a, b) | SubInstruction::DivideInt(_, a, b)
        | SubInstruction::Modulo(_, a, b) => is_float_sourced(a) || is_float_sourced(b),
        SubInstruction::Increment(v) => is_float_sourced(v),
        SubInstruction::CompareInts(a, b) => is_float_sourced(a) || is_float_sourced(b),
        SubInstruction::CallIfEqual(_, _, _, a, b) => is_float_sourced(a) || is_float_sourced(b),
        _ => true,
    }
}

fn jump_if(st: EclState, cond: bool, frame: i32, ip: i32) -> (r: EclState)
    ensures
        r == if cond {
            jump(st, frame, ip)
        } else {
            st
        },
{
    if cond {
        EclState { frame, ip, ..st }
    } else {
        st
    }
}

/// Runs an integer arithmetic instruction.
fn arith_step(st: EclState, instr: SubInstruction, rank: Rank, difficulty: i32) -> (r: EclState)
    requires
        instr is AddInt || instr is SubstractInt || instr is MultiplyInt || instr is DivideInt
            || instr is Modulo || instr is Increment,
    ensures
        r == exec_local(st, instr, rank, difficulty),
{
    reveal(exec_local);
    reveal(for_host);
    match instr {
        SubInstruction::AddInt(var, a, b) => arith_exec(st, var, a, b, rank, difficulty, IntOp::Add),
        SubInstruction::SubstractInt(var, a, b) => arith_exec(st, var, a, b, rank, difficulty, IntOp::Sub),
        SubInstruction::MultiplyInt(var, a, b) => arith_exec(st, var, a, b, rank, difficulty, IntOp::Mul),
        SubInstruction::DivideInt(var, a, b) => arith_exec(st, var, a, b, rank, difficulty, IntOp::Div),
        SubInstruction::Modulo(var, a, b) => arith_exec(st, var, a, b, rank, difficulty, IntOp::Mod),
        SubInstruction::Increment(var) => arith_exec(st, var, var, 1, rank, difficulty, IntOp::Add),
        _ => st,
    }
}

/// Runs an instruction that reads integer operands to test them.
fn test_step(st: EclState, instr: SubInstruction, rank: Rank, difficulty: i32) -> (r: EclState)
    requires
        instr is RelativeJumpEx || instr is CompareInts || instr is CallIfEqual,
    ensures
        r == exec_local(st, instr, rank, difficulty),
{
    reveal(exec_local);
    reveal(for_host);
    match instr {
        SubInstruction::RelativeJumpEx(frame, ip, var) => match read_int_exec(&st, var, rank, difficulty) {
            Err(e) => fail_exec(st, e),
            Ok(v) => match write_int_exec(st, var, v.wrapping_sub(1)) {
                Err(e) => fail_exec(st, e),
                Ok(s) => jump_if(s, v.wrapping_sub(1) > 0, frame as i32, ip),
            },
        },
        SubInstruction::CompareInts(a, b) => {
            let x = match read_int_exec(&st, a, rank, difficulty) {
                Ok(x) => x,
                Err(e) => {
                    return fail_exec(st, e);
                },
            };
            let y = match read_int_exec(&st, b, rank, difficulty) {
                Ok(y) => y,
                Err(e) => {
                    return fail_exec(st, e);
                },
            };
            let reg: i8 = if x < y {
                -1
            } else if x == y {
                0
            } else {
                1
            };
            EclState { comparison_reg: reg, ..st }
        },
        SubInstruction::CallIfEqual(_, _, _, a, b) => {
            let x = match read_int_exec(&st, a, rank, difficulty) {
                Ok(x) => x,
                Err(e) => {
                    return fail_exec(st, e);
                },
            };
            let y = match read_int_exec(&st, b, rank, difficulty) {
                Ok(y) => y,
                Err(e) => {
                    return fail_exec(st, e);
                },
            };
            if x == y {
                fail_exec(st, EclError::UnknownOpcode)
            } else {
                st
            }
        },
        _ => st,
    }
}

/// Runs an instruction that is not the host's.
fn local_step(st: EclState, instr: SubInstruction, rank: Rank, difficulty: i32) -> (r: EclState)
    requires
        !for_host(instr),
    ensures
        r == exec_local(st, instr, rank, difficulty),
{
    reveal(exec_local);
    reveal(for_host);
    let en = st.enemy;
    match instr {
        SubInstruction::Destroy(_) => EclState {
            enemy: Enemy { removed: true, ..en },
            running: false,
            ..st
        },
        SubInstruction::RelativeJump(frame, ip) => EclState { frame: frame as i32, ip, ..st },
        SubInstruction::RelativeJumpEx(_, _, _) | SubInstruction::CompareInts(_, _)
        | SubInstruction::CallIfEqual(_, _, _, _, _) => test_step(st, instr, rank, difficulty),
        SubInstruction::SetInt(var, value) => match write_int_exec(st, var, value) {
            Ok(s) => s,
            Err(e) => fail_exec(st, e),
        },
        SubInstruction::AddInt(_, _, _) | SubInstruction::SubstractInt(_, _, _)
        | SubInstruction::MultiplyInt(_, _, _) | SubInstruction::DivideInt(_, _, _)
        | SubInstruction::Modulo(_, _, _) | SubInstruction::Increment(_) => arith_step(
            st,
            instr,
            rank,
            difficulty,
        ),
        SubInstruction::RelativeJumpIfLowerThan(f, ip) => jump_if(st, st.comparison_reg == -1, f, ip),
        SubInstruction::RelativeJumpIfLowerOrEqual(f, ip) => jump_if(st, st.comparison_reg != 1, f, ip),
        SubInstruction::RelativeJumpIfEqual(f, ip) => jump_if(st, st.comparison_reg == 0, f, ip),
        SubInstruction::RelativeJumpIfGreaterThan(f, ip) => jump_if(st, st.comparison_reg == 1, f, ip),
        SubInstruction::RelativeJumpIfGreaterOrEqual(f, ip) => jump_if(
            st,
            st.comparison_reg != -1,
            f,
            ip,
        ),
        SubInstruction::RelativeJumpIfNotEqual(f, ip) => jump_if(st, st.comparison_reg != 0, f, ip),
        SubInstruction::Call(_, _, _) => fail_exec(st, EclError::UnknownOpcode),
        SubInstruction::Return => fail_exec(st, EclError::UnknownOpcode),
        SubInstruction::CallSpecialFunction(_, _) => fail_exec(st, EclError::UnknownOpcode),
        SubInstruction::MemoryWriteInt(_, _) => fail_exec(st, EclError::HostCallbackRefused),
        SubInstruction::SetCollidable(_) | SubInstruction::SetDamageable(_)
        | SubInstruction::SetTouchable(_) | SubInstruction::SetDeathFlags(_)
        | SubInstruction::DelayAttack | SubInstruction::NoDelayAttack
        | SubInstruction::SetUpcomingLaserId(_) | SubInstruction::SetDeathAnim(_)
        | SubInstruction::ClearScreenBox | SubInstruction::SetBossMode(_)
        | SubInstruction::SetLife(_) | SubInstruction::SetLowLifeTrigger(_)
        | SubInstruction::SetLowLifeCallback(_) | SubInstruction::SetTimeout(_)
        | SubInstruction::SetTimeoutCallback(_) | SubInstruction::SetDeathCallback(_)
        | SubInstruction::SetInvisible(_) | SubInstruction::SetRemainingLives(_) => enemy_step(
            st,
            instr,
        ),
        _ => st,
    }
}

/// Whether an instruction only sets a field of the enemy.
pub open spec fn sets_enemy(instr: SubInstruction) -> bool {
    match instr {
        SubInstruction::SetCollidable(_) | SubInstruction::SetDamageable(_)
        | SubInstruction::SetTouchable(_) | SubInstruction::SetDeathFlags(_)
        | SubInstruction::DelayAttack | SubInstruction::NoDelayAttack
        | SubInstruction::SetUpcomingLaserId(_) | SubInstruction::SetDeathAnim(_)
        | SubInstruction::ClearScreenBox | SubInstruction::SetBossMode(_)
        | SubInstruction::SetLife(_) | SubInstruction::SetLowLifeTrigger(_)
        | SubInstruction::SetLowLifeCallback(_) | SubInstruction::SetTimeout(_)
        | SubInstruction::SetTimeoutCallback(_) | SubInstruction::SetDeathCallback(_)
        | SubInstruction::SetInvisible(_) | SubInstruction::SetRemainingLives(_) => true,
        _ => false,
    }
}

/// Runs an instruction that sets a field of the enemy, or one that does
/// nothing.
fn enemy_step(st: EclState, instr: SubInstruction) -> (r: EclState)
    requires
        sets_enemy(instr),
    ensures
        forall|rank: Rank, difficulty: i32| r == #[trigger] exec_local(st, instr, rank, difficulty),
{
    reveal(exec_local);
    reveal(for_host);
    let en = st.enemy;
    match instr {
        SubInstruction::SetCollidable(v) => EclState {
            enemy: Enemy { collidable: v & 1 != 0, ..en },
            ..st
        },
        SubInstruction::SetDamageable(v) => EclState {
            enemy: Enemy { damageable: v & 1 != 0, ..en },
            ..st
        },
        SubInstruction::SetTouchable(v) => EclState { enemy: Enemy { touchable: v != 0, ..en }, ..st },
        SubInstruction::SetDeathFlags(v) => EclState {
            enemy: Enemy { death_flags: v as u32, ..en },
            ..st
        },
        SubInstruction::DelayAttack => EclState { enemy: Enemy { delay_attack: true, ..en }, ..st },
        SubInstruction::NoDelayAttack => EclState {
            enemy: Enemy { delay_attack: false, ..en },
            ..st
        },
        SubInstruction::SetUpcomingLaserId(id) => EclState {
            enemy: Enemy { current_laser_id: id as u32, ..en },
            ..st
        },
        SubInstruction::SetDeathAnim(i) => EclState { enemy: Enemy { death_anim: i, ..en }, ..st },
        SubInstruction::ClearScreenBox => EclState { enemy: Enemy { screen_box: None, ..en }, ..st },
        SubInstruction::SetBossMode(v) => EclState { enemy: Enemy { boss: v != 0, ..en }, ..st },
        SubInstruction::SetLife(l) => EclState {
            enemy: Enemy {
                life: if l < 0 {
                    0
                } else {
                    l as u32
                },
                ..en
            },
            ..st
        },
        SubInstruction::SetLowLifeTrigger(t) => EclState {
            enemy: Enemy { low_life_trigger: Some(t as u32), ..en },
            ..st
        },
        SubInstruction::SetLowLifeCallback(sub) => EclState {
            enemy: Enemy { low_life_callback: Some(sub), ..en },
            ..st
        },
        SubInstruction::SetTimeout(t) => EclState {
            enemy: Enemy { timeout: Some(t as u32), ..en },
            ..st
        },
        SubInstruction::SetTimeoutCallback(sub) => EclState {
            enemy: Enemy { timeout_callback: Some(sub), ..en },
            ..st
        },
        SubInstruction::SetDeathCallback(sub) => EclState {
            enemy: Enemy { death_callback: Some(sub), ..en },
            ..st
        },
        SubInstruction::SetInvisible(v) => EclState { enemy: Enemy { visible: v == 0, ..en }, ..st },
        SubInstruction::SetRemainingLives(n) => EclState {
            enemy: Enemy { remaining_lives: n as u32, ..en },
            ..st
        },
        _ => st,
    }
}

impl EclRunner {
    /// Create a runner of sub `sub` of `ecl` driving `enemy`, at the given
    /// rank and difficulty. No runner where the file has no such sub.
    pub fn new(ecl: &Ecl, enemy: Enemy, sub: u8, rank: Rank, difficulty: i32) -> (r: Option<EclRunner>)
        ensures
            (sub as int) < ecl.subs@.len() <==> r is Some,
            r matches Some(run) ==> {
                &&& run.sub@ == ecl.subs@[sub as int].instructions@
                &&& run.sub_index == sub
                &&& run.rank == rank
                &&& run.difficulty == difficulty
                &&& run.state == EclState {
                    enemy,
                    running: true,
                    frame: 0,
                    ip: 0,
                    variables: Variables {
                        ints: IntBank { a: 0, b: 0, c: 0, d: 0 },
                        floats: FloatBank { a: 0, b: 0, c: 0, d: 0 },
                        ints2: IntBank { a: 0, b: 0, c: 0, d: 0 },
                    },
                    comparison_reg: 0,
                    steps_left: MAX_STEPS_PER_FRAME,
                    error: None,
                }
            },
    {
        if sub as usize >= ecl.subs.len() {
            return None;
        }
        Some(
            EclRunner {
                sub: crate::anm0_vm::copy_vec(&ecl.subs[sub as usize].instructions),
                sub_index: sub,
                rank,
                difficulty,
                state: EclState {
                    enemy,
                    running: true,
                    frame: 0,
                    ip: 0,
                    variables: Variables {
                        ints: IntBank { a: 0, b: 0, c: 0, d: 0 },
                        floats: FloatBank { a: 0, b: 0, c: 0, d: 0 },
                        ints2: IntBank { a: 0, b: 0, c: 0, d: 0 },
                    },
                    comparison_reg: 0,
                    steps_left: MAX_STEPS_PER_FRAME,
                    error: None,
                },
            },
        )
    }

    /// One turn of the dispatch loop: `None` where the loop goes on, else
    /// how it ends.
    fn step(&mut self) -> (r: Option<Option<SubInstruction>>)
        ensures
            final(self).sub == old(self).sub,
            final(self).sub_index == old(self).sub_index,
            final(self).rank == old(self).rank,
            final(self).difficulty == old(self).difficulty,
            ({
                let d = ecl_dispatch(old(self).state, old(self).sub@, old(self).rank, old(self).difficulty);
                match r {
                    Some(h) => d == (final(self).state, h),
                    None => final(self).state.steps_left < old(self).state.steps_left && d
                        == ecl_dispatch(final(self).state, old(self).sub@, old(self).rank, old(self).difficulty),
                }
            }),
    {
        if !self.state.running {
            return Some(None);
        }
        if self.state.steps_left == 0 {
            self.state = fail_exec(self.state, EclError::Runaway);
            return Some(None);
        }
        if self.state.ip < 0 || self.state.ip as usize >= self.sub.len() {
            self.state.running = false;
            return Some(None);
        }
        let call = self.sub[self.state.ip as usize];
        if call.time as i64 > self.state.frame as i64 {
            return Some(None);
        }
        self.state.ip = self.state.ip.wrapping_add(1);
        self.state.steps_left = self.state.steps_left - 1;
        if call.rank_mask & self.rank.bits() == 0 {
            return None;
        }
        if call.time as i64 == self.state.frame as i64 {
            if is_for_host(call.instr) {
                return Some(Some(call.instr));
            }
            let steps_left = self.state.steps_left;
            let next = local_step(self.state, call.instr, self.rank, self.difficulty);
            self.state = EclState { steps_left, ..next };
        }
        None
    }

    /// Advance the script: run the frame until it ends (the clock then
    /// advances) or until an instruction for the host is due; that one is
    /// returned, and the host runs it before calling again.
    pub fn run_frame(&mut self) -> (r: Step)
        ensures
            final(self).sub == old(self).sub,
            final(self).sub_index == old(self).sub_index,
            final(self).rank == old(self).rank,
            final(self).difficulty == old(self).difficulty,
            ({
                let (st, h) = ecl_dispatch(old(self).state, old(self).sub@, old(self).rank, old(self).difficulty);
                match h {
                    Some(i) => r == Step::Host(i) && final(self).state == st,
                    None => r == Step::FrameDone && final(self).state == end_frame(st),
                }
            }),
    {
        let ghost goal = ecl_dispatch(self.state, self.sub@, self.rank, self.difficulty);
        loop
            invariant
                self.sub == old(self).sub,
                self.sub_index == old(self).sub_index,
                self.rank == old(self).rank,
                self.difficulty == old(self).difficulty,
                goal == ecl_dispatch(old(self).state, self.sub@, self.rank, self.difficulty),
                goal == ecl_dispatch(self.state, self.sub@, self.rank, self.difficulty),
            decreases self.state.steps_left,
        {
            match self.step() {
                None => {},
                Some(Some(instr)) => {
                    return Step::Host(instr);
                },
                Some(None) => {
                    self.state.frame = self.state.frame.wrapping_add(1);
                    self.state.steps_left = MAX_STEPS_PER_FRAME;
                    return Step::FrameDone;
                },
            }
        }
    }

    /// The integer value of operand `var`, for the host.
    pub fn get_i32(&self, var: i32) -> (r: Result<i32, EclError>)
        ensures
            r == read_int(self.state, var, self.rank, self.difficulty),
    {
        read_int_exec(&self.state, var, self.rank, self.difficulty)
    }

    /// Stores `value` in integer variable `var`, for the host; nothing
    /// changes on an error.
    pub fn set_i32(&mut self, var: i32, value: i32) -> (r: Result<(), EclError>)
        ensures
            final(self).sub == old(self).sub,
            final(self).sub_index == old(self).sub_index,
            final(self).rank == old(self).rank,
            final(self).difficulty == old(self).difficulty,
            match write_int(old(self).state, var, value) {
                Ok(s) => r is Ok && final(self).state == s,
                Err(e) => r == Err::<(), EclError>(e) && final(self).state == old(self).state,
            },
    {
        match write_int_exec(self.state, var, value) {
            Ok(s) => {
                self.state = s;
                Ok(())
            },
            Err(e) => Err(e),
        }
    }
}

/// Whether an instruction can move the runner's clock or instruction
/// pointer by a jump.
pub open spec fn is_jump(instr: SubInstruction) -> bool {
    instr is RelativeJump || instr is RelativeJumpEx || instr is RelativeJumpIfLowerThan
        || instr is RelativeJumpIfLowerOrEqual || instr is RelativeJumpIfEqual
        || instr is RelativeJumpIfGreaterThan || instr is RelativeJumpIfGreaterOrEqual
        || instr is RelativeJumpIfNotEqual
}

/// An instruction other than a jump leaves the clock where it is.
pub proof fn lemma_local_keeps_frame(st: EclState, instr: SubInstruction, rank: Rank, difficulty: i32)
    requires
        !is_jump(instr),
    ensures
        exec_local(st, instr, rank, difficulty).frame == st.frame,
{
    reveal(exec_local);
}

/// Without jumps, the dispatch loop never moves the runner's clock.
pub proof fn lemma_dispatch_keeps_frame(st: EclState, sub: Seq<CallSub>, rank: Rank, difficulty: i32)
    requires
        forall|i: int| 0 <= i < sub.len() ==> !is_jump(#[trigger] sub[i].instr),
    ensures
        ecl_dispatch(st, sub, rank, difficulty).0.frame == st.frame,
    decreases st.steps_left,
{
    if st.running && st.steps_left > 0 && 0 <= st.ip < sub.len() {
        let call = sub[st.ip as int];
        if call.time as int <= st.frame as int {
            let st1 = EclState { ip: st.ip.wrapping_add(1), steps_left: (st.steps_left - 1) as u32, ..st };
            if call.rank_mask & rank_bits(rank) == 0 {
                lemma_dispatch_keeps_frame(st1, sub, rank, difficulty);
            } else if call.time as int == st.frame as int {
                if !for_host(call.instr) {
                    let st2 = exec_local(st1, call.instr, rank, difficulty);
                    lemma_local_keeps_frame(st1, call.instr, rank, difficulty);
                    lemma_dispatch_keeps_frame(
                        EclState { steps_left: st1.steps_left, ..st2 },
                        sub,
                        rank,
                        difficulty,
                    );
                }
            } else {
                lemma_dispatch_keeps_frame(st1, sub, rank, difficulty);
            }
        }
    }
}

/// After a frame of a sub without jumps that ends with no instruction for
/// the host, the runner's clock has advanced by exactly one.
pub proof fn lemma_frame_advances(st: EclState, sub: Seq<CallSub>, rank: Rank, difficulty: i32)
    requires
        forall|i: int| 0 <= i < sub.len() ==> !is_jump(#[trigger] sub[i].instr),
        ecl_dispatch(st, sub, rank, difficulty).1 is None,
    ensures
        end_frame(ecl_dispatch(st, sub, rank, difficulty).0).frame == st.frame.wrapping_add(1),
{
    lemma_dispatch_keeps_frame(st, sub, rank, difficulty);
}

} // verus!
