//! The ECL enemy script format: subs (routines run by enemies) and the main
//! timeline that spawns them.
//!
//! Floating-point fields are kept as their IEEE-754 bit patterns.

use crate::bytes::{fits, in_bounds, read_i16, read_i32, read_u16, read_u32, u16_at, u32_at, ParseError};
use crate::text::{decode_field, shift_jis_decoded, until_nul};
use vstd::prelude::*;

verus! {

/// The instructions of the main timeline. Floats are f32 bits.
#[derive(Debug, Clone, Copy, PartialEq, Eq, Structural)]
pub enum MainInstruction {
    SpawnEnemy(u32, u32, u32, i16, i16, u32),
    SpawnEnemyMirrored(u32, u32, u32, i16, i16, u32),
    SpawnEnemyRandom(u32, u32, u32, i16, i16, u32),
    SpawnEnemyMirroredRandom(u32, u32, u32, i16, i16, u32),
    CallMessage,
    WaitMessage,
    ResumeEcl(u32, u32),
    WaitForBossDeath,
}

/// The number of argument bytes of a main opcode, or `None` for an unknown one.
pub open spec fn main_args_len(opcode: u16) -> Option<nat> {
    if opcode == 0 {
        Some(20)
    } else if opcode == 2 {
        Some(20)
    } else if opcode == 4 {
        Some(20)
    } else if opcode == 6 {
        Some(20)
    } else if opcode == 8 {
        Some(0)
    } else if opcode == 9 {
        Some(0)
    } else if opcode == 10 {
        Some(8)
    } else if opcode == 12 {
        Some(0)
    } else {
        None
    }
}

fn main_args_len_exec(opcode: u16) -> (r: Option<usize>)
    ensures
        r matches Some(n) ==> main_args_len(opcode) == Some(n as nat),
        r is None ==> main_args_len(opcode) is None,
{
    if opcode == 0 {
        Some(20)
    } else if opcode == 2 {
        Some(20)
    } else if opcode == 4 {
        Some(20)
    } else if opcode == 6 {
        Some(20)
    } else if opcode == 8 {
        Some(0)
    } else if opcode == 9 {
        Some(0)
    } else if opcode == 10 {
        Some(8)
    } else if opcode == 12 {
        Some(0)
    } else {
        None
    }
}

/// The main instruction of a known opcode whose arguments start at `i`.
pub open spec fn main_instruction_at(s: Seq<u8>, i: int, opcode: u16) -> MainInstruction {
    if opcode == 0 {
        MainInstruction::SpawnEnemy(u32_at(s, i), u32_at(s, i + 4), u32_at(s, i + 8), u16_at(s, i + 12) as i16, u16_at(s, i + 14) as i16, u32_at(s, i + 16))
    } else if opcode == 2 {
        MainInstruction::SpawnEnemyMirrored(u32_at(s, i), u32_at(s, i + 4), u32_at(s, i + 8), u16_at(s, i + 12) as i16, u16_at(s, i + 14) as i16, u32_at(s, i + 16))
    } else if opcode == 4 {
        MainInstruction::SpawnEnemyRandom(u32_at(s, i), u32_at(s, i + 4), u32_at(s, i + 8), u16_at(s, i + 12) as i16, u16_at(s, i + 14) as i16, u32_at(s, i + 16))
    } else if opcode == 6 {
        MainInstruction::SpawnEnemyMirroredRandom(u32_at(s, i), u32_at(s, i + 4), u32_at(s, i + 8), u16_at(s, i + 12) as i16, u16_at(s, i + 14) as i16, u32_at(s, i + 16))
    } else if opcode == 8 {
        MainInstruction::CallMessage
    } else if opcode == 9 {
        MainInstruction::WaitMessage
    } else if opcode == 10 {
        MainInstruction::ResumeEcl(u32_at(s, i), u32_at(s, i + 4))
    } else {
        MainInstruction::WaitForBossDeath
    }
}

fn parse_main_instruction(s: &[u8], i: usize, opcode: u16) -> (r: MainInstruction)
    requires
        main_args_len(opcode) matches Some(n) && fits(s@, i as int, n as int),
        s@.len() <= usize::MAX,
    ensures
        r == main_instruction_at(s@, i as int, opcode),
{
    if opcode == 0 {
        MainInstruction::SpawnEnemy(read_u32(s, i).unwrap(), read_u32(s, i + 4).unwrap(), read_u32(s, i + 8).unwrap(), read_i16(s, i + 12).unwrap(), read_i16(s, i + 14).unwrap(), read_u32(s, i + 16).unwrap())
    } else if opcode == 2 {
        MainInstruction::SpawnEnemyMirrored(read_u32(s, i).unwrap(), read_u32(s, i + 4).unwrap(), read_u32(s, i + 8).unwrap(), read_i16(s, i + 12).unwrap(), read_i16(s, i + 14).unwrap(), read_u32(s, i + 16).unwrap())
    } else if opcode == 4 {
        MainInstruction::SpawnEnemyRandom(read_u32(s, i).unwrap(), read_u32(s, i + 4).unwrap(), read_u32(s, i + 8).unwrap(), read_i16(s, i + 12).unwrap(), read_i16(s, i + 14).unwrap(), read_u32(s, i + 16).unwrap())
    } else if opcode == 6 {
        MainInstruction::SpawnEnemyMirroredRandom(read_u32(s, i).unwrap(), read_u32(s, i + 4).unwrap(), read_u32(s, i + 8).unwrap(), read_i16(s, i + 12).unwrap(), read_i16(s, i + 14).unwrap(), read_u32(s, i + 16).unwrap())
    } else if opcode == 8 {
        MainInstruction::CallMessage
    } else if opcode == 9 {
        MainInstruction::WaitMessage
    } else if opcode == 10 {
        MainInstruction::ResumeEcl(read_u32(s, i).unwrap(), read_u32(s, i + 4).unwrap())
    } else {
        MainInstruction::WaitForBossDeath
    }
}

/// The instructions of subs. Floats are f32 bits.
#[derive(Debug, Clone, Copy, PartialEq, Eq, Structural)]
pub enum SubInstruction {
    Noop,
    Destroy(u32),
    RelativeJump(u32, i32),
    RelativeJumpEx(u32, i32, i32),
    SetInt(i32, i32),
    SetFloat(i32, u32),
    SetRandomInt(i32, i32),
    SetRandomFloat(i32, u32),
    SetRandomFloat2(i32, u32, u32),
    StoreX(i32),
    AddInt(i32, i32, i32),
    SubstractInt(i32, i32, i32),
    MultiplyInt(i32, i32, i32),
    DivideInt(i32, i32, i32),
    Modulo(i32, i32, i32),
    Increment(i32),
    AddFloat(i32, u32, u32),
    SubstractFloat(i32, u32, u32),
    DivideFloat(i32, u32, u32),
    GetDirection(i32, u32, u32, u32, u32),
    FloatToUnitCircle(i32),
    CompareInts(i32, i32),
    CompareFloats(u32, u32),
    RelativeJumpIfLowerThan(i32, i32),
    RelativeJumpIfLowerOrEqual(i32, i32),
    RelativeJumpIfEqual(i32, i32),
    RelativeJumpIfGreaterThan(i32, i32),
    RelativeJumpIfGreaterOrEqual(i32, i32),
    RelativeJumpIfNotEqual(i32, i32),
    Call(i32, i32, u32),
    Return,
    CallIfEqual(i32, i32, u32, i32, i32),
    SetPosition(u32, u32, u32),
    SetAngleAndSpeed(u32, u32),
    SetRotationSpeed(u32),
    SetSpeed(u32),
    SetAcceleration(u32),
    SetRandomAngle(u32, u32),
    SetRandomAngleEx(u32, u32),
    TargetPlayer(u32, u32),
    MoveInDecel(i32, u32, u32),
    MoveToLinear(i32, u32, u32, u32),
    MoveToDecel(i32, u32, u32, u32),
    MoveToAccel(i32, u32, u32, u32),
    StopIn(i32),
    StopInAccel(i32),
    SetScreenBox(u32, u32, u32, u32),
    ClearScreenBox,
    SetBulletAttributes1(i16, i16, i32, i32, u32, u32, u32, u32, i32),
    SetBulletAttributes2(i16, i16, i32, i32, u32, u32, u32, u32, i32),
    SetBulletAttributes3(i16, i16, i32, i32, u32, u32, u32, u32, i32),
    SetBulletAttributes4(i16, i16, i32, i32, u32, u32, u32, u32, i32),
    SetBulletAttributes5(i16, i16, i32, i32, u32, u32, u32, u32, i32),
    SetBulletAttributes6(i16, i16, i32, i32, u32, u32, u32, u32, i32),
    SetBulletAttributes7(i16, i16, i32, i32, u32, u32, u32, u32, i32),
    SetBulletInterval(i32),
    SetBulletIntervalEx(i32),
    DelayAttack,
    NoDelayAttack,
    SetBulletLaunchOffset(u32, u32, u32),
    SetExtendedBulletAttributes(i32, i32, i32, i32, u32, u32, u32, u32),
    ChangeBulletsInStarBonus,
    NewLaser(i16, i16, u32, u32, u32, u32, u32, u32, i32, i32, i32, i32, i32, i32),
    NewLaserTowardsPlayer(i16, i16, u32, u32, u32, u32, u32, u32, i32, i32, i32, i32, i32, i32),
    SetUpcomingLaserId(i32),
    AlterLaserAngle(i32, u32),
    RepositionLaser(i32, u32, u32, u32),
    CancelLaser(i32),
    /// Face, number, and the offset in the file of the 34-byte name.
    SetSpellcard(i16, i16, u32),
    Endspellcard,
    SpawnEnemy(i32, u32, u32, u32, i16, i16, i32),
    KillAllEnemies,
    SetAnim(i32),
    SetMultipleAnims(i16, i16, i16, i16, i16, i16),
    SetAuxAnm(i32, i32),
    SetDeathAnim(i32),
    SetBossMode(i32),
    CreateSquares(i32, u32, u32, u32, u32),
    SetEnemyHitbox(u32, u32, u32),
    SetCollidable(i32),
    SetDamageable(i32),
    PlaySound(i32),
    SetDeathFlags(i32),
    SetDeathCallback(i32),
    MemoryWriteInt(i32, i32),
    SetLife(i32),
    SetEllapsedTime(i32),
    SetLowLifeTrigger(i32),
    SetLowLifeCallback(i32),
    SetTimeout(i32),
    SetTimeoutCallback(i32),
    SetTouchable(i32),
    DropParticles(i32, u32, u8, u8, u8, u8),
    DropBonus(i32),
    SetAutomaticOrientation(i32),
    CallSpecialFunction(i32, i32),
    Unknown122(i32),
    SkipFrames(i32),
    DropSpecificBonus(i32),
    Unknown125,
    SetRemainingLives(i32),
    Unknown127(i32),
    Interrupt(i32),
    InterruptAux(i32, i32),
    Unknown130(i32),
    SetDifficultyCoeffs(u32, u32, i32, i32, i32, i32),
    SetInvisible(i32),
    CopyCallbacks,
    Unknown134,
    EnableSpellcardBonus(i32),
}

/// The number of argument bytes of a sub opcode, or `None` for an unknown one.
pub open spec fn sub_args_len(opcode: u16) -> Option<nat> {
    if opcode == 0 {
        Some(0)
    } else if opcode == 1 {
        Some(4)
    } else if opcode == 2 {
        Some(8)
    } else if opcode == 3 {
        Some(12)
    } else if opcode == 4 {
        Some(8)
    } else if opcode == 5 {
        Some(8)
    } else if opcode == 6 {
        Some(8)
    } else if opcode == 8 {
        Some(8)
    } else if opcode == 9 {
        Some(12)
    } else if opcode == 10 {
        Some(4)
    } else if opcode == 13 {
        Some(12)
    } else if opcode == 14 {
        Some(12)
    } else if opcode == 15 {
        Some(12)
    } else if opcode == 16 {
        Some(12)
    } else if opcode == 17 {
        Some(12)
    } else if opcode == 18 {
        Some(4)
    } else if opcode == 20 {
        Some(12)
    } else if opcode == 21 {
        Some(12)
    } else if opcode == 23 {
        Some(12)
    } else if opcode == 25 {
        Some(20)
    } else if opcode == 26 {
        Some(4)
    } else if opcode == 27 {
        Some(8)
    } else if opcode == 28 {
        Some(8)
    } else if opcode == 29 {
        Some(8)
    } else if opcode == 30 {
        Some(8)
    } else if opcode == 31 {
        Some(8)
    } else if opcode == 32 {
        Some(8)
    } else if opcode == 33 {
        Some(8)
    } else if opcode == 34 {
        Some(8)
    } else if opcode == 35 {
        Some(12)
    } else if opcode == 36 {
        Some(0)
    } else if opcode == 39 {
        Some(20)
    } else if opcode == 43 {
        Some(12)
    } else if opcode == 45 {
        Some(8)
    } else if opcode == 46 {
        Some(4)
    } else if opcode == 47 {
        Some(4)
    } else if opcode == 48 {
        Some(4)
    } else if opcode == 49 {
        Some(8)
    } else if opcode == 50 {
        Some(8)
    } else if opcode == 51 {
        Some(8)
    } else if opcode == 52 {
        Some(12)
    } else if opcode == 56 {
        Some(16)
    } else if opcode == 57 {
        Some(16)
    } else if opcode == 59 {
        Some(16)
    } else if opcode == 61 {
        Some(4)
    } else if opcode == 63 {
        Some(4)
    } else if opcode == 65 {
        Some(16)
    } else if opcode == 66 {
        Some(0)
    } else if opcode == 67 {
        Some(32)
    } else if opcode == 68 {
        Some(32)
    } else if opcode == 69 {
        Some(32)
    } else if opcode == 70 {
        Some(32)
    } else if opcode == 71 {
        Some(32)
    } else if opcode == 74 {
        Some(32)
    } else if opcode == 75 {
        Some(32)
    } else if opcode == 76 {
        Some(4)
    } else if opcode == 77 {
        Some(4)
    } else if opcode == 78 {
        Some(0)
    } else if opcode == 79 {
        Some(0)
    } else if opcode == 81 {
        Some(12)
    } else if opcode == 82 {
        Some(32)
    } else if opcode == 83 {
        Some(0)
    } else if opcode == 85 {
        Some(52)
    } else if opcode == 86 {
        Some(52)
    } else if opcode == 87 {
        Some(4)
    } else if opcode == 88 {
        Some(8)
    } else if opcode == 90 {
        Some(16)
    } else if opcode == 92 {
        Some(4)
    } else if opcode == 93 {
        Some(38)
    } else if opcode == 94 {
        Some(0)
    } else if opcode == 95 {
        Some(24)
    } else if opcode == 96 {
        Some(0)
    } else if opcode == 97 {
        Some(4)
    } else if opcode == 98 {
        Some(12)
    } else if opcode == 99 {
        Some(8)
    } else if opcode == 100 {
        Some(4)
    } else if opcode == 101 {
        Some(4)
    } else if opcode == 102 {
        Some(20)
    } else if opcode == 103 {
        Some(12)
    } else if opcode == 104 {
        Some(4)
    } else if opcode == 105 {
        Some(4)
    } else if opcode == 106 {
        Some(4)
    } else if opcode == 107 {
        Some(4)
    } else if opcode == 108 {
        Some(4)
    } else if opcode == 109 {
        Some(8)
    } else if opcode == 111 {
        Some(4)
    } else if opcode == 112 {
        Some(4)
    } else if opcode == 113 {
        Some(4)
    } else if opcode == 114 {
        Some(4)
    } else if opcode == 115 {
        Some(4)
    } else if opcode == 116 {
        Some(4)
    } else if opcode == 117 {
        Some(4)
    } else if opcode == 118 {
        Some(12)
    } else if opcode == 119 {
        Some(4)
    } else if opcode == 120 {
        Some(4)
    } else if opcode == 121 {
        Some(8)
    } else if opcode == 122 {
        Some(4)
    } else if opcode == 123 {
        Some(4)
    } else if opcode == 124 {
        Some(4)
    } else if opcode == 125 {
        Some(0)
    } else if opcode == 126 {
        Some(4)
    } else if opcode == 127 {
        Some(4)
    } else if opcode == 128 {
        Some(4)
    } else if opcode == 129 {
        Some(8)
    } else if opcode == 130 {
        Some(4)
    } else if opcode == 131 {
        Some(24)
    } else if opcode == 132 {
        Some(4)
    } else if opcode == 133 {
        Some(0)
    } else if opcode == 134 {
        Some(0)
    } else if opcode == 135 {
        Some(4)
    } else {
        None
    }
}

fn sub_args_len_exec(opcode: u16) -> (r: Option<usize>)
    ensures
        r matches Some(n) ==> sub_args_len(opcode) == Some(n as nat),
        r is None ==> sub_args_len(opcode) is None,
{
    if opcode == 0 {
        Some(0)
    } else if opcode == 1 {
        Some(4)
    } else if opcode == 2 {
        Some(8)
    } else if opcode == 3 {
        Some(12)
    } else if opcode == 4 {
        Some(8)
    } else if opcode == 5 {
        Some(8)
    } else if opcode == 6 {
        Some(8)
    } else if opcode == 8 {
        Some(8)
    } else if opcode == 9 {
        Some(12)
    } else if opcode == 10 {
        Some(4)
    } else if opcode == 13 {
        Some(12)
    } else if opcode == 14 {
        Some(12)
    } else if opcode == 15 {
        Some(12)
    } else if opcode == 16 {
        Some(12)
    } else if opcode == 17 {
        Some(12)
    } else if opcode == 18 {
        Some(4)
    } else if opcode == 20 {
        Some(12)
    } else if opcode == 21 {
        Some(12)
    } else if opcode == 23 {
        Some(12)
    } else if opcode == 25 {
        Some(20)
    } else if opcode == 26 {
        Some(4)
    } else if opcode == 27 {
        Some(8)
    } else if opcode == 28 {
        Some(8)
    } else if opcode == 29 {
        Some(8)
    } else if opcode == 30 {
        Some(8)
    } else if opcode == 31 {
        Some(8)
    } else if opcode == 32 {
        Some(8)
    } else if opcode == 33 {
        Some(8)
    } else if opcode == 34 {
        Some(8)
    } else if opcode == 35 {
        Some(12)
    } else if opcode == 36 {
        Some(0)
    } else if opcode == 39 {
        Some(20)
    } else if opcode == 43 {
        Some(12)
    } else if opcode == 45 {
        Some(8)
    } else if opcode == 46 {
        Some(4)
    } else if opcode == 47 {
        Some(4)
    } else if opcode == 48 {
        Some(4)
    } else if opcode == 49 {
        Some(8)
    } else if opcode == 50 {
        Some(8)
    } else if opcode == 51 {
        Some(8)
    } else if opcode == 52 {
        Some(12)
    } else if opcode == 56 {
        Some(16)
    } else if opcode == 57 {
        Some(16)
    } else if opcode == 59 {
        Some(16)
    } else if opcode == 61 {
        Some(4)
    } else if opcode == 63 {
        Some(4)
    } else if opcode == 65 {
        Some(16)
    } else if opcode == 66 {
        Some(0)
    } else if opcode == 67 {
        Some(32)
    } else if opcode == 68 {
        Some(32)
    } else if opcode == 69 {
        Some(32)
    } else if opcode == 70 {
        Some(32)
    } else if opcode == 71 {
        Some(32)
    } else if opcode == 74 {
        Some(32)
    } else if opcode == 75 {
        Some(32)
    } else if opcode == 76 {
        Some(4)
    } else if opcode == 77 {
        Some(4)
    } else if opcode == 78 {
        Some(0)
    } else if opcode == 79 {
        Some(0)
    } else if opcode == 81 {
        Some(12)
    } else if opcode == 82 {
        Some(32)
    } else if opcode == 83 {
        Some(0)
    } else if opcode == 85 {
        Some(52)
    } else if opcode == 86 {
        Some(52)
    } else if opcode == 87 {
        Some(4)
    } else if opcode == 88 {
        Some(8)
    } else if opcode == 90 {
        Some(16)
    } else if opcode == 92 {
        Some(4)
    } else if opcode == 93 {
        Some(38)
    } else if opcode == 94 {
        Some(0)
    } else if opcode == 95 {
        Some(24)
    } else if opcode == 96 {
        Some(0)
    } else if opcode == 97 {
        Some(4)
    } else if opcode == 98 {
        Some(12)
    } else if opcode == 99 {
        Some(8)
    } else if opcode == 100 {
        Some(4)
    } else if opcode == 101 {
        Some(4)
    } else if opcode == 102 {
        Some(20)
    } else if opcode == 103 {
        Some(12)
    } else if opcode == 104 {
        Some(4)
    } else if opcode == 105 {
        Some(4)
    } else if opcode == 106 {
        Some(4)
    } else if opcode == 107 {
        Some(4)
    } else if opcode == 108 {
        Some(4)
    } else if opcode == 109 {
        Some(8)
    } else if opcode == 111 {
        Some(4)
    } else if opcode == 112 {
        Some(4)
    } else if opcode == 113 {
        Some(4)
    } else if opcode == 114 {
        Some(4)
    } else if opcode == 115 {
        Some(4)
    } else if opcode == 116 {
        Some(4)
    } else if opcode == 117 {
        Some(4)
    } else if opcode == 118 {
        Some(12)
    } else if opcode == 119 {
        Some(4)
    } else if opcode == 120 {
        Some(4)
    } else if opcode == 121 {
        Some(8)
    } else if opcode == 122 {
        Some(4)
    } else if opcode == 123 {
        Some(4)
    } else if opcode == 124 {
        Some(4)
    } else if opcode == 125 {
        Some(0)
    } else if opcode == 126 {
        Some(4)
    } else if opcode == 127 {
        Some(4)
    } else if opcode == 128 {
        Some(4)
    } else if opcode == 129 {
        Some(8)
    } else if opcode == 130 {
        Some(4)
    } else if opcode == 131 {
        Some(24)
    } else if opcode == 132 {
        Some(4)
    } else if opcode == 133 {
        Some(0)
    } else if opcode == 134 {
        Some(0)
    } else if opcode == 135 {
        Some(4)
    } else {
        None
    }
}

/// The sub instruction of a known opcode whose arguments start at `i`.
pub open spec fn sub_instruction_at(s: Seq<u8>, i: int, opcode: u16) -> SubInstruction {
    if opcode == 0 {
        SubInstruction::Noop
    } else if opcode == 1 {
        SubInstruction::Destroy(u32_at(s, i))
    } else if opcode == 2 {
        SubInstruction::RelativeJump(u32_at(s, i), u32_at(s, i + 4) as i32)
    } else if opcode == 3 {
        SubInstruction::RelativeJumpEx(u32_at(s, i), u32_at(s, i + 4) as i32, u32_at(s, i + 8) as i32)
    } else if opcode == 4 {
        SubInstruction::SetInt(u32_at(s, i) as i32, u32_at(s, i + 4) as i32)
    } else if opcode == 5 {
        SubInstruction::SetFloat(u32_at(s, i) as i32, u32_at(s, i + 4))
    } else if opcode == 6 {
        SubInstruction::SetRandomInt(u32_at(s, i) as i32, u32_at(s, i + 4) as i32)
    } else if opcode == 8 {
        SubInstruction::SetRandomFloat(u32_at(s, i) as i32, u32_at(s, i + 4))
    } else if opcode == 9 {
        SubInstruction::SetRandomFloat2(u32_at(s, i) as i32, u32_at(s, i + 4), u32_at(s, i + 8))
    } else if opcode == 10 {
        SubInstruction::StoreX(u32_at(s, i) as i32)
    } else if opcode == 13 {
        SubInstruction::AddInt(u32_at(s, i) as i32, u32_at(s, i + 4) as i32, u32_at(s, i + 8) as i32)
    } else if opcode == 14 {
        SubInstruction::SubstractInt(u32_at(s, i) as i32, u32_at(s, i + 4) as i32, u32_at(s, i + 8) as i32)
    } else if opcode == 15 {
        SubInstruction::MultiplyInt(u32_at(s, i) as i32, u32_at(s, i + 4) as i32, u32_at(s, i + 8) as i32)
    } else if opcode == 16 {
        SubInstruction::DivideInt(u32_at(s, i) as i32, u32_at(s, i + 4) as i32, u32_at(s, i + 8) as i32)
    } else if opcode == 17 {
        SubInstruction::Modulo(u32_at(s, i) as i32, u32_at(s, i + 4) as i32, u32_at(s, i + 8) as i32)
    } else if opcode == 18 {
        SubInstruction::Increment(u32_at(s, i) as i32)
    } else if opcode == 20 {
        SubInstruction::AddFloat(u32_at(s, i) as i32, u32_at(s, i + 4), u32_at(s, i + 8))
    } else if opcode == 21 {
        SubInstruction::SubstractFloat(u32_at(s, i) as i32, u32_at(s, i + 4), u32_at(s, i + 8))
    } else if opcode == 23 {
        SubInstruction::DivideFloat(u32_at(s, i) as i32, u32_at(s, i + 4), u32_at(s, i + 8))
    } else if opcode == 25 {
        SubInstruction::GetDirection(u32_at(s, i) as i32, u32_at(s, i + 4), u32_at(s, i + 8), u32_at(s, i + 12), u32_at(s, i + 16))
    } else if opcode == 26 {
        SubInstruction::FloatToUnitCircle(u32_at(s, i) as i32)
    } else if opcode == 27 {
        SubInstruction::CompareInts(u32_at(s, i) as i32, u32_at(s, i + 4) as i32)
    } else if opcode == 28 {
        SubInstruction::CompareFloats(u32_at(s, i), u32_at(s, i + 4))
    } else if opcode == 29 {
        SubInstruction::RelativeJumpIfLowerThan(u32_at(s, i) as i32, u32_at(s, i + 4) as i32)
    } else if opcode == 30 {
        SubInstruction::RelativeJumpIfLowerOrEqual(u32_at(s, i) as i32, u32_at(s, i + 4) as i32)
    } else if opcode == 31 {
        SubInstruction::RelativeJumpIfEqual(u32_at(s, i) as i32, u32_at(s, i + 4) as i32)
    } else if opcode == 32 {
        SubInstruction::RelativeJumpIfGreaterThan(u32_at(s, i) as i32, u32_at(s, i + 4) as i32)
    } else if opcode == 33 {
        SubInstruction::RelativeJumpIfGreaterOrEqual(u32_at(s, i) as i32, u32_at(s, i + 4) as i32)
    } else if opcode == 34 {
        SubInstruction::RelativeJumpIfNotEqual(u32_at(s, i) as i32, u32_at(s, i + 4) as i32)
    } else if opcode == 35 {
        SubInstruction::Call(u32_at(s, i) as i32, u32_at(s, i + 4) as i32, u32_at(s, i + 8))
    } else if opcode == 36 {
        SubInstruction::Return
    } else if opcode == 39 {
        SubInstruction::CallIfEqual(u32_at(s, i) as i32, u32_at(s, i + 4) as i32, u32_at(s, i + 8), u32_at(s, i + 12) as i32, u32_at(s, i + 16) as i32)
    } else if opcode == 43 {
        SubInstruction::SetPosition(u32_at(s, i), u32_at(s, i + 4), u32_at(s, i + 8))
    } else if opcode == 45 {
        SubInstruction::SetAngleAndSpeed(u32_at(s, i), u32_at(s, i + 4))
    } else if opcode == 46 {
        SubInstruction::SetRotationSpeed(u32_at(s, i))
    } else if opcode == 47 {
        SubInstruction::SetSpeed(u32_at(s, i))
    } else if opcode == 48 {
        SubInstruction::SetAcceleration(u32_at(s, i))
    } else if opcode == 49 {
        SubInstruction::SetRandomAngle(u32_at(s, i), u32_at(s, i + 4))
    } else if opcode == 50 {
        SubInstruction::SetRandomAngleEx(u32_at(s, i), u32_at(s, i + 4))
    } else if opcode == 51 {
        SubInstruction::TargetPlayer(u32_at(s, i), u32_at(s, i + 4))
    } else if opcode == 52 {
        SubInstruction::MoveInDecel(u32_at(s, i) as i32, u32_at(s, i + 4), u32_at(s, i + 8))
    } else if opcode == 56 {
        SubInstruction::MoveToLinear(u32_at(s, i) as i32, u32_at(s, i + 4), u32_at(s, i + 8), u32_at(s, i + 12))
    } else if opcode == 57 {
        SubInstruction::MoveToDecel(u32_at(s, i) as i32, u32_at(s, i + 4), u32_at(s, i + 8), u32_at(s, i + 12))
    } else if opcode == 59 {
        SubInstruction::MoveToAccel(u32_at(s, i) as i32, u32_at(s, i + 4), u32_at(s, i + 8), u32_at(s, i + 12))
    } else if opcode == 61 {
        SubInstruction::StopIn(u32_at(s, i) as i32)
    } else if opcode == 63 {
        SubInstruction::StopInAccel(u32_at(s, i) as i32)
    } else if opcode == 65 {
        SubInstruction::SetScreenBox(u32_at(s, i), u32_at(s, i + 4), u32_at(s, i + 8), u32_at(s, i + 12))
    } else if opcode == 66 {
        SubInstruction::ClearScreenBox
    } else if opcode == 67 {
        SubInstruction::SetBulletAttributes1(u16_at(s, i) as i16, u16_at(s, i + 2) as i16, u32_at(s, i + 4) as i32, u32_at(s, i + 8) as i32, u32_at(s, i + 12), u32_at(s, i + 16), u32_at(s, i + 20), u32_at(s, i + 24), u32_at(s, i + 28) as i32)
    } else if opcode == 68 {
        SubInstruction::SetBulletAttributes2(u16_at(s, i) as i16, u16_at(s, i + 2) as i16, u32_at(s, i + 4) as i32, u32_at(s, i + 8) as i32, u32_at(s, i + 12), u32_at(s, i + 16), u32_at(s, i + 20), u32_at(s, i + 24), u32_at(s, i + 28) as i32)
    } else if opcode == 69 {
        SubInstruction::SetBulletAttributes3(u16_at(s, i) as i16, u16_at(s, i + 2) as i16, u32_at(s, i + 4) as i32, u32_at(s, i + 8) as i32, u32_at(s, i + 12), u32_at(s, i + 16), u32_at(s, i + 20), u32_at(s, i + 24), u32_at(s, i + 28) as i32)
    } else if opcode == 70 {
        SubInstruction::SetBulletAttributes4(u16_at(s, i) as i16, u16_at(s, i + 2) as i16, u32_at(s, i + 4) as i32, u32_at(s, i + 8) as i32, u32_at(s, i + 12), u32_at(s, i + 16), u32_at(s, i + 20), u32_at(s, i + 24), u32_at(s, i + 28) as i32)
    } else if opcode == 71 {
        SubInstruction::SetBulletAttributes5(u16_at(s, i) as i16, u16_at(s, i + 2) as i16, u32_at(s, i + 4) as i32, u32_at(s, i + 8) as i32, u32_at(s, i + 12), u32_at(s, i + 16), u32_at(s, i + 20), u32_at(s, i + 24), u32_at(s, i + 28) as i32)
    } else if opcode == 74 {
        SubInstruction::SetBulletAttributes6(u16_at(s, i) as i16, u16_at(s, i + 2) as i16, u32_at(s, i + 4) as i32, u32_at(s, i + 8) as i32, u32_at(s, i + 12), u32_at(s, i + 16), u32_at(s, i + 20), u32_at(s, i + 24), u32_at(s, i + 28) as i32)
    } else if opcode == 75 {
        SubInstruction::SetBulletAttributes7(u16_at(s, i) as i16, u16_at(s, i + 2) as i16, u32_at(s, i + 4) as i32, u32_at(s, i + 8) as i32, u32_at(s, i + 12), u32_at(s, i + 16), u32_at(s, i + 20), u32_at(s, i + 24), u32_at(s, i + 28) as i32)
    } else if opcode == 76 {
        SubInstruction::SetBulletInterval(u32_at(s, i) as i32)
    } else if opcode == 77 {
        SubInstruction::SetBulletIntervalEx(u32_at(s, i) as i32)
    } else if opcode == 78 {
        SubInstruction::DelayAttack
    } else if opcode == 79 {
        SubInstruction::NoDelayAttack
    } else if opcode == 81 {
        SubInstruction::SetBulletLaunchOffset(u32_at(s, i), u32_at(s, i + 4), u32_at(s, i + 8))
    } else if opcode == 82 {
        SubInstruction::SetExtendedBulletAttributes(u32_at(s, i) as i32, u32_at(s, i + 4) as i32, u32_at(s, i + 8) as i32, u32_at(s, i + 12) as i32, u32_at(s, i + 16), u32_at(s, i + 20), u32_at(s, i + 24), u32_at(s, i + 28))
    } else if opcode == 83 {
        SubInstruction::ChangeBulletsInStarBonus
    } else if opcode == 85 {
        SubInstruction::NewLaser(u16_at(s, i) as i16, u16_at(s, i + 2) as i16, u32_at(s, i + 4), u32_at(s, i + 8), u32_at(s, i + 12), u32_at(s, i + 16), u32_at(s, i + 20), u32_at(s, i + 24), u32_at(s, i + 28) as i32, u32_at(s, i + 32) as i32, u32_at(s, i + 36) as i32, u32_at(s, i + 40) as i32, u32_at(s, i + 44) as i32, u32_at(s, i + 48) as i32)
    } else if opcode == 86 {
        SubInstruction::NewLaserTowardsPlayer(u16_at(s, i) as i16, u16_at(s, i + 2) as i16, u32_at(s, i + 4), u32_at(s, i + 8), u32_at(s, i + 12), u32_at(s, i + 16), u32_at(s, i + 20), u32_at(s, i + 24), u32_at(s, i + 28) as i32, u32_at(s, i + 32) as i32, u32_at(s, i + 36) as i32, u32_at(s, i + 40) as i32, u32_at(s, i + 44) as i32, u32_at(s, i + 48) as i32)
    } else if opcode == 87 {
        SubInstruction::SetUpcomingLaserId(u32_at(s, i) as i32)
    } else if opcode == 88 {
        SubInstruction::AlterLaserAngle(u32_at(s, i) as i32, u32_at(s, i + 4))
    } else if opcode == 90 {
        SubInstruction::RepositionLaser(u32_at(s, i) as i32, u32_at(s, i + 4), u32_at(s, i + 8), u32_at(s, i + 12))
    } else if opcode == 92 {
        SubInstruction::CancelLaser(u32_at(s, i) as i32)
    } else if opcode == 93 {
        SubInstruction::SetSpellcard(u16_at(s, i) as i16, u16_at(s, i + 2) as i16, (i + 4) as u32)
    } else if opcode == 94 {
        SubInstruction::Endspellcard
    } else if opcode == 95 {
        SubInstruction::SpawnEnemy(u32_at(s, i) as i32, u32_at(s, i + 4), u32_at(s, i + 8), u32_at(s, i + 12), u16_at(s, i + 16) as i16, u16_at(s, i + 18) as i16, u32_at(s, i + 20) as i32)
    } else if opcode == 96 {
        SubInstruction::KillAllEnemies
    } else if opcode == 97 {
        SubInstruction::SetAnim(u32_at(s, i) as i32)
    } else if opcode == 98 {
        SubInstruction::SetMultipleAnims(u16_at(s, i) as i16, u16_at(s, i + 2) as i16, u16_at(s, i + 4) as i16, u16_at(s, i + 6) as i16, u16_at(s, i + 8) as i16, u16_at(s, i + 10) as i16)
    } else if opcode == 99 {
        SubInstruction::SetAuxAnm(u32_at(s, i) as i32, u32_at(s, i + 4) as i32)
    } else if opcode == 100 {
        SubInstruction::SetDeathAnim(u32_at(s, i) as i32)
    } else if opcode == 101 {
        SubInstruction::SetBossMode(u32_at(s, i) as i32)
    } else if opcode == 102 {
        SubInstruction::CreateSquares(u32_at(s, i) as i32, u32_at(s, i + 4), u32_at(s, i + 8), u32_at(s, i + 12), u32_at(s, i + 16))
    } else if opcode == 103 {
        SubInstruction::SetEnemyHitbox(u32_at(s, i), u32_at(s, i + 4), u32_at(s, i + 8))
    } else if opcode == 104 {
        SubInstruction::SetCollidable(u32_at(s, i) as i32)
    } else if opcode == 105 {
        SubInstruction::SetDamageable(u32_at(s, i) as i32)
    } else if opcode == 106 {
        SubInstruction::PlaySound(u32_at(s, i) as i32)
    } else if opcode == 107 {
        SubInstruction::SetDeathFlags(u32_at(s, i) as i32)
    } else if opcode == 108 {
        SubInstruction::SetDeathCallback(u32_at(s, i) as i32)
    } else if opcode == 109 {
        SubInstruction::MemoryWriteInt(u32_at(s, i) as i32, u32_at(s, i + 4) as i32)
    } else if opcode == 111 {
        SubInstruction::SetLife(u32_at(s, i) as i32)
    } else if opcode == 112 {
        SubInstruction::SetEllapsedTime(u32_at(s, i) as i32)
    } else if opcode == 113 {
        SubInstruction::SetLowLifeTrigger(u32_at(s, i) as i32)
    } else if opcode == 114 {
        SubInstruction::SetLowLifeCallback(u32_at(s, i) as i32)
    } else if opcode == 115 {
        SubInstruction::SetTimeout(u32_at(s, i) as i32)
    } else if opcode == 116 {
        SubInstruction::SetTimeoutCallback(u32_at(s, i) as i32)
    } else if opcode == 117 {
        SubInstruction::SetTouchable(u32_at(s, i) as i32)
    } else if opcode == 118 {
        SubInstruction::DropParticles(u32_at(s, i) as i32, u32_at(s, i + 4), s[i + 8], s[i + 9], s[i + 10], s[i + 11])
    } else if opcode == 119 {
        SubInstruction::DropBonus(u32_at(s, i) as i32)
    } else if opcode == 120 {
        SubInstruction::SetAutomaticOrientation(u32_at(s, i) as i32)
    } else if opcode == 121 {
        SubInstruction::CallSpecialFunction(u32_at(s, i) as i32, u32_at(s, i + 4) as i32)
    } else if opcode == 122 {
        SubInstruction::Unknown122(u32_at(s, i) as i32)
    } else if opcode == 123 {
        SubInstruction::SkipFrames(u32_at(s, i) as i32)
    } else if opcode == 124 {
        SubInstruction::DropSpecificBonus(u32_at(s, i) as i32)
    } else if opcode == 125 {
        SubInstruction::Unknown125
    } else if opcode == 126 {
        SubInstruction::SetRemainingLives(u32_at(s, i) as i32)
    } else if opcode == 127 {
        SubInstruction::Unknown127(u32_at(s, i) as i32)
    } else if opcode == 128 {
        SubInstruction::Interrupt(u32_at(s, i) as i32)
    } else if opcode == 129 {
        SubInstruction::InterruptAux(u32_at(s, i) as i32, u32_at(s, i + 4) as i32)
    } else if opcode == 130 {
        SubInstruction::Unknown130(u32_at(s, i) as i32)
    } else if opcode == 131 {
        SubInstruction::SetDifficultyCoeffs(u32_at(s, i), u32_at(s, i + 4), u32_at(s, i + 8) as i32, u32_at(s, i + 12) as i32, u32_at(s, i + 16) as i32, u32_at(s, i + 20) as i32)
    } else if opcode == 132 {
        SubInstruction::SetInvisible(u32_at(s, i) as i32)
    } else if opcode == 133 {
        SubInstruction::CopyCallbacks
    } else if opcode == 134 {
        SubInstruction::Unknown134
    } else {
        SubInstruction::EnableSpellcardBonus(u32_at(s, i) as i32)
    }
}

fn parse_sub_instruction(s: &[u8], i: usize, opcode: u16) -> (r: SubInstruction)
    requires
        sub_args_len(opcode) matches Some(n) && fits(s@, i as int, n as int),
        s@.len() <= usize::MAX,
    ensures
        r == sub_instruction_at(s@, i as int, opcode),
{
    if opcode == 0 {
        SubInstruction::Noop
    } else if opcode == 1 {
        SubInstruction::Destroy(read_u32(s, i).unwrap())
    } else if opcode == 2 {
        SubInstruction::RelativeJump(read_u32(s, i).unwrap(), read_i32(s, i + 4).unwrap())
    } else if opcode == 3 {
        SubInstruction::RelativeJumpEx(read_u32(s, i).unwrap(), read_i32(s, i + 4).unwrap(), read_i32(s, i + 8).unwrap())
    } else if opcode == 4 {
        SubInstruction::SetInt(read_i32(s, i).unwrap(), read_i32(s, i + 4).unwrap())
    } else if opcode == 5 {
        SubInstruction::SetFloat(read_i32(s, i).unwrap(), read_u32(s, i + 4).unwrap())
    } else if opcode == 6 {
        SubInstruction::SetRandomInt(read_i32(s, i).unwrap(), read_i32(s, i + 4).unwrap())
    } else if opcode == 8 {
        SubInstruction::SetRandomFloat(read_i32(s, i).unwrap(), read_u32(s, i + 4).unwrap())
    } else if opcode == 9 {
        SubInstruction::SetRandomFloat2(read_i32(s, i).unwrap(), read_u32(s, i + 4).unwrap(), read_u32(s, i + 8).unwrap())
    } else if opcode == 10 {
        SubInstruction::StoreX(read_i32(s, i).unwrap())
    } else if opcode == 13 {
        SubInstruction::AddInt(read_i32(s, i).unwrap(), read_i32(s, i + 4).unwrap(), read_i32(s, i + 8).unwrap())
    } else if opcode == 14 {
        SubInstruction::SubstractInt(read_i32(s, i).unwrap(), read_i32(s, i + 4).unwrap(), read_i32(s, i + 8).unwrap())
    } else if opcode == 15 {
        SubInstruction::MultiplyInt(read_i32(s, i).unwrap(), read_i32(s, i + 4).unwrap(), read_i32(s, i + 8).unwrap())
    } else if opcode == 16 {
        SubInstruction::DivideInt(read_i32(s, i).unwrap(), read_i32(s, i + 4).unwrap(), read_i32(s, i + 8).unwrap())
    } else if opcode == 17 {
        SubInstruction::Modulo(read_i32(s, i).unwrap(), read_i32(s, i + 4).unwrap(), read_i32(s, i + 8).unwrap())
    } else if opcode == 18 {
        SubInstruction::Increment(read_i32(s, i).unwrap())
    } else if opcode == 20 {
        SubInstruction::AddFloat(read_i32(s, i).unwrap(), read_u32(s, i + 4).unwrap(), read_u32(s, i + 8).unwrap())
    } else if opcode == 21 {
        SubInstruction::SubstractFloat(read_i32(s, i).unwrap(), read_u32(s, i + 4).unwrap(), read_u32(s, i + 8).unwrap())
    } else if opcode == 23 {
        SubInstruction::DivideFloat(read_i32(s, i).unwrap(), read_u32(s, i + 4).unwrap(), read_u32(s, i + 8).unwrap())
    } else if opcode == 25 {
        SubInstruction::GetDirection(read_i32(s, i).unwrap(), read_u32(s, i + 4).unwrap(), read_u32(s, i + 8).unwrap(), read_u32(s, i + 12).unwrap(), read_u32(s, i + 16).unwrap())
    } else if opcode == 26 {
        SubInstruction::FloatToUnitCircle(read_i32(s, i).unwrap())
    } else if opcode == 27 {
        SubInstruction::CompareInts(read_i32(s, i).unwrap(), read_i32(s, i + 4).unwrap())
    } else if opcode == 28 {
        SubInstruction::CompareFloats(read_u32(s, i).unwrap(), read_u32(s, i + 4).unwrap())
    } else if opcode == 29 {
        SubInstruction::RelativeJumpIfLowerThan(read_i32(s, i).unwrap(), read_i32(s, i + 4).unwrap())
    } else if opcode == 30 {
        SubInstruction::RelativeJumpIfLowerOrEqual(read_i32(s, i).unwrap(), read_i32(s, i + 4).unwrap())
    } else if opcode == 31 {
        SubInstruction::RelativeJumpIfEqual(read_i32(s, i).unwrap(), read_i32(s, i + 4).unwrap())
    } else if opcode == 32 {
        SubInstruction::RelativeJumpIfGreaterThan(read_i32(s, i).unwrap(), read_i32(s, i + 4).unwrap())
    } else if opcode == 33 {
        SubInstruction::RelativeJumpIfGreaterOrEqual(read_i32(s, i).unwrap(), read_i32(s, i + 4).unwrap())
    } else if opcode == 34 {
        SubInstruction::RelativeJumpIfNotEqual(read_i32(s, i).unwrap(), read_i32(s, i + 4).unwrap())
    } else if opcode == 35 {
        SubInstruction::Call(read_i32(s, i).unwrap(), read_i32(s, i + 4).unwrap(), read_u32(s, i + 8).unwrap())
    } else if opcode == 36 {
        SubInstruction::Return
    } else if opcode == 39 {
        SubInstruction::CallIfEqual(read_i32(s, i).unwrap(), read_i32(s, i + 4).unwrap(), read_u32(s, i + 8).unwrap(), read_i32(s, i + 12).unwrap(), read_i32(s, i + 16).unwrap())
    } else if opcode == 43 {
        SubInstruction::SetPosition(read_u32(s, i).unwrap(), read_u32(s, i + 4).unwrap(), read_u32(s, i + 8).unwrap())
    } else if opcode == 45 {
        SubInstruction::SetAngleAndSpeed(read_u32(s, i).unwrap(), read_u32(s, i + 4).unwrap())
    } else if opcode == 46 {
        SubInstruction::SetRotationSpeed(read_u32(s, i).unwrap())
    } else if opcode == 47 {
        SubInstruction::SetSpeed(read_u32(s, i).unwrap())
    } else if opcode == 48 {
        SubInstruction::SetAcceleration(read_u32(s, i).unwrap())
    } else if opcode == 49 {
        SubInstruction::SetRandomAngle(read_u32(s, i).unwrap(), read_u32(s, i + 4).unwrap())
    } else if opcode == 50 {
        SubInstruction::SetRandomAngleEx(read_u32(s, i).unwrap(), read_u32(s, i + 4).unwrap())
    } else if opcode == 51 {
        SubInstruction::TargetPlayer(read_u32(s, i).unwrap(), read_u32(s, i + 4).unwrap())
    } else if opcode == 52 {
        SubInstruction::MoveInDecel(read_i32(s, i).unwrap(), read_u32(s, i + 4).unwrap(), read_u32(s, i + 8).unwrap())
    } else if opcode == 56 {
        SubInstruction::MoveToLinear(read_i32(s, i).unwrap(), read_u32(s, i + 4).unwrap(), read_u32(s, i + 8).unwrap(), read_u32(s, i + 12).unwrap())
    } else if opcode == 57 {
        SubInstruction::MoveToDecel(read_i32(s, i).unwrap(), read_u32(s, i + 4).unwrap(), read_u32(s, i + 8).unwrap(), read_u32(s, i + 12).unwrap())
    } else if opcode == 59 {
        SubInstruction::MoveToAccel(read_i32(s, i).unwrap(), read_u32(s, i + 4).unwrap(), read_u32(s, i + 8).unwrap(), read_u32(s, i + 12).unwrap())
    } else if opcode == 61 {
        SubInstruction::StopIn(read_i32(s, i).unwrap())
    } else if opcode == 63 {
        SubInstruction::StopInAccel(read_i32(s, i).unwrap())
    } else if opcode == 65 {
        SubInstruction::SetScreenBox(read_u32(s, i).unwrap(), read_u32(s, i + 4).unwrap(), read_u32(s, i + 8).unwrap(), read_u32(s, i + 12).unwrap())
    } else if opcode == 66 {
        SubInstruction::ClearScreenBox
    } else if opcode == 67 {
        SubInstruction::SetBulletAttributes1(read_i16(s, i).unwrap(), read_i16(s, i + 2).unwrap(), read_i32(s, i + 4).unwrap(), read_i32(s, i + 8).unwrap(), read_u32(s, i + 12).unwrap(), read_u32(s, i + 16).unwrap(), read_u32(s, i + 20).unwrap(), read_u32(s, i + 24).unwrap(), read_i32(s, i + 28).unwrap())
    } else if opcode == 68 {
        SubInstruction::SetBulletAttributes2(read_i16(s, i).unwrap(), read_i16(s, i + 2).unwrap(), read_i32(s, i + 4).unwrap(), read_i32(s, i + 8).unwrap(), read_u32(s, i + 12).unwrap(), read_u32(s, i + 16).unwrap(), read_u32(s, i + 20).unwrap(), read_u32(s, i + 24).unwrap(), read_i32(s, i + 28).unwrap())
    } else if opcode == 69 {
        SubInstruction::SetBulletAttributes3(read_i16(s, i).unwrap(), read_i16(s, i + 2).unwrap(), read_i32(s, i + 4).unwrap(), read_i32(s, i + 8).unwrap(), read_u32(s, i + 12).unwrap(), read_u32(s, i + 16).unwrap(), read_u32(s, i + 20).unwrap(), read_u32(s, i + 24).unwrap(), read_i32(s, i + 28).unwrap())
    } else if opcode == 70 {
        SubInstruction::SetBulletAttributes4(read_i16(s, i).unwrap(), read_i16(s, i + 2).unwrap(), read_i32(s, i + 4).unwrap(), read_i32(s, i + 8).unwrap(), read_u32(s, i + 12).unwrap(), read_u32(s, i + 16).unwrap(), read_u32(s, i + 20).unwrap(), read_u32(s, i + 24).unwrap(), read_i32(s, i + 28).unwrap())
    } else if opcode == 71 {
        SubInstruction::SetBulletAttributes5(read_i16(s, i).unwrap(), read_i16(s, i + 2).unwrap(), read_i32(s, i + 4).unwrap(), read_i32(s, i + 8).unwrap(), read_u32(s, i + 12).unwrap(), read_u32(s, i + 16).unwrap(), read_u32(s, i + 20).unwrap(), read_u32(s, i + 24).unwrap(), read_i32(s, i + 28).unwrap())
    } else if opcode == 74 {
        SubInstruction::SetBulletAttributes6(read_i16(s, i).unwrap(), read_i16(s, i + 2).unwrap(), read_i32(s, i + 4).unwrap(), read_i32(s, i + 8).unwrap(), read_u32(s, i + 12).unwrap(), read_u32(s, i + 16).unwrap(), read_u32(s, i + 20).unwrap(), read_u32(s, i + 24).unwrap(), read_i32(s, i + 28).unwrap())
    } else if opcode == 75 {
        SubInstruction::SetBulletAttributes7(read_i16(s, i).unwrap(), read_i16(s, i + 2).unwrap(), read_i32(s, i + 4).unwrap(), read_i32(s, i + 8).unwrap(), read_u32(s, i + 12).unwrap(), read_u32(s, i + 16).unwrap(), read_u32(s, i + 20).unwrap(), read_u32(s, i + 24).unwrap(), read_i32(s, i + 28).unwrap())
    } else if opcode == 76 {
        SubInstruction::SetBulletInterval(read_i32(s, i).unwrap())
    } else if opcode == 77 {
        SubInstruction::SetBulletIntervalEx(read_i32(s, i).unwrap())
    } else if opcode == 78 {
        SubInstruction::DelayAttack
    } else if opcode == 79 {
        SubInstruction::NoDelayAttack
    } else if opcode == 81 {
        SubInstruction::SetBulletLaunchOffset(read_u32(s, i).unwrap(), read_u32(s, i + 4).unwrap(), read_u32(s, i + 8).unwrap())
    } else if opcode == 82 {
        SubInstruction::SetExtendedBulletAttributes(read_i32(s, i).unwrap(), read_i32(s, i + 4).unwrap(), read_i32(s, i + 8).unwrap(), read_i32(s, i + 12).unwrap(), read_u32(s, i + 16).unwrap(), read_u32(s, i + 20).unwrap(), read_u32(s, i + 24).unwrap(), read_u32(s, i + 28).unwrap())
    } else if opcode == 83 {
        SubInstruction::ChangeBulletsInStarBonus
    } else if opcode == 85 {
        SubInstruction::NewLaser(read_i16(s, i).unwrap(), read_i16(s, i + 2).unwrap(), read_u32(s, i + 4).unwrap(), read_u32(s, i + 8).unwrap(), read_u32(s, i + 12).unwrap(), read_u32(s, i + 16).unwrap(), read_u32(s, i + 20).unwrap(), read_u32(s, i + 24).unwrap(), read_i32(s, i + 28).unwrap(), read_i32(s, i + 32).unwrap(), read_i32(s, i + 36).unwrap(), read_i32(s, i + 40).unwrap(), read_i32(s, i + 44).unwrap(), read_i32(s, i + 48).unwrap())
    } else if opcode == 86 {
        SubInstruction::NewLaserTowardsPlayer(read_i16(s, i).unwrap(), read_i16(s, i + 2).unwrap(), read_u32(s, i + 4).unwrap(), read_u32(s, i + 8).unwrap(), read_u32(s, i + 12).unwrap(), read_u32(s, i + 16).unwrap(), read_u32(s, i + 20).unwrap(), read_u32(s, i + 24).unwrap(), read_i32(s, i + 28).unwrap(), read_i32(s, i + 32).unwrap(), read_i32(s, i + 36).unwrap(), read_i32(s, i + 40).unwrap(), read_i32(s, i + 44).unwrap(), read_i32(s, i + 48).unwrap())
    } else if opcode == 87 {
        SubInstruction::SetUpcomingLaserId(read_i32(s, i).unwrap())
    } else if opcode == 88 {
        SubInstruction::AlterLaserAngle(read_i32(s, i).unwrap(), read_u32(s, i + 4).unwrap())
    } else if opcode == 90 {
        SubInstruction::RepositionLaser(read_i32(s, i).unwrap(), read_u32(s, i + 4).unwrap(), read_u32(s, i + 8).unwrap(), read_u32(s, i + 12).unwrap())
    } else if opcode == 92 {
        SubInstruction::CancelLaser(read_i32(s, i).unwrap())
    } else if opcode == 93 {
        SubInstruction::SetSpellcard(read_i16(s, i).unwrap(), read_i16(s, i + 2).unwrap(), (i + 4) as u32)
    } else if opcode == 94 {
        SubInstruction::Endspellcard
    } else if opcode == 95 {
        SubInstruction::SpawnEnemy(read_i32(s, i).unwrap(), read_u32(s, i + 4).unwrap(), read_u32(s, i + 8).unwrap(), read_u32(s, i + 12).unwrap(), read_i16(s, i + 16).unwrap(), read_i16(s, i + 18).unwrap(), read_i32(s, i + 20).unwrap())
    } else if opcode == 96 {
        SubInstruction::KillAllEnemies
    } else if opcode == 97 {
        SubInstruction::SetAnim(read_i32(s, i).unwrap())
    } else if opcode == 98 {
        SubInstruction::SetMultipleAnims(read_i16(s, i).unwrap(), read_i16(s, i + 2).unwrap(), read_i16(s, i + 4).unwrap(), read_i16(s, i + 6).unwrap(), read_i16(s, i + 8).unwrap(), read_i16(s, i + 10).unwrap())
    } else if opcode == 99 {
        SubInstruction::SetAuxAnm(read_i32(s, i).unwrap(), read_i32(s, i + 4).unwrap())
    } else if opcode == 100 {
        SubInstruction::SetDeathAnim(read_i32(s, i).unwrap())
    } else if opcode == 101 {
        SubInstruction::SetBossMode(read_i32(s, i).unwrap())
    } else if opcode == 102 {
        SubInstruction::CreateSquares(read_i32(s, i).unwrap(), read_u32(s, i + 4).unwrap(), read_u32(s, i + 8).unwrap(), read_u32(s, i + 12).unwrap(), read_u32(s, i + 16).unwrap())
    } else if opcode == 103 {
        SubInstruction::SetEnemyHitbox(read_u32(s, i).unwrap(), read_u32(s, i + 4).unwrap(), read_u32(s, i + 8).unwrap())
    } else if opcode == 104 {
        SubInstruction::SetCollidable(read_i32(s, i).unwrap())
    } else if opcode == 105 {
        SubInstruction::SetDamageable(read_i32(s, i).unwrap())
    } else if opcode == 106 {
        SubInstruction::PlaySound(read_i32(s, i).unwrap())
    } else if opcode == 107 {
        SubInstruction::SetDeathFlags(read_i32(s, i).unwrap())
    } else if opcode == 108 {
        SubInstruction::SetDeathCallback(read_i32(s, i).unwrap())
    } else if opcode == 109 {
        SubInstruction::MemoryWriteInt(read_i32(s, i).unwrap(), read_i32(s, i + 4).unwrap())
    } else if opcode == 111 {
        SubInstruction::SetLife(read_i32(s, i).unwrap())
    } else if opcode == 112 {
        SubInstruction::SetEllapsedTime(read_i32(s, i).unwrap())
    } else if opcode == 113 {
        SubInstruction::SetLowLifeTrigger(read_i32(s, i).unwrap())
    } else if opcode == 114 {
        SubInstruction::SetLowLifeCallback(read_i32(s, i).unwrap())
    } else if opcode == 115 {
        SubInstruction::SetTimeout(read_i32(s, i).unwrap())
    } else if opcode == 116 {
        SubInstruction::SetTimeoutCallback(read_i32(s, i).unwrap())
    } else if opcode == 117 {
        SubInstruction::SetTouchable(read_i32(s, i).unwrap())
    } else if opcode == 118 {
        SubInstruction::DropParticles(read_i32(s, i).unwrap(), read_u32(s, i + 4).unwrap(), s[i + 8], s[i + 9], s[i + 10], s[i + 11])
    } else if opcode == 119 {
        SubInstruction::DropBonus(read_i32(s, i).unwrap())
    } else if opcode == 120 {
        SubInstruction::SetAutomaticOrientation(read_i32(s, i).unwrap())
    } else if opcode == 121 {
        SubInstruction::CallSpecialFunction(read_i32(s, i).unwrap(), read_i32(s, i + 4).unwrap())
    } else if opcode == 122 {
        SubInstruction::Unknown122(read_i32(s, i).unwrap())
    } else if opcode == 123 {
        SubInstruction::SkipFrames(read_i32(s, i).unwrap())
    } else if opcode == 124 {
        SubInstruction::DropSpecificBonus(read_i32(s, i).unwrap())
    } else if opcode == 125 {
        SubInstruction::Unknown125
    } else if opcode == 126 {
        SubInstruction::SetRemainingLives(read_i32(s, i).unwrap())
    } else if opcode == 127 {
        SubInstruction::Unknown127(read_i32(s, i).unwrap())
    } else if opcode == 128 {
        SubInstruction::Interrupt(read_i32(s, i).unwrap())
    } else if opcode == 129 {
        SubInstruction::InterruptAux(read_i32(s, i).unwrap(), read_i32(s, i + 4).unwrap())
    } else if opcode == 130 {
        SubInstruction::Unknown130(read_i32(s, i).unwrap())
    } else if opcode == 131 {
        SubInstruction::SetDifficultyCoeffs(read_u32(s, i).unwrap(), read_u32(s, i + 4).unwrap(), read_i32(s, i + 8).unwrap(), read_i32(s, i + 12).unwrap(), read_i32(s, i + 16).unwrap(), read_i32(s, i + 20).unwrap())
    } else if opcode == 132 {
        SubInstruction::SetInvisible(read_i32(s, i).unwrap())
    } else if opcode == 133 {
        SubInstruction::CopyCallbacks
    } else if opcode == 134 {
        SubInstruction::Unknown134
    } else {
        SubInstruction::EnableSpellcardBonus(read_i32(s, i).unwrap())
    }
}

/// A single instruction of a sub.
#[derive(Debug, Clone, Copy, PartialEq, Eq, Structural)]
pub struct CallSub {
    /// Frame at which this instruction runs.
    pub time: u32,
    /// Ranks at which this instruction runs: bit `8 + r` for rank `r`.
    pub rank_mask: u16,
    pub param_mask: u16,
    /// The instruction to run.
    pub instr: SubInstruction,
}

/// A routine run by enemies.
#[derive(Debug, Clone)]
pub struct Sub {
    /// List of instructions in this sub.
    pub instructions: Vec<CallSub>,
}

/// A single instruction of the main timeline.
#[derive(Debug, Clone, Copy, PartialEq, Eq, Structural)]
pub struct CallMain {
    /// Frame at which this instruction runs.
    pub time: u16,
    /// Sub to run for the enemy this instruction spawns.
    pub sub: u16,
    /// The instruction to run.
    pub instr: MainInstruction,
}

/// The main timeline.
#[derive(Debug, Clone)]
pub struct Main {
    /// List of instructions in this timeline.
    pub instructions: Vec<CallMain>,
}

/// An enemy script file.
#[derive(Debug, Clone)]
pub struct Ecl {
    /// A list of subs.
    pub subs: Vec<Sub>,
    /// A list of mains.
    pub mains: Vec<Main>,
}

/// The instructions of a sub from offset `off` on, after `acc`: records of
/// time (u32), opcode, size, rank mask and parameter mask (u16) and
/// arguments, `size` bytes in all, up to a record of time 0xFFFFFFFF or of
/// opcode 0xFFFF.
#[verifier::opaque]
pub open spec fn sub_calls_from(s: Seq<u8>, off: int, acc: Seq<CallSub>) -> Result<Seq<CallSub>, ParseError>
    decreases s.len() - off,
{
    if !fits(s, off, 6) {
        Err(ParseError::Truncated)
    } else {
        let time = u32_at(s, off);
        let opcode = u16_at(s, off + 4);
        if time == 0xffff_ffff || opcode == 0xffff {
            Ok(acc)
        } else if !fits(s, off, 12) {
            Err(ParseError::Truncated)
        } else {
            let size = u16_at(s, off + 6) as int;
            if size < 12 {
                Err(ParseError::BadSize)
            } else if !fits(s, off, size) {
                Err(ParseError::Truncated)
            } else {
                match sub_args_len(opcode) {
                    None => Err(ParseError::UnknownOpcode),
                    Some(n) => if n != size - 12 {
                        Err(ParseError::BadSize)
                    } else {
                        sub_calls_from(
                            s,
                            off + size,
                            acc.push(
                                CallSub {
                                    time,
                                    rank_mask: u16_at(s, off + 8),
                                    param_mask: u16_at(s, off + 10),
                                    instr: sub_instruction_at(s, off + 12, opcode),
                                },
                            ),
                        )
                    },
                }
            }
        }
    }
}

/// The instructions of a main timeline from offset `off` on, after `acc`:
/// records of time, sub, opcode and size (u16) and arguments, `size` bytes
/// in all, up to a record of time 0xFFFF and sub 4.
#[verifier::opaque]
pub open spec fn main_calls_from(s: Seq<u8>, off: int, acc: Seq<CallMain>) -> Result<Seq<CallMain>, ParseError>
    decreases s.len() - off,
{
    if !fits(s, off, 4) {
        Err(ParseError::Truncated)
    } else {
        let time = u16_at(s, off);
        let sub = u16_at(s, off + 2);
        if time == 0xffff && sub == 4 {
            Ok(acc)
        } else if !fits(s, off, 8) {
            Err(ParseError::Truncated)
        } else {
            let opcode = u16_at(s, off + 4);
            let size = u16_at(s, off + 6) as int;
            if size < 8 {
                Err(ParseError::BadSize)
            } else if !fits(s, off, size) {
                Err(ParseError::Truncated)
            } else {
                match main_args_len(opcode) {
                    None => Err(ParseError::UnknownOpcode),
                    Some(n) => if n != size - 8 {
                        Err(ParseError::BadSize)
                    } else {
                        main_calls_from(
                            s,
                            off + size,
                            acc.push(CallMain { time, sub, instr: main_instruction_at(s, off + 8, opcode) }),
                        )
                    },
                }
            }
        }
    }
}

/// Offset of the `k`-th sub offset.
pub open spec fn sub_slot(k: int) -> int {
    16 + 4 * k
}

/// The number of main timelines: those before the first zero among the
/// three main offsets.
pub open spec fn main_count(s: Seq<u8>) -> int {
    if u32_at(s, 4) == 0 {
        0
    } else if u32_at(s, 8) == 0 {
        1
    } else if u32_at(s, 12) == 0 {
        2
    } else {
        3
    }
}

/// Whether `s` holds a well-formed enemy script file.
pub open spec fn ecl_ok(s: Seq<u8>) -> bool {
    &&& fits(s, 0, 16)
    &&& u16_at(s, 2) == 0
    &&& fits(s, 16, 4 * u16_at(s, 0))
    &&& forall|k: int|
        0 <= k < u16_at(s, 0) ==> #[trigger] sub_calls_from(s, u32_at(s, sub_slot(k)) as int, Seq::empty()) is Ok
    &&& forall|k: int|
        0 <= k < main_count(s) ==> #[trigger] main_calls_from(s, u32_at(s, 4 + 4 * k) as int, Seq::empty()) is Ok
}

fn parse_sub(s: &[u8], offset: usize) -> (r: Result<Sub, ParseError>)
    ensures
        match sub_calls_from(s@, offset as int, Seq::empty()) {
            Ok(v) => r matches Ok(w) && w.instructions@ == v,
            Err(e) => r matches Err(f) && f == e,
        },
{
    let mut instructions: Vec<CallSub> = Vec::new();
    let mut off = offset;
    loop
        invariant
            sub_calls_from(s@, offset as int, Seq::empty()) == sub_calls_from(s@, off as int, instructions@),
        decreases s@.len() - off,
    {
        proof {
            reveal(sub_calls_from);
        }
        if !in_bounds(s, off, 6) {
            return Err(ParseError::Truncated);
        }
        let time = read_u32(s, off).unwrap();
        let opcode = read_u16(s, off + 4).unwrap();
        if time == 0xffff_ffff || opcode == 0xffff {
            return Ok(Sub { instructions });
        }
        if !in_bounds(s, off, 12) {
            return Err(ParseError::Truncated);
        }
        let size = read_u16(s, off + 6).unwrap() as usize;
        if size < 12 {
            return Err(ParseError::BadSize);
        }
        if !in_bounds(s, off, size) {
            return Err(ParseError::Truncated);
        }
        let n = match sub_args_len_exec(opcode) {
            Some(n) => n,
            None => {
                return Err(ParseError::UnknownOpcode);
            },
        };
        if n != size - 12 {
            return Err(ParseError::BadSize);
        }
        let instr = parse_sub_instruction(s, off + 12, opcode);
        instructions.push(
            CallSub {
                time,
                rank_mask: read_u16(s, off + 8).unwrap(),
                param_mask: read_u16(s, off + 10).unwrap(),
                instr,
            },
        );
        off = off + size;
    }
}

fn parse_main(s: &[u8], offset: usize) -> (r: Result<Main, ParseError>)
    ensures
        match main_calls_from(s@, offset as int, Seq::empty()) {
            Ok(v) => r matches Ok(w) && w.instructions@ == v,
            Err(e) => r matches Err(f) && f == e,
        },
{
    let mut instructions: Vec<CallMain> = Vec::new();
    let mut off = offset;
    loop
        invariant
            main_calls_from(s@, offset as int, Seq::empty()) == main_calls_from(s@, off as int, instructions@),
        decreases s@.len() - off,
    {
        proof {
            reveal(main_calls_from);
        }
        if !in_bounds(s, off, 4) {
            return Err(ParseError::Truncated);
        }
        let time = read_u16(s, off).unwrap();
        let sub = read_u16(s, off + 2).unwrap();
        if time == 0xffff && sub == 4 {
            return Ok(Main { instructions });
        }
        if !in_bounds(s, off, 8) {
            return Err(ParseError::Truncated);
        }
        let opcode = read_u16(s, off + 4).unwrap();
        let size = read_u16(s, off + 6).unwrap() as usize;
        if size < 8 {
            return Err(ParseError::BadSize);
        }
        if !in_bounds(s, off, size) {
            return Err(ParseError::Truncated);
        }
        let n = match main_args_len_exec(opcode) {
            Some(n) => n,
            None => {
                return Err(ParseError::UnknownOpcode);
            },
        };
        if n != size - 8 {
            return Err(ParseError::BadSize);
        }
        let instr = parse_main_instruction(s, off + 8, opcode);
        instructions.push(CallMain { time, sub, instr });
        off = off + size;
    }
}

/// The name of a spellcard whose 34-byte field starts at `at`, cut at the
/// first NUL; no name where the field lies past the end of the data.
pub fn spellcard_name(data: &[u8], at: u32) -> (r: Option<String>)
    ensures
        r is Some <==> fits(data@, at as int, 34),
        r matches Some(n) ==> n@ == shift_jis_decoded(until_nul(data@.subrange(at as int, at + 34))),
{
    if !in_bounds(data, at as usize, 34) {
        return None;
    }
    Some(decode_field(&data[at as usize..at as usize + 34]))
}

impl Ecl {
    /// Parse a slice of bytes into an `Ecl`.
    pub fn from_slice(data: &[u8]) -> (r: Result<Ecl, ParseError>)
        ensures
            r is Ok <==> ecl_ok(data@),
            r matches Ok(e) ==> {
                &&& e.subs@.len() == u16_at(data@, 0)
                &&& forall|k: int|
                    0 <= k < e.subs@.len() ==> sub_calls_from(
                        data@,
                        u32_at(data@, sub_slot(k)) as int,
                        Seq::empty(),
                    ) == Ok::<Seq<CallSub>, ParseError>((#[trigger] e.subs@[k]).instructions@)
                &&& e.mains@.len() == main_count(data@)
                &&& forall|k: int|
                    0 <= k < e.mains@.len() ==> main_calls_from(
                        data@,
                        u32_at(data@, 4 + 4 * k) as int,
                        Seq::empty(),
                    ) == Ok::<Seq<CallMain>, ParseError>((#[trigger] e.mains@[k]).instructions@)
            },
    {
        if !in_bounds(data, 0, 16) {
            return Err(ParseError::Truncated);
        }
        let sub_count = read_u16(data, 0).unwrap();
        if read_u16(data, 2).unwrap() != 0 {
            return Err(ParseError::BadTag);
        }
        if !in_bounds(data, 16, 4 * sub_count as usize) {
            return Err(ParseError::Truncated);
        }
        let mut subs: Vec<Sub> = Vec::new();
        let mut k: usize = 0;
        while k < sub_count as usize
            invariant
                fits(data@, 0, 16),
                fits(data@, 16, 4 * sub_count),
                sub_count == u16_at(data@, 0),
                data@.len() <= usize::MAX,
                k <= sub_count,
                subs@.len() == k,
                forall|j: int|
                    0 <= j < k ==> sub_calls_from(
                        data@,
                        u32_at(data@, sub_slot(j)) as int,
                        Seq::empty(),
                    ) == Ok::<Seq<CallSub>, ParseError>((#[trigger] subs@[j]).instructions@),
            decreases sub_count - k,
        {
            let offset = read_u32(data, 16 + 4 * k).unwrap();
            assert(u32_at(data@, sub_slot(k as int)) == offset);
            let sub = match parse_sub(data, offset as usize) {
                Ok(sub) => sub,
                Err(e) => {
                    assert(!(sub_calls_from(data@, u32_at(data@, sub_slot(k as int)) as int, Seq::empty()) is Ok));
                    return Err(e);
                },
            };
            subs.push(sub);
            k = k + 1;
        }
        let mut mains: Vec<Main> = Vec::new();
        let mut k: usize = 0;
        let mut stop = false;
        while k < 3 && !stop
            invariant
                fits(data@, 0, 16),
                data@.len() <= usize::MAX,
                k <= 3,
                mains@.len() == k,
                k <= main_count(data@),
                stop ==> k == main_count(data@),
                forall|j: int|
                    0 <= j < k ==> main_calls_from(
                        data@,
                        u32_at(data@, 4 + 4 * j) as int,
                        Seq::empty(),
                    ) == Ok::<Seq<CallMain>, ParseError>((#[trigger] mains@[j]).instructions@),
            decreases 3 - k + if stop {
                0int
            } else {
                1int
            },
        {
            let offset = read_u32(data, 4 + 4 * k).unwrap();
            if offset == 0 {
                stop = true;
                continue;
            }
            let main = match parse_main(data, offset as usize) {
                Ok(main) => main,
                Err(e) => {
                    assert(!(main_calls_from(data@, u32_at(data@, 4 + 4 * k) as int, Seq::empty()) is Ok));
                    return Err(e);
                },
            };
            mains.push(main);
            k = k + 1;
        }
        assert(mains@.len() == main_count(data@));
        assert forall|j: int| 0 <= j < main_count(data@) implies #[trigger] main_calls_from(
            data@,
            u32_at(data@, 4 + 4 * j) as int,
            Seq::empty(),
        ) is Ok by {
            assert(main_calls_from(data@, u32_at(data@, 4 + 4 * j) as int, Seq::empty()) == Ok::<
                Seq<CallMain>,
                ParseError,
            >(mains@[j].instructions@));
        }
        assert forall|j: int| 0 <= j < u16_at(data@, 0) implies #[trigger] sub_calls_from(
            data@,
            u32_at(data@, sub_slot(j)) as int,
            Seq::empty(),
        ) is Ok by {
            assert(sub_calls_from(data@, u32_at(data@, sub_slot(j)) as int, Seq::empty()) == Ok::<
                Seq<CallSub>,
                ParseError,
            >(subs@[j].instructions@));
        }
        Ok(Ecl { subs, mains })
    }
}

/// Parsing the instructions of a sub from any record boundary gives the
/// rest of the sub: the result after records already read is those records
/// followed by what parsing from that offset alone gives.
pub proof fn lemma_reparse_from_record(s: Seq<u8>, off: int, acc: Seq<CallSub>)
    ensures
        sub_calls_from(s, off, acc) == match sub_calls_from(s, off, Seq::empty()) {
            Ok(rest) => Ok::<Seq<CallSub>, ParseError>(acc + rest),
            Err(e) => Err(e),
        },
    decreases s.len() - off,
{
    reveal(sub_calls_from);
    assert(acc + Seq::<CallSub>::empty() =~= acc);
    if fits(s, off, 12) {
        let time = u32_at(s, off);
        let opcode = u16_at(s, off + 4);
        let size = u16_at(s, off + 6) as int;
        if !(time == 0xffff_ffff || opcode == 0xffff) && size >= 12 && fits(s, off, size) {
            if let Some(n) = sub_args_len(opcode) {
                if n == size - 12 {
                    let c = CallSub {
                        time,
                        rank_mask: u16_at(s, off + 8),
                        param_mask: u16_at(s, off + 10),
                        instr: sub_instruction_at(s, off + 12, opcode),
                    };
                    lemma_reparse_from_record(s, off + size, acc.push(c));
                    lemma_reparse_from_record(s, off + size, Seq::empty().push(c));
                    if let Ok(rest) = sub_calls_from(s, off + size, Seq::empty()) {
                        assert(acc.push(c) + rest =~= acc + (Seq::empty().push(c) + rest));
                    }
                }
            }
        }
    }
}

} // verus!
