//! Enemies: the game actors that ECL scripts drive.
//!
//! Floating-point fields are f32 bits; the kinematic update, which needs
//! floating-point arithmetic, is left to the caller.

use crate::interpolator::Vec2;
use vstd::prelude::*;

verus! {

/// The 2D position of an object in the game, as f32 bits.
#[derive(Debug, Clone, Copy, PartialEq, Eq, Structural)]
pub struct Position {
    pub x: u32,
    pub y: u32,
}

/// An offset which can be added to a Position, as f32 bits.
#[derive(Debug, Clone, Copy, PartialEq, Eq, Structural)]
pub struct Offset {
    pub dx: u32,
    pub dy: u32,
}

impl Position {
    /// Create said position.
    pub fn new(x: u32, y: u32) -> (r: Position)
        ensures
            r == (Position { x, y }),
    {
        Position { x, y }
    }
}

impl Offset {
    /// Create said offset.
    pub fn new(dx: u32, dy: u32) -> (r: Offset)
        ensures
            r == (Offset { dx, dy }),
    {
        Offset { dx, dy }
    }
}

/// Difficulty tier.
#[derive(Debug, Clone, Copy, PartialEq, Eq, Structural)]
pub enum Rank {
    Easy,
    Normal,
    Hard,
    Lunatic,
}

/// The bit of a rank in an instruction's rank mask.
pub open spec fn rank_bits(rank: Rank) -> u16 {
    match rank {
        Rank::Easy => 0x100,
        Rank::Normal => 0x200,
        Rank::Hard => 0x400,
        Rank::Lunatic => 0x800,
    }
}

impl Rank {
    /// The bit of this rank in an instruction's rank mask: `0x100 << r`.
    pub fn bits(&self) -> (r: u16)
        ensures
            r == rank_bits(*self),
    {
        match self {
            Rank::Easy => 0x100,
            Rank::Normal => 0x200,
            Rank::Hard => 0x400,
            Rank::Lunatic => 0x800,
        }
    }
}

/// The animations an enemy switches to as it changes direction.
#[derive(Debug, Clone, Copy, PartialEq, Eq, Structural)]
pub struct MovementSprites {
    pub end_left: u8,
    pub end_right: u8,
    pub left: u8,
    pub right: u8,
}

/// A box the enemy is kept in, as f32 bits.
#[derive(Debug, Clone, Copy, PartialEq, Eq, Structural)]
pub struct ScreenBox {
    pub xmin: u32,
    pub ymin: u32,
    pub xmax: u32,
    pub ymax: u32,
}

/// Where an enemy is heading, for its movement-dependent animations.
#[derive(Debug, Clone, Copy, PartialEq, Eq, Structural)]
pub enum Direction {
    Left,
    Center,
    Right,
}

/// The enemy struct, containing everything pertaining to an enemy.
#[derive(Debug, Clone, Copy, PartialEq, Eq, Structural)]
pub struct Enemy {
    pub pos: Position,
    pub removed: bool,
    pub z: u32,
    pub angle: u32,
    pub speed: u32,
    pub rotation_speed: u32,
    pub acceleration: u32,
    /// Bit 1 mirrors the horizontal movement.
    pub type_: u32,
    pub bonus_dropped: u32,
    pub die_score: u32,
    pub frame: u32,
    pub life: u32,
    pub death_flags: u32,
    pub current_laser_id: u32,
    pub low_life_trigger: Option<u32>,
    pub timeout: Option<u32>,
    pub remaining_lives: u32,
    pub bullet_launch_interval: u32,
    pub bullet_launch_timer: u32,
    pub death_anim: i32,
    pub direction: Direction,
    /// 0: kinematic integration; 1: interpolator-driven.
    pub update_mode: u32,
    pub visible: bool,
    pub was_visible: bool,
    pub touchable: bool,
    pub collidable: bool,
    pub damageable: bool,
    pub boss: bool,
    pub automatic_orientation: bool,
    pub delay_attack: bool,
    pub bullet_launch_offset: Offset,
    pub movement_dependant_sprites: Option<MovementSprites>,
    pub screen_box: Option<ScreenBox>,
    /// Subs to run on death, on low life and on timeout.
    pub death_callback: Option<i32>,
    pub low_life_callback: Option<i32>,
    pub timeout_callback: Option<i32>,
    pub hitbox_half_size: Vec2,
}

/// Life as stored: a negative life becomes 1.
pub open spec fn initial_life(life: i32) -> u32 {
    if life < 0 {
        1
    } else {
        life as u32
    }
}

impl Enemy {
    /// A fresh enemy at `pos`: visible, touchable, collidable, damageable.
    pub open spec fn fresh(pos: Position, life: i32, bonus_dropped: u32, die_score: u32) -> Enemy {
        Enemy {
            pos,
            removed: false,
            z: 0,
            angle: 0,
            speed: 0,
            rotation_speed: 0,
            acceleration: 0,
            type_: 0,
            bonus_dropped,
            die_score,
            frame: 0,
            life: initial_life(life),
            death_flags: 0,
            current_laser_id: 0,
            low_life_trigger: None,
            timeout: None,
            remaining_lives: 0,
            bullet_launch_interval: 0,
            bullet_launch_timer: 0,
            death_anim: 0,
            direction: Direction::Center,
            update_mode: 0,
            visible: true,
            was_visible: false,
            touchable: true,
            collidable: true,
            damageable: true,
            boss: false,
            automatic_orientation: false,
            delay_attack: false,
            bullet_launch_offset: Offset { dx: 0, dy: 0 },
            movement_dependant_sprites: None,
            screen_box: None,
            death_callback: None,
            low_life_callback: None,
            timeout_callback: None,
            hitbox_half_size: Vec2 { x: 0, y: 0 },
        }
    }

    /// Create a new enemy; a negative life is stored as 1.
    pub fn new(pos: Position, life: i32, bonus_dropped: u32, die_score: u32) -> (r: Enemy)
        ensures
            r == Enemy::fresh(pos, life, bonus_dropped, die_score),
    {
        Enemy {
            pos,
            removed: false,
            z: 0,
            angle: 0,
            speed: 0,
            rotation_speed: 0,
            acceleration: 0,
            type_: 0,
            bonus_dropped,
            die_score,
            frame: 0,
            life: if life < 0 {
                1
            } else {
                life as u32
            },
            death_flags: 0,
            current_laser_id: 0,
            low_life_trigger: None,
            timeout: None,
            remaining_lives: 0,
            bullet_launch_interval: 0,
            bullet_launch_timer: 0,
            death_anim: 0,
            direction: Direction::Center,
            update_mode: 0,
            visible: true,
            was_visible: false,
            touchable: true,
            collidable: true,
            damageable: true,
            boss: false,
            automatic_orientation: false,
            delay_attack: false,
            bullet_launch_offset: Offset { dx: 0, dy: 0 },
            movement_dependant_sprites: None,
            screen_box: None,
            death_callback: None,
            low_life_callback: None,
            timeout_callback: None,
            hitbox_half_size: Vec2 { x: 0, y: 0 },
        }
    }

    /// Sets the current position of the enemy.
    pub fn set_pos(&mut self, x: u32, y: u32, z: u32)
        ensures
            *final(self) == (Enemy { pos: Position { x, y }, z, ..*old(self) }),
    {
        self.pos = Position { x, y };
        self.z = z;
    }
}

/// The animation to switch to, and the new direction, when an enemy with
/// movement-dependent animations moves: `moved` is the sign of the change
/// of its horizontal position. Starting to move left or right picks the
/// left or right animation; stopping picks the end animation of the side it
/// came from. No change where the direction stays.
pub open spec fn movement_anim_spec(sprites: MovementSprites, direction: Direction, moved: i8) -> Option<(u8, Direction)> {
    if moved < 0 && direction != Direction::Left {
        Some((sprites.left, Direction::Left))
    } else if moved > 0 && direction != Direction::Right {
        Some((sprites.right, Direction::Right))
    } else if moved == 0 && direction != Direction::Center {
        Some(
            (
                if direction == Direction::Left {
                    sprites.end_left
                } else {
                    sprites.end_right
                },
                Direction::Center,
            ),
        )
    } else {
        None
    }
}

/// The animation to switch to, and the new direction, after a move whose
/// horizontal sign is `moved`.
pub fn movement_anim(sprites: MovementSprites, direction: Direction, moved: i8) -> (r: Option<(u8, Direction)>)
    ensures
        r == movement_anim_spec(sprites, direction, moved),
{
    if moved < 0 && direction != Direction::Left {
        Some((sprites.left, Direction::Left))
    } else if moved > 0 && direction != Direction::Right {
        Some((sprites.right, Direction::Right))
    } else if moved == 0 && direction != Direction::Center {
        let anim = if direction == Direction::Left {
            sprites.end_left
        } else {
            sprites.end_right
        };
        Some((anim, Direction::Center))
    } else {
        None
    }
}

/// A newly built enemy never starts with a negative life: a negative life
/// at construction becomes 1, any other is kept.
pub proof fn lemma_life_clamped(pos: Position, life: i32, bonus_dropped: u32, die_score: u32)
    ensures
        life < 0 ==> Enemy::fresh(pos, life, bonus_dropped, die_score).life == 1,
        life >= 0 ==> Enemy::fresh(pos, life, bonus_dropped, die_score).life == life,
{
}

} // verus!
