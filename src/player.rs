use vstd::prelude::*;

use crate::character::PlayerCharacterMetadata;
use crate::geometry::{Rect, Vec2};

verus! {

/// Horizontal distance from the spawn position to the initial camera box's left edge.
pub const CAMERA_BOX_LEFT_MARGIN: i32 = 30_000;
/// Vertical distance from the spawn position to the initial camera box's top edge.
pub const CAMERA_BOX_TOP_MARGIN: i32 = 150_000;
pub const CAMERA_BOX_WIDTH: i32 = 100_000;
pub const CAMERA_BOX_HEIGHT: i32 = 210_000;

/// The logical state of a player; its transitions belong to the state machine.
#[derive(Clone, Copy, Debug, PartialEq, Eq, Structural)]
pub enum PlayerState {
    /// No state chosen yet: where every player starts.
    Initial,
    Idle,
    Move,
    Jump,
    Fall,
    Crouch,
    Slide,
    Attack,
    Incapacitated,
    Dead,
}

/// A passive effect applied to a player, as the effect system tracks it.
#[derive(Clone, Debug)]
pub struct PassiveEffectInstance {
    pub name: String,
    /// How many uses it has before it expires, if it is limited by uses.
    pub uses: Option<u32>,
    pub use_cnt: u32,
    /// Lifetime in thousandths of a second, if it is limited by time.
    pub duration: Option<i32>,
    pub duration_timer: i32,
}

/// The mutable runtime record of one player. Timers count down in
/// thousandths of a second; zero means inactive.
#[derive(Clone, Debug)]
pub struct Player {
    pub index: u8,
    pub state: PlayerState,
    pub damage_from_left: bool,
    pub is_facing_left: bool,
    pub is_upside_down: bool,
    pub is_attacking: bool,
    pub jump_frame_counter: u16,
    pub pickup_grace_timer: i32,
    pub incapacitation_timer: i32,
    pub attack_timer: i32,
    pub respawn_timer: i32,
    pub camera_box: Rect,
    pub passive_effects: Vec<PassiveEffectInstance>,
}

/// The camera box a player starts with when spawned at `position`.
pub open spec fn initial_camera_box(position: Vec2) -> Rect {
    Rect {
        x: (position.x - CAMERA_BOX_LEFT_MARGIN) as i32,
        y: (position.y - CAMERA_BOX_TOP_MARGIN) as i32,
        w: CAMERA_BOX_WIDTH,
        h: CAMERA_BOX_HEIGHT,
    }
}

/// The spawn position leaves room for the initial camera box's origin.
pub open spec fn spawn_position_in_range(position: Vec2) -> bool {
    position.x - CAMERA_BOX_LEFT_MARGIN >= i32::MIN
        && position.y - CAMERA_BOX_TOP_MARGIN >= i32::MIN
}

impl Player {
    /// A fresh record: no state, flags down, timers at zero, no effects, and
    /// the camera box at its initial place around `position`.
    pub open spec fn is_fresh(self, index: u8, position: Vec2) -> bool {
        &&& self.index == index
        &&& self.state == PlayerState::Initial
        &&& !self.damage_from_left
        &&& !self.is_facing_left
        &&& !self.is_upside_down
        &&& !self.is_attacking
        &&& self.jump_frame_counter == 0
        &&& self.pickup_grace_timer == 0
        &&& self.incapacitation_timer == 0
        &&& self.attack_timer == 0
        &&& self.respawn_timer == 0
        &&& self.camera_box == initial_camera_box(position)
        &&& self.passive_effects@.len() == 0
    }

    pub fn new(index: u8, position: Vec2) -> (r: Player)
        requires
            spawn_position_in_range(position),
        ensures
            r.is_fresh(index, position),
    {
        let camera_box = Rect::new(
            position.x - CAMERA_BOX_LEFT_MARGIN,
            position.y - CAMERA_BOX_TOP_MARGIN,
            CAMERA_BOX_WIDTH,
            CAMERA_BOX_HEIGHT,
        );
        Player {
            index,
            state: PlayerState::Initial,
            damage_from_left: false,
            is_facing_left: false,
            is_upside_down: false,
            is_attacking: false,
            jump_frame_counter: 0,
            pickup_grace_timer: 0,
            incapacitation_timer: 0,
            attack_timer: 0,
            respawn_timer: 0,
            camera_box,
            passive_effects: Vec::new(),
        }
    }
}

/// The movement and combat tuning of one spawned player, copied out of its
/// character description so that later edits of the description leave it be.
#[derive(Clone, Copy, Debug, PartialEq, Eq, Structural)]
pub struct PlayerAttributes {
    pub head_threshold: i32,
    pub legs_threshold: i32,
    pub weapon_mount: Vec2,
    pub jump_force: i32,
    pub move_speed: i32,
    pub slide_speed_factor: i32,
    pub incapacitation_duration: i32,
    pub float_gravity_factor: i32,
}

/// The attributes that a character description yields: its tunables, field by field.
pub open spec fn attributes_of(c: PlayerCharacterMetadata) -> PlayerAttributes {
    PlayerAttributes {
        head_threshold: c.head_threshold,
        legs_threshold: c.legs_threshold,
        weapon_mount: c.weapon_mount,
        jump_force: c.jump_force,
        move_speed: c.move_speed,
        slide_speed_factor: c.slide_speed_factor,
        incapacitation_duration: c.incapacitation_duration,
        float_gravity_factor: c.float_gravity_factor,
    }
}

impl PlayerAttributes {
    pub fn from(params: &PlayerCharacterMetadata) -> (r: PlayerAttributes)
        ensures
            r == attributes_of(*params),
    {
        PlayerAttributes {
            head_threshold: params.head_threshold,
            legs_threshold: params.legs_threshold,
            weapon_mount: params.weapon_mount,
            jump_force: params.jump_force,
            move_speed: params.move_speed,
            slide_speed_factor: params.slide_speed_factor,
            incapacitation_duration: params.incapacitation_duration,
            float_gravity_factor: params.float_gravity_factor,
        }
    }
}

/// Deriving attributes is a pure mapping: equal descriptions give equal attributes.
pub proof fn lemma_attributes_deterministic(a: PlayerCharacterMetadata, b: PlayerCharacterMetadata)
    requires
        a == b,
    ensures
        attributes_of(a) == attributes_of(b),
{
}

} // verus!
