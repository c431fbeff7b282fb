use vstd::prelude::*;

use crate::character::{AnimationMetadata, PlayerControllerKind, SpriteMetadata};
use crate::geometry::Vec2;

verus! {

/// Where an entity stands in the world.
#[derive(Clone, Copy, Debug, PartialEq, Eq, Structural)]
pub struct Transform {
    pub position: Vec2,
}

impl Transform {
    pub fn from(position: Vec2) -> (r: Transform)
        ensures
            r.position == position,
    {
        Transform { position }
    }
}

/// The input source that drives a player.
#[derive(Clone, Copy, Debug, PartialEq, Eq, Structural)]
pub struct PlayerController {
    pub kind: PlayerControllerKind,
}

impl PlayerController {
    pub fn from(kind: PlayerControllerKind) -> (r: PlayerController)
        ensures
            r.kind == kind,
    {
        PlayerController { kind }
    }
}

/// Where a player's equipment is drawn, relative to the player.
#[derive(Clone, Copy, Debug, PartialEq, Eq, Structural)]
pub struct PlayerInventory {
    pub weapon_mount: Vec2,
    pub item_mount: Vec2,
    pub hat_mount: Vec2,
}

impl PlayerInventory {
    pub fn new(weapon_mount: Vec2, item_mount: Vec2, hat_mount: Vec2) -> (r: PlayerInventory)
        ensures
            r.weapon_mount == weapon_mount,
            r.item_mount == item_mount,
            r.hat_mount == hat_mount,
    {
        PlayerInventory { weapon_mount, item_mount, hat_mount }
    }
}

/// Something that happened to a player, waiting for the player's systems.
#[derive(Clone, Copy, Debug, PartialEq, Eq, Structural)]
pub enum PlayerEvent {
    Update,
    ReceiveDamage { is_from_left: bool },
    GiveDamage,
    Incapacitated,
    Collision,
}

/// The events queued for one player, oldest first.
#[derive(Clone, Debug)]
pub struct PlayerEventQueue {
    pub queue: Vec<PlayerEvent>,
}

impl PlayerEventQueue {
    pub fn new() -> (r: PlayerEventQueue)
        ensures
            r.queue@.len() == 0,
    {
        PlayerEventQueue { queue: Vec::new() }
    }
}

/// One clip in the form the animation engine plays it.
#[derive(Clone, Debug)]
pub struct Animation {
    pub id: String,
    pub row: u32,
    pub frames: u32,
    pub fps: u32,
    pub is_looping: bool,
}

impl Animation {
    pub open spec fn is_from(self, m: AnimationMetadata) -> bool {
        &&& self.id@ == m.id@
        &&& self.row == m.row
        &&& self.frames == m.frames
        &&& self.fps == m.fps
        &&& self.is_looping == m.is_looping
    }

    pub fn from(m: &AnimationMetadata) -> (r: Animation)
        ensures
            r.is_from(*m),
    {
        Animation {
            id: m.id.clone(),
            row: m.row,
            frames: m.frames,
            fps: m.fps,
            is_looping: m.is_looping,
        }
    }
}

/// The scale, in thousandths, of a sprite whose description gives none.
pub const DEFAULT_SPRITE_SCALE: i32 = 1000;

/// How the animation engine draws one sprite.
#[derive(Clone, Copy, Debug, PartialEq, Eq, Structural)]
pub struct AnimatedSpriteParams {
    pub scale: i32,
    pub offset: Vec2,
    pub is_flipped_x: bool,
    pub is_flipped_y: bool,
}

/// The drawing parameters that a sprite description yields by default.
pub open spec fn default_sprite_params(m: SpriteMetadata) -> AnimatedSpriteParams {
    AnimatedSpriteParams {
        scale: match m.scale {
            Some(s) => s,
            None => DEFAULT_SPRITE_SCALE,
        },
        offset: m.offset,
        is_flipped_x: m.is_flipped_x,
        is_flipped_y: m.is_flipped_y,
    }
}

impl AnimatedSpriteParams {
    pub fn from(m: &SpriteMetadata) -> (r: AnimatedSpriteParams)
        ensures
            r == default_sprite_params(*m),
    {
        let scale = match m.scale {
            Some(s) => s,
            None => DEFAULT_SPRITE_SCALE,
        };
        AnimatedSpriteParams {
            scale,
            offset: m.offset,
            is_flipped_x: m.is_flipped_x,
            is_flipped_y: m.is_flipped_y,
        }
    }
}

/// A sprite played from a sheet, with its clips.
#[derive(Clone, Debug)]
pub struct AnimatedSprite {
    pub texture_id: String,
    pub animations: Vec<Animation>,
    pub params: AnimatedSpriteParams,
}

/// A named layer of a drawable's sprite set.
#[derive(Clone, Debug)]
pub struct SpriteLayer {
    pub id: String,
    pub sprite: AnimatedSprite,
}

/// What the renderer draws for an entity, and in which order among others.
#[derive(Clone, Debug)]
pub struct Drawable {
    pub draw_order: u32,
    pub sprites: Vec<SpriteLayer>,
}

/// A collision actor's handle: its place in the collision world.
#[derive(Clone, Copy, Debug, PartialEq, Eq, Structural)]
pub struct ActorHandle {
    pub index: usize,
}

/// How the physics engine treats a body.
#[derive(Clone, Copy, Debug, PartialEq, Eq, Structural)]
pub struct PhysicsBodyParams {
    pub offset: Vec2,
    pub size: Vec2,
    pub has_mass: bool,
    pub has_friction: bool,
    pub can_rotate: bool,
    /// Restitution, in thousandths.
    pub bounciness: i32,
}

impl PhysicsBodyParams {
    /// The engine's defaults: no offset or size, with mass and friction, free
    /// to rotate, no bounce.
    pub open spec fn is_default(self) -> bool {
        &&& self.offset == Vec2 { x: 0, y: 0 }
        &&& self.size == Vec2 { x: 0, y: 0 }
        &&& self.has_mass
        &&& self.has_friction
        &&& self.can_rotate
        &&& self.bounciness == 0
    }

    pub fn default() -> (r: PhysicsBodyParams)
        ensures
            r.is_default(),
    {
        PhysicsBodyParams {
            offset: Vec2 { x: 0, y: 0 },
            size: Vec2 { x: 0, y: 0 },
            has_mass: true,
            has_friction: true,
            can_rotate: true,
            bounciness: 0,
        }
    }
}

/// A body in the physics engine, bound to a collision actor.
#[derive(Clone, Copy, Debug, PartialEq, Eq, Structural)]
pub struct PhysicsBody {
    pub actor: ActorHandle,
    pub velocity: Vec2,
    pub params: PhysicsBodyParams,
}

impl PhysicsBody {
    pub fn new(actor: ActorHandle, params: PhysicsBodyParams) -> (r: PhysicsBody)
        ensures
            r.actor == actor,
            r.velocity == (Vec2 { x: 0, y: 0 }),
            r.params == params,
    {
        PhysicsBody { actor, velocity: Vec2 { x: 0, y: 0 }, params }
    }
}

} // verus!
