use vstd::prelude::*;

use crate::geometry::Vec2;

verus! {

/// One clip of a sprite sheet, as authored: the row it occupies and how many
/// frames it plays, at what rate.
#[derive(Clone, Debug)]
pub struct AnimationMetadata {
    pub id: String,
    pub row: u32,
    pub frames: u32,
    pub fps: u32,
    pub is_looping: bool,
}

/// How a character is drawn: the texture, its clips, and where the sprite
/// sits relative to the entity.
#[derive(Clone, Debug)]
pub struct SpriteMetadata {
    pub texture_id: String,
    pub animations: Vec<AnimationMetadata>,
    pub offset: Vec2,
    /// Drawing scale in thousandths; none means unscaled.
    pub scale: Option<i32>,
    pub is_flipped_x: bool,
    pub is_flipped_y: bool,
}

/// The authored, immutable description of a character archetype.
#[derive(Clone, Debug)]
pub struct PlayerCharacterMetadata {
    pub collider_size: Vec2,
    pub weapon_mount: Vec2,
    pub item_mount: Vec2,
    pub hat_mount: Vec2,
    pub sprite: SpriteMetadata,
    pub head_threshold: i32,
    pub legs_threshold: i32,
    pub jump_force: i32,
    pub move_speed: i32,
    pub slide_speed_factor: i32,
    pub incapacitation_duration: i32,
    pub float_gravity_factor: i32,
}

/// Where a player's input comes from.
#[derive(Clone, Copy, Debug, PartialEq, Eq, Structural)]
pub enum PlayerControllerKind {
    /// A local device, by the index of its input scheme.
    LocalInput { scheme: u8 },
    /// A peer over the network, by its player slot there.
    Network { slot: u8 },
}

/// What a caller asks for when a player joins.
#[derive(Clone, Debug)]
pub struct PlayerParams {
    pub index: u8,
    pub controller: PlayerControllerKind,
    pub character: PlayerCharacterMetadata,
}

} // verus!
