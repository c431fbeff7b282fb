use vstd::prelude::*;

use crate::character::{AnimationMetadata, PlayerCharacterMetadata, PlayerControllerKind};
use crate::components::{
    ActorHandle, AnimatedSprite, AnimatedSpriteParams, Animation, Drawable, PhysicsBody,
    PhysicsBodyParams, PlayerController, PlayerEventQueue, PlayerInventory, SpriteLayer,
    Transform, default_sprite_params,
};
use crate::ecs::{player_bundles, spawn_bundle, tracked_players};
use crate::geometry::{Rect, Vec2};
use crate::player::{
    CAMERA_BOX_LEFT_MARGIN, CAMERA_BOX_TOP_MARGIN, Player, PlayerAttributes, attributes_of,
    initial_camera_box, spawn_position_in_range,
};

verus! {

/// The id of the one sprite layer a player is drawn with.
pub const BODY_ANIMATED_SPRITE_ID: &'static str = "body";

/// Thousandths in one world unit.
pub const UNIT: i32 = 1000;

/// A texture known to the store, by id, with the size of one frame of its sheet.
#[derive(Clone, Debug)]
pub struct TextureEntry {
    pub id: String,
    pub frame_size: Vec2,
}

/// The shared store of loaded textures.
#[derive(Clone, Debug)]
pub struct TextureStore {
    pub textures: Vec<TextureEntry>,
}

/// The frame size of the first texture in `s` whose id is `id`, if any.
pub open spec fn find_texture(s: Seq<TextureEntry>, id: Seq<char>) -> Option<Vec2>
    decreases s.len(),
{
    if s.len() == 0 {
        None
    } else if s[0].id@ == id {
        Some(s[0].frame_size)
    } else {
        find_texture(s.skip(1), id)
    }
}

impl TextureStore {
    /// Frame sizes are sizes: never negative.
    pub open spec fn wf(self) -> bool {
        forall|i: int|
            0 <= i < self.textures@.len() ==> self.textures@[i].frame_size.x >= 0
                && self.textures@[i].frame_size.y >= 0
    }

    pub open spec fn lookup_spec(self, id: Seq<char>) -> Option<Vec2> {
        find_texture(self.textures@, id)
    }

    pub fn new() -> (r: TextureStore)
        ensures
            r.textures@.len() == 0,
            r.wf(),
    {
        TextureStore { textures: Vec::new() }
    }

    /// Registers a texture; an id already present keeps its first frame size.
    pub fn insert(&mut self, id: String, frame_size: Vec2)
        requires
            old(self).wf(),
            frame_size.x >= 0,
            frame_size.y >= 0,
        ensures
            final(self).wf(),
            final(self).textures@ == old(self).textures@.push(TextureEntry { id, frame_size }),
    {
        self.textures.push(TextureEntry { id, frame_size });
    }

    /// The frame size of the texture named `id`.
    pub fn lookup(&self, id: &String) -> (r: Option<Vec2>)
        requires
            self.wf(),
        ensures
            r == self.lookup_spec(id@),
            r matches Some(f) ==> f.x >= 0 && f.y >= 0,
    {
        let mut i: usize = 0;
        assert(self.textures@.skip(0) =~= self.textures@);
        while i < self.textures.len()
            invariant
                i <= self.textures@.len(),
                self.wf(),
                find_texture(self.textures@, id@) == find_texture(self.textures@.skip(i as int), id@),
            decreases self.textures@.len() - i,
        {
            assert(self.textures@.skip(i as int)[0] == self.textures@[i as int]);
            assert(self.textures@.skip(i as int).skip(1) =~= self.textures@.skip(i + 1));
            if self.textures[i].id == *id {
                return Some(self.textures[i].frame_size);
            }
            i = i + 1;
        }
        None
    }
}

/// A rectangular actor registered with the collision world, sized in whole units.
#[derive(Clone, Copy, Debug, PartialEq, Eq, Structural)]
pub struct Actor {
    pub position: Vec2,
    pub width: i32,
    pub height: i32,
}

/// The shared collision world; actors are only ever added here.
#[derive(Clone, Debug)]
pub struct CollisionWorld {
    pub actors: Vec<Actor>,
}

impl CollisionWorld {
    pub fn new() -> (r: CollisionWorld)
        ensures
            r.actors@.len() == 0,
    {
        CollisionWorld { actors: Vec::new() }
    }

    pub fn add_actor(&mut self, position: Vec2, width: i32, height: i32) -> (r: ActorHandle)
        ensures
            r.index == old(self).actors@.len(),
            final(self).actors@ == old(self).actors@.push(Actor { position, width, height }),
    {
        let index = self.actors.len();
        self.actors.push(Actor { position, width, height });
        ActorHandle { index }
    }
}

/// The draw order of the player in slot `index`: a decade of its own, so that
/// layers added later can sit between players.
pub open spec fn draw_order_spec(index: u8) -> u32 {
    ((index + 1) * 10) as u32
}

pub fn draw_order(index: u8) -> (r: u32)
    ensures
        r == draw_order_spec(index),
        r == (index as int + 1) * 10,
{
    (index as u32 + 1) * 10
}

/// Distinct player slots draw in distinct orders.
pub proof fn lemma_draw_orders_distinct(i1: u8, i2: u8)
    requires
        i1 != i2,
    ensures
        draw_order_spec(i1) != draw_order_spec(i2),
{
}

/// Where the body sprite is drawn: centred horizontally on the entity, with
/// the bottom of its frame level with the bottom of the collider.
pub open spec fn sprite_offset_int(offset: Vec2, frame_size: Vec2, collider_height: i32) -> (int, int) {
    (offset.x - frame_size.x / 2, offset.y - (frame_size.y - collider_height))
}

pub open spec fn sprite_offset_in_range(offset: Vec2, frame_size: Vec2, collider_height: i32) -> bool {
    let (x, y) = sprite_offset_int(offset, frame_size, collider_height);
    i32::MIN <= x <= i32::MAX && i32::MIN <= y <= i32::MAX
}

pub open spec fn sprite_offset_spec(offset: Vec2, frame_size: Vec2, collider_height: i32) -> Vec2 {
    let (x, y) = sprite_offset_int(offset, frame_size, collider_height);
    Vec2 { x: x as i32, y: y as i32 }
}

pub fn sprite_offset(offset: Vec2, frame_size: Vec2, collider_height: i32) -> (r: Vec2)
    requires
        frame_size.x >= 0,
        frame_size.y >= 0,
        sprite_offset_in_range(offset, frame_size, collider_height),
    ensures
        r == sprite_offset_spec(offset, frame_size, collider_height),
{
    let x = offset.x as i64 - frame_size.x as i64 / 2;
    let y = offset.y as i64 - (frame_size.y as i64 - collider_height as i64);
    Vec2 { x: x as i32, y: y as i32 }
}

/// The physics parameters of a player's body: centred on the entity, as
/// large as the collider, without friction or rotation.
pub open spec fn body_params_spec(collider_size: Vec2) -> PhysicsBodyParams {
    PhysicsBodyParams {
        offset: Vec2 { x: -(collider_size.x / 2) as i32, y: 0 },
        size: collider_size,
        has_mass: true,
        has_friction: false,
        can_rotate: false,
        bounciness: 0,
    }
}

pub fn body_params(collider_size: Vec2) -> (r: PhysicsBodyParams)
    requires
        collider_size.x >= 0,
    ensures
        r == body_params_spec(collider_size),
{
    let defaults = PhysicsBodyParams::default();
    PhysicsBodyParams {
        offset: Vec2 { x: -(collider_size.x / 2), y: 0 },
        size: collider_size,
        has_friction: false,
        can_rotate: false,
        ..defaults
    }
}

/// Converts authored clips into the form the animation engine plays, in order.
pub fn convert_animations(ms: &Vec<AnimationMetadata>) -> (r: Vec<Animation>)
    ensures
        r@.len() == ms@.len(),
        forall|i: int| 0 <= i < ms@.len() ==> r@[i].is_from(ms@[i]),
{
    let mut r: Vec<Animation> = Vec::new();
    let mut i: usize = 0;
    while i < ms.len()
        invariant
            i <= ms@.len(),
            r@.len() == i,
            forall|j: int| 0 <= j < i ==> r@[j].is_from(ms@[j]),
        decreases ms@.len() - i,
    {
        r.push(Animation::from(&ms[i]));
        i = i + 1;
    }
    r
}

/// The components of one player entity, as the world receives them.
#[derive(Clone, Debug)]
pub struct PlayerBundle {
    pub player: Player,
    pub transform: Transform,
    pub controller: PlayerController,
    pub attributes: PlayerAttributes,
    pub inventory: PlayerInventory,
    pub events: PlayerEventQueue,
    pub drawable: Drawable,
    pub body: PhysicsBody,
}

/// What a character description asks of the inputs to a spawn: a collider
/// whose size is not negative.
pub open spec fn character_valid(c: PlayerCharacterMetadata) -> bool {
    c.collider_size.x >= 0 && c.collider_size.y >= 0
}

/// The sprite a player of character `c` is drawn with, given the frame size
/// of its texture.
pub open spec fn is_body_sprite(s: AnimatedSprite, c: PlayerCharacterMetadata, frame_size: Vec2) -> bool {
    &&& s.texture_id@ == c.sprite.texture_id@
    &&& s.animations@.len() == c.sprite.animations@.len()
    &&& forall|i: int|
        0 <= i < s.animations@.len() ==> s.animations@[i].is_from(c.sprite.animations@[i])
    &&& s.params == (AnimatedSpriteParams {
        offset: sprite_offset_spec(c.sprite.offset, frame_size, c.collider_size.y),
        ..default_sprite_params(c.sprite)
    })
}

impl PlayerBundle {
    /// This bundle with its player's camera box replaced by `b`.
    pub open spec fn with_camera_box(self, b: Rect) -> PlayerBundle {
        PlayerBundle { player: Player { camera_box: b, ..self.player }, ..self }
    }

    /// The components of a player spawned in slot `index` at `position`,
    /// driven by `controller`, of character `c` whose texture frames measure
    /// `frame_size`, with its collision actor at `actor`.
    pub open spec fn is_spawned_from(
        self,
        index: u8,
        position: Vec2,
        controller: PlayerControllerKind,
        c: PlayerCharacterMetadata,
        frame_size: Vec2,
        actor: ActorHandle,
    ) -> bool {
        &&& self.player.is_fresh(index, position)
        &&& self.transform.position == position
        &&& self.controller.kind == controller
        &&& self.attributes == attributes_of(c)
        &&& self.inventory == (PlayerInventory {
            weapon_mount: c.weapon_mount,
            item_mount: c.item_mount,
            hat_mount: c.hat_mount,
        })
        &&& self.events.queue@.len() == 0
        &&& self.drawable.draw_order == draw_order_spec(index)
        &&& self.drawable.sprites@.len() == 1
        &&& self.drawable.sprites@[0].id@ == BODY_ANIMATED_SPRITE_ID@
        &&& is_body_sprite(self.drawable.sprites@[0].sprite, c, frame_size)
        &&& self.body == (PhysicsBody {
            actor,
            velocity: Vec2 { x: 0, y: 0 },
            params: body_params_spec(c.collider_size),
        })
    }
}

/// What a spawn needs of its inputs beyond a known texture: a valid
/// character, and room in the integer types for the spawn position and the
/// sprite offset.
pub open spec fn spawn_inputs_valid(position: Vec2, c: PlayerCharacterMetadata, frame_size: Vec2) -> bool {
    &&& character_valid(c)
    &&& frame_size.x >= 0
    &&& frame_size.y >= 0
    &&& spawn_position_in_range(position)
    &&& sprite_offset_in_range(c.sprite.offset, frame_size, c.collider_size.y)
}

/// Assembles the components of a player entity.
pub fn player_bundle(
    index: u8,
    position: Vec2,
    controller: PlayerControllerKind,
    character: &PlayerCharacterMetadata,
    frame_size: Vec2,
    actor: ActorHandle,
) -> (r: PlayerBundle)
    requires
        spawn_inputs_valid(position, *character, frame_size),
    ensures
        r.is_spawned_from(index, position, controller, *character, frame_size, actor),
{
    let offset = sprite_offset(character.sprite.offset, frame_size, character.collider_size.y);
    let animations = convert_animations(&character.sprite.animations);
    let defaults = AnimatedSpriteParams::from(&character.sprite);
    let params = AnimatedSpriteParams { offset, ..defaults };
    let sprite = AnimatedSprite {
        texture_id: character.sprite.texture_id.clone(),
        animations,
        params,
    };
    let layer = SpriteLayer { id: String::from_str(BODY_ANIMATED_SPRITE_ID), sprite };
    let mut sprites: Vec<SpriteLayer> = Vec::new();
    sprites.push(layer);
    PlayerBundle {
        player: Player::new(index, position),
        transform: Transform::from(position),
        controller: PlayerController::from(controller),
        attributes: PlayerAttributes::from(character),
        inventory: PlayerInventory::new(
            character.weapon_mount,
            character.item_mount,
            character.hat_mount,
        ),
        events: PlayerEventQueue::new(),
        drawable: Drawable { draw_order: draw_order(index), sprites },
        body: PhysicsBody::new(actor, body_params(character.collider_size)),
    }
}

} // verus!

verus! {

/// Spawns a player entity of character `character` in slot `index` at
/// `position`, driven by `controller`. Its texture must be in `textures`:
/// where it is not, nothing is spawned and nothing changes. Otherwise a
/// collision actor as large as the collider, in whole units, joins
/// `collisions`, and one entity with all the player's components joins `world`.
pub fn spawn_player(
    world: &mut hecs::World,
    textures: &TextureStore,
    collisions: &mut CollisionWorld,
    index: u8,
    position: Vec2,
    controller: PlayerControllerKind,
    character: PlayerCharacterMetadata,
) -> (r: Option<hecs::Entity>)
    requires
        textures.wf(),
        character_valid(character),
        spawn_position_in_range(position),
        textures.lookup_spec(character.sprite.texture_id@) matches Some(f) ==> sprite_offset_in_range(
            character.sprite.offset,
            f,
            character.collider_size.y,
        ),
    ensures
        r is None <==> textures.lookup_spec(character.sprite.texture_id@) is None,
        r is None ==> *final(world) == *old(world) && *final(collisions) == *old(collisions),
        r matches Some(e) ==> {
            &&& !tracked_players(*old(world)).dom().contains(e)
            &&& tracked_players(*final(world)) == tracked_players(*old(world)).insert(
                e,
                (position, initial_camera_box(position)),
            )
            &&& !player_bundles(*old(world)).dom().contains(e)
            &&& player_bundles(*final(world)).dom() == player_bundles(*old(world)).dom().insert(e)
            &&& forall|x: hecs::Entity| #[trigger]
                player_bundles(*old(world)).dom().contains(x) ==> player_bundles(*final(world))[x]
                    == player_bundles(*old(world))[x]
            &&& player_bundles(*final(world))[e].is_spawned_from(
                index,
                position,
                controller,
                character,
                textures.lookup_spec(character.sprite.texture_id@)->Some_0,
                ActorHandle { index: old(collisions).actors@.len() as usize },
            )
            &&& player_bundles(*final(world))[e].attributes == attributes_of(character)
            &&& player_bundles(*final(world))[e].drawable.draw_order == draw_order_spec(index)
            &&& final(collisions).actors@ == old(collisions).actors@.push(
                Actor {
                    position,
                    width: (character.collider_size.x / UNIT) as i32,
                    height: (character.collider_size.y / UNIT) as i32,
                },
            )
        },
{
    let frame_size = match textures.lookup(&character.sprite.texture_id) {
        Some(f) => f,
        None => return None,
    };
    let actor = collisions.add_actor(
        position,
        character.collider_size.x / UNIT,
        character.collider_size.y / UNIT,
    );
    let bundle = player_bundle(index, position, controller, &character, frame_size, actor);
    let e = spawn_bundle(world, bundle);
    Some(e)
}

} // verus!

verus! {

/// Whether `spawn_player` may be called with these inputs: the store's frame
/// sizes are sizes, the character is valid, and the spawn position and, for
/// a known texture, the sprite offset fit the integer types.
pub fn spawn_preconditions_hold(
    textures: &TextureStore,
    position: Vec2,
    character: &PlayerCharacterMetadata,
) -> (r: bool)
    ensures
        r == {
            &&& textures.wf()
            &&& character_valid(*character)
            &&& spawn_position_in_range(position)
            &&& textures.lookup_spec(character.sprite.texture_id@) matches Some(f)
                ==> sprite_offset_in_range(character.sprite.offset, f, character.collider_size.y)
        },
{
    let mut i: usize = 0;
    while i < textures.textures.len()
        invariant
            i <= textures.textures@.len(),
            forall|j: int|
                0 <= j < i ==> textures.textures@[j].frame_size.x >= 0
                    && textures.textures@[j].frame_size.y >= 0,
        decreases textures.textures@.len() - i,
    {
        let f = textures.textures[i].frame_size;
        if f.x < 0 || f.y < 0 {
            return false;
        }
        i = i + 1;
    }
    if character.collider_size.x < 0 || character.collider_size.y < 0 {
        return false;
    }
    if (position.x as i64) - (CAMERA_BOX_LEFT_MARGIN as i64) < i32::MIN as i64
        || (position.y as i64) - (CAMERA_BOX_TOP_MARGIN as i64) < i32::MIN as i64
    {
        return false;
    }
    match textures.lookup(&character.sprite.texture_id) {
        Some(f) => {
            let x = character.sprite.offset.x as i64 - f.x as i64 / 2;
            let y = character.sprite.offset.y as i64 - (f.y as i64 - character.collider_size.y as i64);
            i32::MIN as i64 <= x && x <= i32::MAX as i64 && i32::MIN as i64 <= y && y <= i32::MAX as i64
        },
        None => true,
    }
}

} // verus!
