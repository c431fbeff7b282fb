//! The entity world, held by `hecs`. Its contents are seen through two names:
//! the players that the camera tracks, and the entities that carry every
//! component of a player.
use vstd::prelude::*;

use crate::components::Transform;
use crate::geometry::{Rect, Vec2};
use crate::player::Player;
use crate::spawn::PlayerBundle;

verus! {

#[verifier::external_type_specification]
#[verifier::external_body]
pub struct ExWorld(hecs::World);

#[verifier::external_type_specification]
#[verifier::external_body]
pub struct ExEntity(hecs::Entity);

/// The live entities of `w` that carry both a `Transform` and a `Player`,
/// each with its position and its camera box.
pub uninterp spec fn tracked_players(w: hecs::World) -> Map<hecs::Entity, (Vec2, Rect)>;

/// The live entities of `w` that carry every component of a player, with them.
pub uninterp spec fn player_bundles(w: hecs::World) -> Map<hecs::Entity, PlayerBundle>;

/// Relies on `hecs::World::spawn`: it creates a new entity, distinct from
/// every live one, with exactly the given components, and touches no other entity.
#[verifier::external_body]
pub(crate) fn spawn_bundle(world: &mut hecs::World, b: PlayerBundle) -> (e: hecs::Entity)
    ensures
        !tracked_players(*old(world)).dom().contains(e),
        !player_bundles(*old(world)).dom().contains(e),
        tracked_players(*final(world)) == tracked_players(*old(world)).insert(
            e,
            (b.transform.position, b.player.camera_box),
        ),
        player_bundles(*final(world)) == player_bundles(*old(world)).insert(e, b),
{
    world.spawn((
        b.player,
        b.transform,
        b.controller,
        b.attributes,
        b.inventory,
        b.events,
        b.drawable,
        b.body,
    ))
}

/// Relies on `hecs::World::query` over `(&Transform, &Player)`: iterating it
/// yields each live entity that has both components, once.
#[verifier::external_body]
pub(crate) fn tracked_entities(world: &hecs::World) -> (r: Vec<hecs::Entity>)
    ensures
        r@.no_duplicates(),
        forall|e: hecs::Entity| r@.contains(e) <==> tracked_players(*world).dom().contains(e),
{
    world.query::<(&Transform, &Player)>().iter().map(|(e, _)| e).collect()
}

/// Relies on `hecs::World::query_one` over `(&Transform, &Player)`: it finds
/// the entity's position and camera box when it is live and has both components.
#[verifier::external_body]
pub(crate) fn tracked_player(world: &hecs::World, e: hecs::Entity) -> (r: Option<(Vec2, Rect)>)
    ensures
        r == (if tracked_players(*world).dom().contains(e) {
            Some(tracked_players(*world)[e])
        } else {
            None
        }),
{
    let mut q = world.query_one::<(&Transform, &Player)>(e).ok()?;
    q.get().map(|(t, p)| (t.position, p.camera_box))
}

/// Relies on `hecs::World::query_one_mut` over `&mut Player`: it reaches the
/// entity's `Player` when it is live and has one, and only that component
/// changes.
#[verifier::external_body]
pub(crate) fn set_camera_box(world: &mut hecs::World, e: hecs::Entity, b: Rect)
    ensures
        tracked_players(*final(world)) == (if tracked_players(*old(world)).dom().contains(e) {
            tracked_players(*old(world)).insert(e, (tracked_players(*old(world))[e].0, b))
        } else {
            tracked_players(*old(world))
        }),
        player_bundles(*final(world)) == (if player_bundles(*old(world)).dom().contains(e) {
            player_bundles(*old(world)).insert(e, player_bundles(*old(world))[e].with_camera_box(b))
        } else {
            player_bundles(*old(world))
        }),
{
    if let Ok(p) = world.query_one_mut::<&mut Player>(e) {
        p.camera_box = b;
    }
}

} // verus!
