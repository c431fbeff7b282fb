use vstd::prelude::*;

use crate::ecs::{player_bundles, set_camera_box, tracked_entities, tracked_player, tracked_players};
use crate::geometry::{Rect, Vec2};

verus! {

/// Width of the rectangle that stands for a player on screen when framing the camera.
pub const FOOTPRINT_WIDTH: i32 = 32_000;
/// Height of the rectangle that stands for a player on screen when framing the camera.
pub const FOOTPRINT_HEIGHT: i32 = 60_000;

/// The on-screen extent of a player at `position`, for camera framing only.
pub open spec fn footprint(position: Vec2) -> Rect {
    Rect { x: position.x, y: position.y, w: FOOTPRINT_WIDTH, h: FOOTPRINT_HEIGHT }
}

/// A camera box is large enough to hold a footprint.
pub open spec fn can_hold_footprint(b: Rect) -> bool {
    b.w >= FOOTPRINT_WIDTH && b.h >= FOOTPRINT_HEIGHT
}

/// The origin coordinate of a box of length `len` starting at `lo`, slid
/// along one axis so that the span `[f_lo, f_hi]` lies within it: first so
/// that it starts no later than `f_lo`, then so that it ends no earlier than `f_hi`.
pub open spec fn slide_axis(lo: int, len: int, f_lo: int, f_hi: int) -> int {
    let lo1 = if f_lo < lo { f_lo } else { lo };
    if f_hi > lo1 + len { f_hi - len } else { lo1 }
}

/// The camera box `b` after one tracking step toward a player at `position`:
/// it keeps its size and slides, on each axis independently, just far enough
/// to hold the footprint.
pub open spec fn tracked_box(b: Rect, position: Vec2) -> Rect {
    let f = footprint(position);
    Rect {
        x: slide_axis(b.left(), b.w as int, f.left(), f.right()) as i32,
        y: slide_axis(b.top(), b.h as int, f.top(), f.bottom()) as i32,
        w: b.w,
        h: b.h,
    }
}

/// The camera box after tracking a player through `positions`, one frame each.
pub open spec fn tracked_over(b: Rect, positions: Seq<Vec2>) -> Rect
    decreases positions.len(),
{
    if positions.len() == 0 {
        b
    } else {
        tracked_box(tracked_over(b, positions.drop_last()), positions.last())
    }
}

proof fn lemma_slide_axis(lo: int, len: int, f_lo: int, f_hi: int)
    requires
        f_hi - f_lo <= len,
    ensures
        slide_axis(lo, len, f_lo, f_hi) <= f_lo,
        f_hi <= slide_axis(lo, len, f_lo, f_hi) + len,
        f_lo >= lo && f_hi <= lo + len ==> slide_axis(lo, len, f_lo, f_hi) == lo,
        f_lo >= lo ==> slide_axis(lo, len, f_lo, f_hi) >= lo,
        f_hi <= lo + len ==> slide_axis(lo, len, f_lo, f_hi) <= lo,
{
}

/// The origin that tracking computes fits the integer type of a rectangle.
pub proof fn lemma_tracked_box_in_range(b: Rect, position: Vec2)
    requires
        can_hold_footprint(b),
    ensures
        i32::MIN <= slide_axis(b.left(), b.w as int, position.x as int, position.x + FOOTPRINT_WIDTH) <= i32::MAX,
        i32::MIN <= slide_axis(b.top(), b.h as int, position.y as int, position.y + FOOTPRINT_HEIGHT) <= i32::MAX,
{
    lemma_slide_axis(b.left(), b.w as int, position.x as int, position.x + FOOTPRINT_WIDTH);
    lemma_slide_axis(b.top(), b.h as int, position.y as int, position.y + FOOTPRINT_HEIGHT);
}

/// After a tracking step, a box that can hold a footprint holds the player's
/// footprint at its current position, on all four edges.
pub proof fn lemma_tracked_box_contains_footprint(b: Rect, position: Vec2)
    requires
        can_hold_footprint(b),
    ensures
        tracked_box(b, position).contains_rect(footprint(position)),
{
    lemma_tracked_box_in_range(b, position);
    lemma_slide_axis(b.left(), b.w as int, position.x as int, position.x + FOOTPRINT_WIDTH);
    lemma_slide_axis(b.top(), b.h as int, position.y as int, position.y + FOOTPRINT_HEIGHT);
}

/// Tracking never changes a box's width or height, over any number of frames.
pub proof fn lemma_tracking_keeps_size(b: Rect, positions: Seq<Vec2>)
    ensures
        tracked_over(b, positions).same_size(b),
    decreases positions.len(),
{
    if positions.len() > 0 {
        lemma_tracking_keeps_size(b, positions.drop_last());
    }
}

/// A box that already holds the player's footprint is left where it is.
pub proof fn lemma_tracking_idempotent_when_inside(b: Rect, position: Vec2)
    requires
        b.contains_rect(footprint(position)),
    ensures
        tracked_box(b, position) == b,
{
    lemma_slide_axis(b.left(), b.w as int, position.x as int, position.x + FOOTPRINT_WIDTH);
    lemma_slide_axis(b.top(), b.h as int, position.y as int, position.y + FOOTPRINT_HEIGHT);
}

/// One tracking step: slide `b` so that it holds the footprint of a player at `position`.
pub fn track_camera_box(b: Rect, position: Vec2) -> (r: Rect)
    requires
        can_hold_footprint(b),
    ensures
        r == tracked_box(b, position),
        r.contains_rect(footprint(position)),
        r.same_size(b),
        b.contains_rect(footprint(position)) ==> r == b,
{
    proof {
        lemma_tracked_box_in_range(b, position);
        lemma_tracked_box_contains_footprint(b, position);
    }
    let f_left = position.x as i64;
    let f_right = position.x as i64 + FOOTPRINT_WIDTH as i64;
    let f_top = position.y as i64;
    let f_bottom = position.y as i64 + FOOTPRINT_HEIGHT as i64;
    let mut x = b.x as i64;
    let mut y = b.y as i64;
    if f_left < x {
        x = f_left;
    }
    if f_right > x + b.w as i64 {
        x = f_right - b.w as i64;
    }
    if f_top < y {
        y = f_top;
    }
    if f_bottom > y + b.h as i64 {
        y = f_bottom - b.h as i64;
    }
    proof {
        if b.contains_rect(footprint(position)) {
            lemma_tracking_idempotent_when_inside(b, position);
        }
    }
    Rect { x: x as i32, y: y as i32, w: b.w, h: b.h }
}

/// The shared camera's collection of player boxes for the current frame;
/// combining them into one view is the camera's own business.
#[derive(Clone, Debug)]
pub struct GameCamera {
    pub player_rects: Vec<Rect>,
}

impl GameCamera {
    pub fn new() -> (r: GameCamera)
        ensures
            r.player_rects@ == Seq::<Rect>::empty(),
    {
        GameCamera { player_rects: Vec::new() }
    }

    /// Adds one player's box to this frame's collection.
    pub fn add_player_rect(&mut self, rect: Rect)
        ensures
            final(self).player_rects@ == old(self).player_rects@.push(rect),
    {
        self.player_rects.push(rect);
    }
}

} // verus!

verus! {

/// Every tracked player's camera box can hold a footprint.
pub open spec fn boxes_can_hold_footprints(m: Map<hecs::Entity, (Vec2, Rect)>) -> bool {
    forall|e: hecs::Entity| #[trigger] m.dom().contains(e) ==> can_hold_footprint(m[e].1)
}

/// One tracking pass over every player in `world` that has a position: each
/// camera box slides to hold its player's footprint, and the boxes, as they
/// end up, join this frame's collection in `camera`, one per player.
pub fn update_player_camera_box(world: &mut hecs::World, camera: &mut GameCamera)
    requires
        boxes_can_hold_footprints(tracked_players(*old(world))),
    ensures
        tracked_players(*final(world)).dom() == tracked_players(*old(world)).dom(),
        forall|e: hecs::Entity| #[trigger]
            tracked_players(*old(world)).dom().contains(e) ==> tracked_players(*final(world))[e] == (
            tracked_players(*old(world))[e].0,
            tracked_box(tracked_players(*old(world))[e].1, tracked_players(*old(world))[e].0),
        ),
        forall|e: hecs::Entity| #[trigger]
            tracked_players(*final(world)).dom().contains(e) ==> tracked_players(
                *final(world),
            )[e].1.contains_rect(footprint(tracked_players(*final(world))[e].0)),
        player_bundles(*final(world)).dom() == player_bundles(*old(world)).dom(),
        forall|e: hecs::Entity| #[trigger]
            player_bundles(*old(world)).dom().contains(e) ==> player_bundles(*final(world))[e] == (
            if tracked_players(*old(world)).dom().contains(e) {
                player_bundles(*old(world))[e].with_camera_box(tracked_players(*final(world))[e].1)
            } else {
                player_bundles(*old(world))[e]
            }),
        exists|order: Seq<hecs::Entity>|
            {
                &&& order.no_duplicates()
                &&& forall|e: hecs::Entity| #[trigger]
                    order.contains(e) <==> tracked_players(*old(world)).dom().contains(e)
                &&& final(camera).player_rects@ == old(camera).player_rects@ + order.map_values(
                    |e: hecs::Entity| tracked_players(*final(world))[e].1,
                )
            },
{
    let ghost m0 = tracked_players(*world);
    let ghost a0 = player_bundles(*world);
    let ghost rects0 = camera.player_rects@;
    let es = tracked_entities(world);
    let mut i: usize = 0;
    while i < es.len()
        invariant
            i <= es@.len(),
            es@.no_duplicates(),
            forall|e: hecs::Entity| es@.contains(e) <==> m0.dom().contains(e),
            boxes_can_hold_footprints(m0),
            tracked_players(*world).dom() == m0.dom(),
            player_bundles(*world).dom() == a0.dom(),
            forall|e: hecs::Entity| #[trigger]
                a0.dom().contains(e) ==> player_bundles(*world)[e] == (
                if m0.dom().contains(e) && exists|j: int| 0 <= j < i && es@[j] == e {
                    a0[e].with_camera_box(tracked_box(m0[e].1, m0[e].0))
                } else {
                    a0[e]
                }),
            forall|j: int|
                0 <= j < i ==> tracked_players(*world)[#[trigger] es@[j]] == (
                    m0[es@[j]].0,
                    tracked_box(m0[es@[j]].1, m0[es@[j]].0),
                ),
            forall|j: int| i <= j < es@.len() ==> tracked_players(*world)[#[trigger] es@[j]] == m0[es@[j]],
            camera.player_rects@ == rects0 + es@.take(i as int).map_values(
                |e: hecs::Entity| tracked_box(m0[e].1, m0[e].0),
            ),
        decreases es@.len() - i,
    {
        let e = es[i];
        proof {
            assert(es@.contains(es@[i as int]));
        }
        let cur = tracked_player(world, e);
        match cur {
            Some((position, b)) => {
                let nb = track_camera_box(b, position);
                set_camera_box(world, e, nb);
                camera.add_player_rect(nb);
            },
            None => {},
        }
        proof {
            assert forall|j: int| 0 <= j < es@.len() && j != i implies es@[j] != es@[i as int] by {}
            assert(es@.take(i + 1) =~= es@.take(i as int).push(e));
        }
        i = i + 1;
    }
    proof {
        assert(es@.take(es@.len() as int) =~= es@);
        assert forall|e: hecs::Entity| #[trigger]
            m0.dom().contains(e) implies tracked_players(*world)[e] == (
            m0[e].0,
            tracked_box(m0[e].1, m0[e].0),
        ) by {
            assert(es@.contains(e));
            let j = choose|j: int| 0 <= j < es@.len() && es@[j] == e;
        }
        assert forall|e: hecs::Entity| #[trigger]
            tracked_players(*world).dom().contains(e) implies tracked_players(
                *world,
            )[e].1.contains_rect(footprint(tracked_players(*world)[e].0)) by {
            lemma_tracked_box_contains_footprint(m0[e].1, m0[e].0);
        }
        assert(es@.map_values(|e: hecs::Entity| tracked_box(m0[e].1, m0[e].0)) =~= es@.map_values(
            |e: hecs::Entity| tracked_players(*world)[e].1,
        ));
    }
}

} // verus!
