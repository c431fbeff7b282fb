use hecs::World;
use player_core::camera::{track_camera_box, update_player_camera_box, GameCamera};
use player_core::character::{
    AnimationMetadata, PlayerCharacterMetadata, PlayerControllerKind, SpriteMetadata,
};
use player_core::components::{PhysicsBody, PlayerInventory, Transform, DEFAULT_SPRITE_SCALE};
use player_core::geometry::{Rect, Vec2};
use player_core::player::{Player, PlayerAttributes, PlayerState};
use player_core::spawn::{
    body_params, convert_animations, draw_order, sprite_offset, spawn_player, Actor,
    spawn_preconditions_hold, CollisionWorld, TextureStore, BODY_ANIMATED_SPRITE_ID,
};

fn units(n: i32) -> i32 {
    n * 1000
}

fn at(x: i32, y: i32) -> Vec2 {
    Vec2::new(units(x), units(y))
}

fn character() -> PlayerCharacterMetadata {
    PlayerCharacterMetadata {
        collider_size: Vec2::new(units(30), units(54)),
        weapon_mount: at(10, 20),
        item_mount: at(5, 25),
        hat_mount: at(0, -8),
        sprite: SpriteMetadata {
            texture_id: "pescy".to_string(),
            animations: vec![
                AnimationMetadata {
                    id: "idle".to_string(),
                    row: 0,
                    frames: 14,
                    fps: 12,
                    is_looping: true,
                },
                AnimationMetadata {
                    id: "jump".to_string(),
                    row: 2,
                    frames: 1,
                    fps: 8,
                    is_looping: false,
                },
            ],
            offset: at(0, 4),
            scale: None,
            is_flipped_x: false,
            is_flipped_y: false,
        },
        head_threshold: units(24),
        legs_threshold: units(42),
        jump_force: units(16),
        move_speed: units(5),
        slide_speed_factor: 1500,
        incapacitation_duration: 3000,
        float_gravity_factor: 500,
    }
}

fn textures() -> TextureStore {
    let mut t = TextureStore::new();
    t.insert("pescy".to_string(), at(64, 80));
    t
}

fn camera_box(world: &World, e: hecs::Entity) -> Rect {
    world.get::<Player>(e).unwrap().camera_box
}

#[test]
fn new_player_is_fresh_with_initial_camera_box() {
    let p = Player::new(3, at(100, 100));
    assert_eq!(p.index, 3);
    assert_eq!(p.state, PlayerState::Initial);
    assert!(!p.damage_from_left && !p.is_facing_left && !p.is_upside_down && !p.is_attacking);
    assert_eq!(p.jump_frame_counter, 0);
    assert_eq!(p.pickup_grace_timer, 0);
    assert_eq!(p.incapacitation_timer, 0);
    assert_eq!(p.attack_timer, 0);
    assert_eq!(p.respawn_timer, 0);
    assert!(p.passive_effects.is_empty());
    assert_eq!(p.camera_box, Rect::new(units(70), units(-50), units(100), units(210)));
}

#[test]
fn initial_camera_box_for_negative_position() {
    let p = Player::new(0, at(-5, -7));
    assert_eq!(p.camera_box, Rect::new(units(-35), units(-157), units(100), units(210)));
}

#[test]
fn tracking_slides_box_right_to_hold_player() {
    let b = Rect::new(units(70), units(-50), units(100), units(210));
    let r = track_camera_box(b, at(300, 100));
    assert_eq!(r.x, units(232));
    assert_eq!(r.y, units(-50));
    assert_eq!((r.w, r.h), (units(100), units(210)));
}

#[test]
fn tracking_slides_box_left_and_down() {
    let b = Rect::new(units(70), units(-50), units(100), units(210));
    let r = track_camera_box(b, at(10, 200));
    assert_eq!(r, Rect::new(units(10), units(50), units(100), units(210)));
}

#[test]
fn tracking_slides_box_up() {
    let b = Rect::new(0, 0, units(100), units(210));
    let r = track_camera_box(b, at(20, -40));
    assert_eq!(r, Rect::new(0, units(-40), units(100), units(210)));
}

#[test]
fn tracking_leaves_box_holding_player_unchanged() {
    let b = Rect::new(units(70), units(-50), units(100), units(210));
    assert_eq!(track_camera_box(b, at(100, 100)), b);
    assert_eq!(track_camera_box(b, at(70, -50)), b);
    assert_eq!(track_camera_box(b, at(138, 100)), b);
}

#[test]
fn tracking_keeps_size_and_holds_footprint_over_frames() {
    let mut b = Rect::new(units(70), units(-50), units(100), units(210));
    let path = [at(300, 100), at(-400, 20), at(-380, 900), at(0, 0), at(5000, -3000)];
    for p in path {
        b = track_camera_box(b, p);
        assert_eq!((b.w, b.h), (units(100), units(210)));
        assert!(b.x <= p.x && p.x + units(32) <= b.x + b.w);
        assert!(b.y <= p.y && p.y + units(60) <= b.y + b.h);
    }
}

#[test]
fn camera_collects_rects_in_order() {
    let mut c = GameCamera::new();
    let a = Rect::new(1, 2, 3, 4);
    let b = Rect::new(5, 6, 7, 8);
    c.add_player_rect(a);
    c.add_player_rect(b);
    assert_eq!(c.player_rects, vec![a, b]);
}

#[test]
fn attributes_copy_the_tunables() {
    let c = character();
    let a = PlayerAttributes::from(&c);
    assert_eq!(a.head_threshold, c.head_threshold);
    assert_eq!(a.legs_threshold, c.legs_threshold);
    assert_eq!(a.weapon_mount, c.weapon_mount);
    assert_eq!(a.jump_force, c.jump_force);
    assert_eq!(a.move_speed, c.move_speed);
    assert_eq!(a.slide_speed_factor, c.slide_speed_factor);
    assert_eq!(a.incapacitation_duration, c.incapacitation_duration);
    assert_eq!(a.float_gravity_factor, c.float_gravity_factor);
    assert_eq!(PlayerAttributes::from(&c), a);
}

#[test]
fn draw_order_is_a_decade_per_slot() {
    assert_eq!(draw_order(0), 10);
    assert_eq!(draw_order(1), 20);
    assert_eq!(draw_order(255), 2560);
}

#[test]
fn sprite_offset_centres_and_aligns_to_collider() {
    let r = sprite_offset(at(0, 4), at(64, 80), units(54));
    assert_eq!(r, Vec2::new(units(-32), units(-22)));
    let odd = sprite_offset(Vec2::new(0, 0), Vec2::new(33, 10), 10);
    assert_eq!(odd, Vec2::new(-16, 0));
}

#[test]
fn body_params_centre_the_collider() {
    let p = body_params(at(30, 54));
    assert_eq!(p.offset, Vec2::new(units(-15), 0));
    assert_eq!(p.size, at(30, 54));
    assert!(!p.has_friction);
    assert!(!p.can_rotate);
    assert!(p.has_mass);
    assert_eq!(p.bounciness, 0);
}

#[test]
fn animations_convert_in_order() {
    let c = character();
    let r = convert_animations(&c.sprite.animations);
    assert_eq!(r.len(), 2);
    assert_eq!(r[0].id, "idle");
    assert_eq!((r[0].row, r[0].frames, r[0].fps, r[0].is_looping), (0, 14, 12, true));
    assert_eq!(r[1].id, "jump");
    assert_eq!((r[1].row, r[1].frames, r[1].fps, r[1].is_looping), (2, 1, 8, false));
}

#[test]
fn texture_lookup_finds_first_match() {
    let mut t = TextureStore::new();
    t.insert("a".to_string(), Vec2::new(1, 2));
    t.insert("b".to_string(), Vec2::new(3, 4));
    t.insert("a".to_string(), Vec2::new(5, 6));
    assert_eq!(t.lookup(&"a".to_string()), Some(Vec2::new(1, 2)));
    assert_eq!(t.lookup(&"b".to_string()), Some(Vec2::new(3, 4)));
    assert_eq!(t.lookup(&"c".to_string()), None);
}

#[test]
fn collision_world_hands_out_indices() {
    let mut c = CollisionWorld::new();
    let a = c.add_actor(at(1, 2), 3, 4);
    let b = c.add_actor(at(5, 6), 7, 8);
    assert_eq!((a.index, b.index), (0, 1));
    assert_eq!(c.actors[1], Actor { position: at(5, 6), width: 7, height: 8 });
}

#[test]
fn spawn_builds_a_complete_player() {
    let mut world = World::new();
    let mut collisions = CollisionWorld::new();
    let c = character();
    let e = spawn_player(
        &mut world,
        &textures(),
        &mut collisions,
        0,
        at(100, 100),
        PlayerControllerKind::LocalInput { scheme: 1 },
        c.clone(),
    )
    .unwrap();
    assert_eq!(world.len(), 1);
    assert_eq!(camera_box(&world, e), Rect::new(units(70), units(-50), units(100), units(210)));
    assert_eq!(world.get::<Transform>(e).unwrap().position, at(100, 100));
    assert_eq!(*world.get::<PlayerAttributes>(e).unwrap(), PlayerAttributes::from(&c));
    assert_eq!(
        *world.get::<PlayerInventory>(e).unwrap(),
        PlayerInventory::new(c.weapon_mount, c.item_mount, c.hat_mount)
    );
    assert_eq!(collisions.actors, vec![Actor { position: at(100, 100), width: 30, height: 54 }]);
    let body = *world.get::<PhysicsBody>(e).unwrap();
    assert_eq!(body.actor.index, 0);
    assert_eq!(body.params.offset, Vec2::new(units(-15), 0));
    let drawable = world.get::<player_core::components::Drawable>(e).unwrap();
    assert_eq!(drawable.draw_order, 10);
    assert_eq!(drawable.sprites.len(), 1);
    assert_eq!(drawable.sprites[0].id, BODY_ANIMATED_SPRITE_ID);
    let sprite = &drawable.sprites[0].sprite;
    assert_eq!(sprite.texture_id, "pescy");
    assert_eq!(sprite.animations.len(), 2);
    assert_eq!(sprite.params.offset, Vec2::new(units(-32), units(-22)));
    assert_eq!(sprite.params.scale, DEFAULT_SPRITE_SCALE);
    assert!(world.get::<player_core::components::PlayerEventQueue>(e).unwrap().queue.is_empty());
}

#[test]
fn spawning_two_players_gives_separate_orders_and_attributes() {
    let mut world = World::new();
    let mut collisions = CollisionWorld::new();
    let t = textures();
    let c = character();
    let e0 = spawn_player(&mut world, &t, &mut collisions, 0, at(0, 0), PlayerControllerKind::LocalInput { scheme: 0 }, c.clone()).unwrap();
    let e1 = spawn_player(&mut world, &t, &mut collisions, 1, at(50, 0), PlayerControllerKind::Network { slot: 1 }, c.clone()).unwrap();
    assert_ne!(e0, e1);
    assert_eq!(world.get::<player_core::components::Drawable>(e0).unwrap().draw_order, 10);
    assert_eq!(world.get::<player_core::components::Drawable>(e1).unwrap().draw_order, 20);
    world.get_mut::<PlayerAttributes>(e0).unwrap().move_speed = units(99);
    assert_eq!(world.get::<PlayerAttributes>(e0).unwrap().move_speed, units(99));
    assert_eq!(world.get::<PlayerAttributes>(e1).unwrap().move_speed, c.move_speed);
    assert_eq!(collisions.actors.len(), 2);
}

#[test]
fn spawn_with_unknown_texture_changes_nothing() {
    let mut world = World::new();
    let mut collisions = CollisionWorld::new();
    let mut c = character();
    c.sprite.texture_id = "missing".to_string();
    let r = spawn_player(&mut world, &textures(), &mut collisions, 0, at(0, 0), PlayerControllerKind::LocalInput { scheme: 0 }, c);
    assert!(r.is_none());
    assert_eq!(world.len(), 0);
    assert!(collisions.actors.is_empty());
}

#[test]
fn world_tracking_follows_moved_player() {
    let mut world = World::new();
    let mut collisions = CollisionWorld::new();
    let t = textures();
    let e = spawn_player(&mut world, &t, &mut collisions, 0, at(100, 100), PlayerControllerKind::LocalInput { scheme: 0 }, character()).unwrap();
    let still = spawn_player(&mut world, &t, &mut collisions, 1, at(500, 100), PlayerControllerKind::LocalInput { scheme: 1 }, character()).unwrap();
    world.get_mut::<Transform>(e).unwrap().position = at(300, 100);
    let mut camera = GameCamera::new();
    update_player_camera_box(&mut world, &mut camera);
    assert_eq!(camera_box(&world, e), Rect::new(units(232), units(-50), units(100), units(210)));
    assert_eq!(camera_box(&world, still), Rect::new(units(470), units(-50), units(100), units(210)));
    assert_eq!(camera.player_rects.len(), 2);
    assert!(camera.player_rects.contains(&camera_box(&world, e)));
    assert!(camera.player_rects.contains(&camera_box(&world, still)));
}

#[test]
fn world_tracking_skips_entities_without_position() {
    let mut world = World::new();
    world.spawn((Player::new(0, at(0, 0)),));
    let mut camera = GameCamera::new();
    update_player_camera_box(&mut world, &mut camera);
    assert!(camera.player_rects.is_empty());
}

#[test]
fn spawn_preconditions_accept_ordinary_inputs() {
    assert!(spawn_preconditions_hold(&textures(), at(100, 100), &character()));
    let mut c = character();
    c.sprite.texture_id = "missing".to_string();
    assert!(spawn_preconditions_hold(&textures(), at(0, 0), &c));
}

#[test]
fn spawn_preconditions_reject_out_of_range_inputs() {
    let mut c = character();
    c.collider_size = Vec2::new(-1, 10);
    assert!(!spawn_preconditions_hold(&textures(), at(0, 0), &c));
    assert!(!spawn_preconditions_hold(&textures(), Vec2::new(i32::MIN, 0), &character()));
    let mut far = character();
    far.sprite.offset = Vec2::new(i32::MIN, 0);
    assert!(!spawn_preconditions_hold(&textures(), at(0, 0), &far));
    let mut bad_store = TextureStore { textures: textures().textures };
    bad_store.textures[0].frame_size = Vec2::new(-2, 0);
    assert!(!spawn_preconditions_hold(&bad_store, at(0, 0), &character()));
}
