use platformer_core::asset_tracker::AssetTracker;
use platformer_core::collectibles::Potions;
use platformer_core::control::{move_player, Key, KeyboardInput, Movement};
use platformer_core::player::{
    load_sheets, spawn_player, Player, PlayerBundle, PlayerPlugin, PlayerSprite, PlayerState,
    SheetGrid, TransformPlayer,
};
use platformer_core::transform::{handle_transform, transform, Transformation};
use platformer_core::shapes::{Collider, Position, Size, Tint, Vector};
use platformer_core::timer::{Timer, TimerMode};

const UP: Key = Key { pressed: false, just_pressed: false, just_released: false };
const DOWN: Key = Key { pressed: true, just_pressed: false, just_released: false };
const WENT_DOWN: Key = Key { pressed: true, just_pressed: true, just_released: false };
const CAME_UP: Key = Key { pressed: false, just_pressed: false, just_released: true };

fn keys(left: Key, right: Key, jump: Key) -> KeyboardInput {
    KeyboardInput { left, right, jump }
}

fn both_sheets() -> AssetTracker<PlayerSprite, u32> {
    let mut tracker = AssetTracker::default();
    load_sheets(&mut tracker, 100, 200);
    tracker
}

fn gary() -> PlayerBundle<u32> {
    spawn_player(&both_sheets()).unwrap()
}

#[test]
fn player_state_starts_idle() {
    assert_eq!(PlayerState::default(), PlayerState::Idle);
}

#[test]
fn sheets_and_their_grids() {
    assert_eq!(PlayerSprite::NormalGary.image_path(), "gary_normal_spritesheet.png");
    assert_eq!(PlayerSprite::LittleGary.image_path(), "gary_little_spritesheet.png");
    assert_eq!(
        PlayerSprite::NormalGary.grid(),
        SheetGrid { tile: Size { width: 27, height: 45 }, columns: 4, rows: 3 }
    );
    assert_eq!(
        PlayerSprite::LittleGary.grid(),
        SheetGrid { tile: Size { width: 9, height: 15 }, columns: 4, rows: 3 }
    );
}

#[test]
fn load_sheets_registers_normal_then_little() {
    let tracker = both_sheets();
    assert_eq!(tracker.assets.len(), 2);
    assert!(tracker.assets[0].asset == PlayerSprite::NormalGary);
    assert!(tracker.assets[1].asset == PlayerSprite::LittleGary);
    assert_eq!(tracker.get_handle(PlayerSprite::NormalGary), Some(100));
    assert_eq!(tracker.get_handle(PlayerSprite::LittleGary), Some(200));
}

#[test]
fn spawn_player_makes_normal_gary() {
    let player = gary();
    assert_eq!(player.start, Position { x: 0, y: 0 });
    assert_eq!(player.sprite.index, 8);
    assert!(!player.sprite.flip_x);
    assert_eq!(player.sprite.custom_size, Size { width: 54, height: 90 });
    assert_eq!(player.sprite.color, Tint::White);
    assert_eq!(player.sprite.sheet, 100);
    assert_eq!(player.collider, Collider::Cuboid { width: 30, height: 90 });
    assert_eq!(player.gravity_scale, 8);
    assert_eq!(player.player, Player { movement_scalar: 1, jump_strength: 400 });
    assert_eq!(player.animation.idle_range, (8, 9));
    assert_eq!(player.animation.walk_range, (0, 3));
    assert_eq!(player.animation.jump_range, (4, 7));
    assert_eq!(player.animation.timer, Timer::new(200, TimerMode::Repeating));
    assert_eq!(player.animation.blink_timer, None);
    assert_eq!(player.animation.blink_sequence, [4000, 800]);
    assert!(player.animation.is_wf());
}

#[test]
fn spawn_player_needs_the_normal_sheet() {
    let mut tracker: AssetTracker<PlayerSprite, u32> = AssetTracker::default();
    assert!(spawn_player(&tracker).is_none());
    tracker.register(PlayerSprite::LittleGary, 200);
    assert!(spawn_player(&tracker).is_none());
}

#[test]
fn move_left_turns_and_walks() {
    let mut player = gary();
    let movement =
        move_player(&mut player, &keys(WENT_DOWN, UP, UP), true, PlayerState::Idle);
    assert_eq!(
        movement,
        Movement { translation: Vector { x: -1, y: 0 }, next_state: Some(PlayerState::Walking) }
    );
    assert!(player.sprite.flip_x);
    assert_eq!(player.sprite.index, 0);
}

#[test]
fn move_right_turns_back() {
    let mut player = gary();
    player.sprite.flip_x = true;
    player.player.movement_scalar = 4;
    let movement = move_player(&mut player, &keys(UP, DOWN, UP), true, PlayerState::Walking);
    assert_eq!(
        movement,
        Movement { translation: Vector { x: 4, y: 0 }, next_state: None }
    );
    assert!(!player.sprite.flip_x);
}

#[test]
fn both_directions_cancel_and_face_right() {
    let mut player = gary();
    player.sprite.flip_x = true;
    player.sprite.index = 2;
    let movement = move_player(&mut player, &keys(DOWN, DOWN, UP), true, PlayerState::Walking);
    assert_eq!(movement.translation, Vector { x: 0, y: 0 });
    assert_eq!(movement.next_state, None);
    assert!(!player.sprite.flip_x);
    assert_eq!(player.sprite.index, 2);
}

#[test]
fn no_key_keeps_the_facing() {
    let mut player = gary();
    player.sprite.flip_x = true;
    let movement = move_player(&mut player, &keys(UP, UP, UP), true, PlayerState::Idle);
    assert_eq!(movement, Movement { translation: Vector { x: 0, y: 0 }, next_state: None });
    assert!(player.sprite.flip_x);
    assert_eq!(player.sprite.index, 8);
}

#[test]
fn walking_ends_when_the_last_key_comes_up() {
    let mut player = gary();
    player.sprite.index = 2;
    let movement = move_player(&mut player, &keys(CAME_UP, UP, UP), true, PlayerState::Walking);
    assert_eq!(movement.next_state, Some(PlayerState::Idle));
    assert_eq!(player.sprite.index, 8);
    let mut player = gary();
    let movement = move_player(&mut player, &keys(UP, CAME_UP, UP), true, PlayerState::Walking);
    assert_eq!(movement.next_state, Some(PlayerState::Idle));
}

#[test]
fn walking_goes_on_while_the_other_key_is_down() {
    let mut player = gary();
    player.sprite.index = 2;
    let movement = move_player(&mut player, &keys(CAME_UP, DOWN, UP), true, PlayerState::Walking);
    assert_eq!(movement.next_state, None);
    assert_eq!(movement.translation, Vector { x: 1, y: 0 });
    assert_eq!(player.sprite.index, 2);
}

#[test]
fn letting_go_of_a_key_matters_only_to_a_walk() {
    let mut player = gary();
    player.sprite.index = 5;
    let movement = move_player(&mut player, &keys(CAME_UP, UP, UP), true, PlayerState::Jumping);
    assert_eq!(movement.next_state, None);
    assert_eq!(player.sprite.index, 5);
    player.sprite.index = 9;
    let movement = move_player(&mut player, &keys(UP, CAME_UP, UP), true, PlayerState::Idle);
    assert_eq!(movement.next_state, None);
    assert_eq!(player.sprite.index, 9);
}

#[test]
fn jump_key_starts_a_jump_from_any_state_on_the_ground() {
    for state in [
        PlayerState::Idle,
        PlayerState::Walking,
        PlayerState::Jumping,
        PlayerState::JumpingInAir,
    ] {
        let mut player = gary();
        let movement = move_player(&mut player, &keys(UP, UP, WENT_DOWN), true, state);
        assert_eq!(movement.next_state, Some(PlayerState::Jumping));
        assert_eq!(player.sprite.index, 4);
    }
}

#[test]
fn jump_key_wins_over_a_direction_key() {
    let mut player = gary();
    let movement =
        move_player(&mut player, &keys(WENT_DOWN, UP, WENT_DOWN), true, PlayerState::Idle);
    assert_eq!(movement.next_state, Some(PlayerState::Jumping));
    assert_eq!(movement.translation, Vector { x: -1, y: 0 });
    assert_eq!(player.sprite.index, 4);
    assert!(player.sprite.flip_x);
}

#[test]
fn held_jump_key_does_not_jump_again() {
    let mut player = gary();
    let movement = move_player(&mut player, &keys(UP, UP, DOWN), true, PlayerState::Idle);
    assert_eq!(movement.next_state, None);
}

#[test]
fn nothing_changes_state_in_the_air() {
    for state in [
        PlayerState::Idle,
        PlayerState::Walking,
        PlayerState::Jumping,
        PlayerState::JumpingInAir,
    ] {
        let mut player = gary();
        player.sprite.index = 7;
        let movement =
            move_player(&mut player, &keys(WENT_DOWN, CAME_UP, WENT_DOWN), false, state);
        assert_eq!(movement.next_state, None);
        assert_eq!(movement.translation, Vector { x: -1, y: 0 });
        assert_eq!(player.sprite.index, 7);
        assert!(player.sprite.flip_x);
    }
}

#[test]
fn landing_with_a_key_down_walks() {
    let mut player = gary();
    player.sprite.index = 7;
    let movement =
        move_player(&mut player, &keys(UP, DOWN, UP), true, PlayerState::JumpingInAir);
    assert_eq!(movement.next_state, Some(PlayerState::Walking));
    assert_eq!(player.sprite.index, 0);
}

#[test]
fn landing_without_a_key_stands() {
    let mut player = gary();
    player.sprite.index = 7;
    let movement = move_player(&mut player, &keys(UP, UP, UP), true, PlayerState::JumpingInAir);
    assert_eq!(movement.next_state, Some(PlayerState::Idle));
    assert_eq!(player.sprite.index, 8);
}

#[test]
fn landing_while_a_key_comes_up() {
    let mut player = gary();
    let movement =
        move_player(&mut player, &keys(CAME_UP, UP, UP), true, PlayerState::JumpingInAir);
    assert_eq!(movement.next_state, Some(PlayerState::Idle));
    let mut player = gary();
    let movement =
        move_player(&mut player, &keys(CAME_UP, DOWN, UP), true, PlayerState::JumpingInAir);
    assert_eq!(movement.next_state, Some(PlayerState::Walking));
}

#[test]
fn movement_is_scaled_even_at_the_limits() {
    let mut player = gary();
    player.player.movement_scalar = i32::MIN;
    let movement = move_player(&mut player, &keys(DOWN, UP, UP), false, PlayerState::Idle);
    assert_eq!(movement.translation, Vector { x: 2_147_483_648, y: 0 });
    player.player.movement_scalar = i32::MAX;
    let movement = move_player(&mut player, &keys(DOWN, UP, UP), false, PlayerState::Idle);
    assert_eq!(movement.translation, Vector { x: -2_147_483_647, y: 0 });
}

#[test]
fn transformations_of_the_three_potions() {
    assert_eq!(
        Transformation::of(Potions::Blue),
        Transformation {
            sprite: PlayerSprite::LittleGary,
            custom_size: Size { width: 18, height: 30 },
            color: Tint::White,
            collider: Collider::Cuboid { width: 16, height: 26 },
            gravity_scale: 9,
            timer_interval_ms: 80,
            movement_scalar: 4,
            jump_strength: 200,
        }
    );
    assert_eq!(
        Transformation::of(Potions::Green),
        Transformation {
            sprite: PlayerSprite::NormalGary,
            custom_size: Size { width: 54, height: 90 },
            color: Tint::Green,
            collider: Collider::Cuboid { width: 30, height: 90 },
            gravity_scale: 8,
            timer_interval_ms: 200,
            movement_scalar: 2,
            jump_strength: 1000,
        }
    );
    assert_eq!(
        Transformation::of(Potions::Red),
        Transformation {
            sprite: PlayerSprite::NormalGary,
            custom_size: Size { width: 54, height: 90 },
            color: Tint::Red,
            collider: Collider::Cuboid { width: 30, height: 90 },
            gravity_scale: 8,
            timer_interval_ms: 200,
            movement_scalar: 1,
            jump_strength: 0,
        }
    );
}

#[test]
fn blue_potion_makes_little_gary() {
    let mut player = gary();
    player.sprite.index = 2;
    player.sprite.flip_x = true;
    player.animation.timer.elapsed_ns = 123;
    player.animation.blink_timer = Some(Timer::new(4000, TimerMode::Once));
    assert!(transform(&mut player, Potions::Blue, &both_sheets()));
    assert_eq!(player.sprite.sheet, 200);
    assert_eq!(player.sprite.custom_size, Size { width: 18, height: 30 });
    assert_eq!(player.sprite.color, Tint::White);
    assert_eq!(player.collider, Collider::Cuboid { width: 16, height: 26 });
    assert_eq!(player.gravity_scale, 9);
    assert_eq!(player.animation.timer, Timer::new(80, TimerMode::Repeating));
    assert_eq!(player.player, Player { movement_scalar: 4, jump_strength: 200 });
    assert_eq!(player.sprite.index, 2);
    assert!(player.sprite.flip_x);
    assert_eq!(player.animation.blink_timer, Some(Timer::new(4000, TimerMode::Once)));
    assert_eq!(player.animation.blink_sequence, [4000, 800]);
    assert_eq!(player.animation.jump_range, (4, 7));
}

#[test]
fn green_potion_tints_and_strengthens() {
    let mut player = gary();
    assert!(transform(&mut player, Potions::Green, &both_sheets()));
    assert_eq!(player.sprite.sheet, 100);
    assert_eq!(player.sprite.color, Tint::Green);
    assert_eq!(player.player, Player { movement_scalar: 2, jump_strength: 1000 });
    assert_eq!(player.gravity_scale, 8);
    assert_eq!(player.animation.timer, Timer::new(200, TimerMode::Repeating));
}

#[test]
fn red_potion_takes_the_jump_away() {
    let mut player = gary();
    assert!(transform(&mut player, Potions::Red, &both_sheets()));
    assert_eq!(player.sprite.color, Tint::Red);
    assert_eq!(player.player, Player { movement_scalar: 1, jump_strength: 0 });
    assert_eq!(player.collider, Collider::Cuboid { width: 30, height: 90 });
}

#[test]
fn transformation_without_its_sheet_changes_nothing() {
    let mut only_normal: AssetTracker<PlayerSprite, u32> = AssetTracker::default();
    only_normal.register(PlayerSprite::NormalGary, 100);
    let mut player = gary();
    player.animation.timer.elapsed_ns = 77;
    assert!(!transform(&mut player, Potions::Blue, &only_normal));
    assert_eq!(player.sprite.sheet, 100);
    assert_eq!(player.sprite.custom_size, Size { width: 54, height: 90 });
    assert_eq!(player.sprite.color, Tint::White);
    assert_eq!(player.collider, Collider::Cuboid { width: 30, height: 90 });
    assert_eq!(player.gravity_scale, 8);
    assert_eq!(player.player, Player { movement_scalar: 1, jump_strength: 400 });
    assert_eq!(
        player.animation.timer,
        Timer { duration_ms: 200, elapsed_ns: 77, mode: TimerMode::Repeating }
    );
}

#[test]
fn later_signal_decides() {
    let mut player = gary();
    let signals = vec![
        TransformPlayer { catalyst: Potions::Blue },
        TransformPlayer { catalyst: Potions::Green },
    ];
    assert!(handle_transform(&mut player, &signals, &both_sheets()));
    assert_eq!(player.sprite.sheet, 100);
    assert_eq!(player.sprite.color, Tint::Green);
    assert_eq!(player.player, Player { movement_scalar: 2, jump_strength: 1000 });
    assert_eq!(player.gravity_scale, 8);
}

#[test]
fn skipped_signal_does_not_stop_a_later_one() {
    let mut only_normal: AssetTracker<PlayerSprite, u32> = AssetTracker::default();
    only_normal.register(PlayerSprite::NormalGary, 100);
    let mut player = gary();
    let signals = vec![
        TransformPlayer { catalyst: Potions::Blue },
        TransformPlayer { catalyst: Potions::Red },
        TransformPlayer { catalyst: Potions::Blue },
    ];
    assert!(handle_transform(&mut player, &signals, &only_normal));
    assert_eq!(player.sprite.color, Tint::Red);
    assert_eq!(player.player, Player { movement_scalar: 1, jump_strength: 0 });
    assert_eq!(player.sprite.custom_size, Size { width: 54, height: 90 });
}

#[test]
fn no_signal_changes_nothing() {
    let mut player = gary();
    assert!(!handle_transform(&mut player, &Vec::new(), &both_sheets()));
    assert_eq!(player.player, Player { movement_scalar: 1, jump_strength: 400 });
    assert_eq!(player.sprite.color, Tint::White);
}

#[test]
fn player_plugin_starts_without_a_player() {
    let plugin: PlayerPlugin<u32> = PlayerPlugin::build();
    assert!(plugin.tracker.assets.is_empty());
    assert_eq!(plugin.state, PlayerState::Idle);
    assert!(plugin.player.is_none());
    assert!(plugin.is_wf());
}

#[test]
fn player_plugin_spawns_on_entering_the_game() {
    let mut plugin: PlayerPlugin<u32> = PlayerPlugin::build();
    plugin.enter_game();
    assert!(plugin.player.is_none());
    load_sheets(&mut plugin.tracker, 100, 200);
    plugin.enter_game();
    assert_eq!(plugin.player.as_ref().unwrap().sprite.sheet, 100);
    assert_eq!(plugin.state, PlayerState::Idle);
    assert!(plugin.is_wf());
}

#[test]
fn player_plugin_validity_follows_state_and_frame() {
    let mut plugin: PlayerPlugin<u32> = PlayerPlugin::build();
    load_sheets(&mut plugin.tracker, 100, 200);
    plugin.enter_game();
    plugin.state = PlayerState::Walking;
    assert!(!plugin.is_wf());
    plugin.player.as_mut().unwrap().sprite.index = 3;
    assert!(plugin.is_wf());
    plugin.state = PlayerState::Jumping;
    plugin.player.as_mut().unwrap().sprite.index = 7;
    assert!(!plugin.is_wf());
    plugin.state = PlayerState::JumpingInAir;
    assert!(plugin.is_wf());
    plugin.player.as_mut().unwrap().animation.timer = Timer::new(0, TimerMode::Repeating);
    assert!(!plugin.is_wf());
}

#[test]
fn player_plugin_transform_without_a_player_does_nothing() {
    let mut plugin: PlayerPlugin<u32> = PlayerPlugin::build();
    assert!(!plugin.transform(&vec![TransformPlayer { catalyst: Potions::Blue }]));
    assert!(plugin.player.is_none());
    assert_eq!(plugin.state, PlayerState::Idle);
}

#[test]
fn signals_without_their_sheet_transform_nothing() {
    let mut only_normal: AssetTracker<PlayerSprite, u32> = AssetTracker::default();
    only_normal.register(PlayerSprite::NormalGary, 100);
    let mut player = gary();
    let signals = vec![
        TransformPlayer { catalyst: Potions::Blue },
        TransformPlayer { catalyst: Potions::Blue },
    ];
    assert!(!handle_transform(&mut player, &signals, &only_normal));
    assert_eq!(player.sprite.sheet, 100);
    assert_eq!(player.player, Player { movement_scalar: 1, jump_strength: 400 });
}
