use camera_scene::{
    add_camera, add_player, create_app, create_app_with_velocity, keyboard_pose, move_camera,
    respond_to_keyboard, velocity_pose, App, Camera, Key, KeyInput, Player, Vec2,
    MILLIS_PER_UNIT, PAN_STEP, PLAYER_SCALE_X, PLAYER_SCALE_Y, ROTATION_STEP,
};

fn started(mut app: App) -> App {
    app.update(&KeyInput::new());
    app
}

fn press_and_tick(key: Key) -> App {
    let mut app = started(create_app());
    assert_eq!(app.get_camera_position(), Vec2::new(0, 0));
    let mut input = KeyInput::new();
    input.press(key);
    app.update(&input);
    app
}

#[test]
fn test_can_create_app() {
    create_app();
}

#[test]
fn test_empty_app_has_no_moving_cameras() {
    let app = App::new();
    assert_eq!(app.count_n_cameras(), 0);
}

#[test]
fn test_create_app_has_a_moving_camera() {
    let app = started(create_app());
    assert_eq!(app.count_n_cameras(), 1);
}

#[test]
fn test_player_is_at_origin() {
    let app = started(create_app());
    assert_eq!(app.get_player_position(), Vec2::new(0, 0));
}

#[test]
fn test_player_has_a_custom_scale() {
    let app = started(create_app());
    assert_eq!(app.get_player_scale(), Vec2::from_units(64, 32));
}

#[test]
fn test_camera_is_at_origin() {
    let app = started(create_app());
    assert_eq!(app.get_camera_position(), Vec2::new(0, 0));
}

#[test]
fn test_camera_is_not_rotated_at_start() {
    let app = started(create_app());
    assert_eq!(app.get_camera_rotation(), 0);
}

#[test]
fn test_camera_moves_when_pressed_up() {
    let app = press_and_tick(Key::Up);
    assert_ne!(app.get_camera_position(), Vec2::new(0, 0));
}

#[test]
fn test_camera_moves_when_pressed_right() {
    let app = press_and_tick(Key::Right);
    assert_ne!(app.get_camera_position(), Vec2::new(0, 0));
}

#[test]
fn test_camera_moves_when_pressed_down() {
    let app = press_and_tick(Key::Down);
    assert_ne!(app.get_camera_position(), Vec2::new(0, 0));
}

#[test]
fn test_camera_moves_when_pressed_left() {
    let app = press_and_tick(Key::Left);
    assert_ne!(app.get_camera_position(), Vec2::new(0, 0));
}

#[test]
fn test_camera_rotates_when_pressed_q() {
    let app = started(create_app());
    assert_eq!(app.get_camera_rotation(), 0);
    let mut input = KeyInput::new();
    input.press(Key::RotateNegative);
    let mut app = app;
    app.update(&input);
    println!("{:?}", app.get_camera_rotation());
    assert_ne!(app.get_camera_rotation(), 0);
}

#[test]
fn test_camera_rotates_when_pressed_e() {
    let app = started(create_app());
    assert_eq!(app.get_camera_rotation(), 0);
    let mut input = KeyInput::new();
    input.press(Key::RotatePositive);
    let mut app = app;
    app.update(&input);
    assert_ne!(app.get_camera_rotation(), 0);
}

#[test]
fn arrow_keys_move_one_unit_each() {
    assert_eq!(press_and_tick(Key::Up).get_camera_position(), Vec2::new(0, 1000));
    assert_eq!(press_and_tick(Key::Right).get_camera_position(), Vec2::new(1000, 0));
    assert_eq!(press_and_tick(Key::Down).get_camera_position(), Vec2::new(0, -1000));
    assert_eq!(press_and_tick(Key::Left).get_camera_position(), Vec2::new(-1000, 0));
}

#[test]
fn rotation_keys_turn_a_tenth_of_a_radian() {
    assert_eq!(press_and_tick(Key::RotateNegative).get_camera_rotation(), -100);
    assert_eq!(press_and_tick(Key::RotatePositive).get_camera_rotation(), 100);
    assert_eq!(press_and_tick(Key::Up).get_camera_rotation(), 0);
}

#[test]
fn right_for_one_tick_then_release_moves_once() {
    let mut app = press_and_tick(Key::Right);
    let idle = KeyInput::new();
    for _ in 0..10 {
        app.update(&idle);
    }
    assert_eq!(app.get_camera_position(), Vec2::new(1000, 0));
    assert_eq!(app.get_camera_rotation(), 0);
}

#[test]
fn holding_up_for_five_ticks_reaches_five_units() {
    let mut app = started(create_app());
    let mut input = KeyInput::new();
    input.press(Key::Up);
    for _ in 0..5 {
        app.update(&input);
    }
    assert_eq!(app.get_camera_position(), Vec2::new(0, 5 * MILLIS_PER_UNIT));
}

#[test]
fn keys_compose_additively() {
    let mut app = started(create_app());
    let mut input = KeyInput::new();
    input.press(Key::Right);
    input.press(Key::Up);
    input.press(Key::RotatePositive);
    app.update(&input);
    assert_eq!(app.get_camera_position(), Vec2::new(1000, 1000));
    assert_eq!(app.get_camera_rotation(), 100);
    input.press(Key::Left);
    input.press(Key::RotateNegative);
    app.update(&input);
    assert_eq!(app.get_camera_position(), Vec2::new(1000, 2000));
    assert_eq!(app.get_camera_rotation(), 100);
}

#[test]
fn idle_keyboard_scene_never_moves() {
    let mut app = create_app();
    let idle = KeyInput::new();
    for _ in 0..20 {
        app.update(&idle);
        assert_eq!(app.get_camera_position(), Vec2::new(0, 0));
        assert_eq!(app.get_camera_rotation(), 0);
    }
}

#[test]
fn key_input_press_and_release() {
    let mut input = KeyInput::new();
    assert!(!input.pressed(Key::Left));
    input.press(Key::Left);
    input.press(Key::RotateNegative);
    assert!(input.pressed(Key::Left));
    assert!(input.pressed(Key::RotateNegative));
    assert!(!input.pressed(Key::Right));
    input.release(Key::Left);
    assert!(!input.pressed(Key::Left));
    assert!(input.pressed(Key::RotateNegative));
}

#[test]
fn velocity_camera_stays_at_origin_on_first_tick() {
    let app = started(create_app_with_velocity(Vec2::new(1200, 3400)));
    assert_eq!(app.get_camera_position(), Vec2::new(0, 0));
    assert_eq!(app.count_n_cameras(), 1);
}

#[test]
fn velocity_camera_moves_by_velocity_each_later_tick() {
    let mut app = started(create_app_with_velocity(Vec2::new(1200, 3400)));
    let idle = KeyInput::new();
    app.update(&idle);
    assert_eq!(app.get_camera_position(), Vec2::new(1200, 3400));
    for _ in 0..6 {
        app.update(&idle);
    }
    assert_eq!(app.get_camera_position(), Vec2::new(8400, 23800));
    assert_eq!(app.get_camera_rotation(), 0);
}

#[test]
fn velocity_camera_ignores_keys() {
    let mut app = started(create_app_with_velocity(Vec2::new(200, 100)));
    let mut input = KeyInput::new();
    input.press(Key::Up);
    input.press(Key::RotatePositive);
    app.update(&input);
    assert_eq!(app.get_camera_position(), Vec2::new(200, 100));
    assert_eq!(app.get_camera_rotation(), 0);
}

#[test]
fn still_camera_stays_at_origin() {
    let mut app = create_app_with_velocity(Vec2::zero());
    let idle = KeyInput::new();
    for _ in 0..15 {
        app.update(&idle);
        assert_eq!(app.get_camera_position(), Vec2::new(0, 0));
    }
}

#[test]
fn player_never_changes() {
    let mut app = create_app();
    let mut input = KeyInput::new();
    input.press(Key::Right);
    input.press(Key::RotateNegative);
    for _ in 0..8 {
        app.update(&input);
        assert_eq!(app.count_n_cameras(), 1);
        assert_eq!(app.get_player_position(), Vec2::new(0, 0));
        assert_eq!(app.get_player_scale(), Vec2::new(64_000, 32_000));
    }
}

#[test]
fn empty_scene_stays_empty_after_ticks() {
    let mut app = App::new();
    let mut input = KeyInput::new();
    input.press(Key::Up);
    for _ in 0..3 {
        assert!(app.can_update(&input));
        app.update(&input);
    }
    assert_eq!(app.count_n_cameras(), 0);
}

#[test]
fn no_entities_before_the_first_tick() {
    assert_eq!(create_app().count_n_cameras(), 0);
    assert_eq!(create_app_with_velocity(Vec2::new(1, 1)).count_n_cameras(), 0);
}

#[test]
fn can_update_spots_overflow() {
    let mut app = create_app_with_velocity(Vec2::new(i64::MAX, 0));
    let idle = KeyInput::new();
    assert!(app.can_update(&idle));
    app.update(&idle);
    assert!(app.can_update(&idle));
    app.update(&idle);
    assert_eq!(app.get_camera_position(), Vec2::new(i64::MAX, 0));
    assert!(!app.can_update(&idle));
}

#[test]
fn poses_report_overflow() {
    let edge = Camera { position: Vec2::new(i64::MAX, i64::MIN), rotation: i64::MIN };
    let mut right = KeyInput::new();
    right.press(Key::Right);
    assert_eq!(keyboard_pose(&edge, &right), None);
    let mut turn = KeyInput::new();
    turn.press(Key::RotateNegative);
    assert_eq!(keyboard_pose(&edge, &turn), None);
    let mut left_up = KeyInput::new();
    left_up.press(Key::Left);
    left_up.press(Key::Up);
    assert_eq!(
        keyboard_pose(&edge, &left_up),
        Some(Camera { position: Vec2::new(i64::MAX - 1000, i64::MIN + 1000), rotation: i64::MIN })
    );
    assert_eq!(velocity_pose(&edge, Vec2::new(0, -1)), None);
    assert_eq!(
        velocity_pose(&edge, Vec2::new(-5, 7)),
        Some(Camera { position: Vec2::new(i64::MAX - 5, i64::MIN + 7), rotation: i64::MIN })
    );
}

#[test]
fn frame_updaters_on_one_camera() {
    let mut cameras: Vec<Camera> = Vec::new();
    add_camera(&mut cameras);
    assert_eq!(cameras, vec![Camera { position: Vec2::new(0, 0), rotation: 0 }]);
    move_camera(&mut cameras, Vec2::new(-300, 40));
    assert_eq!(cameras[0].position, Vec2::new(-300, 40));
    let mut input = KeyInput::new();
    input.press(Key::Down);
    input.press(Key::RotatePositive);
    respond_to_keyboard(&mut cameras, &input);
    assert_eq!(cameras[0], Camera { position: Vec2::new(-300, -960), rotation: 100 });
}

#[test]
fn spawned_player_has_fixed_values() {
    let mut players: Vec<Player> = Vec::new();
    add_player(&mut players);
    assert_eq!(players.len(), 1);
    assert_eq!(players[0].position, Vec2::new(0, 0));
    assert_eq!(players[0].scale, Vec2::new(PLAYER_SCALE_X, PLAYER_SCALE_Y));
}

#[test]
fn step_constants() {
    assert_eq!(PAN_STEP, 1000);
    assert_eq!(ROTATION_STEP, 100);
    assert_eq!(Vec2::from_units(-2, 3), Vec2::new(-2000, 3000));
}
