use third_person_controller::player_controller::{
    classify_state, movement_direction, speed_of, ControlInput, MovementDirection,
    PlayerController, PlayerState, Translation, CONTACT_SPEED, GRAVITY, RUNNING_SPEED,
    WALKING_SPEED,
};

const TICK: u32 = 16;

fn nothing() -> ControlInput {
    ControlInput {
        forward: false,
        back: false,
        right: false,
        left: false,
        jump: false,
        sprint: false,
        aim: false,
    }
}

fn grounded() -> PlayerController {
    let mut c = PlayerController::new();
    c.record_contact(true);
    c
}

#[test]
fn new_controller_is_idle_and_still() {
    let c = PlayerController::new();
    assert_eq!(c.state, PlayerState::Idle);
    assert_eq!(c.direction, MovementDirection { forward: 0, right: 0 });
    assert_eq!(c.vertical_speed.0, 0);
    assert!(!c.grounded);
}

#[test]
fn keys_give_the_intent() {
    let mut input = nothing();
    input.forward = true;
    input.left = true;
    assert_eq!(movement_direction(&input), MovementDirection { forward: 1, right: -1 });
    input.back = true;
    input.right = true;
    assert_eq!(movement_direction(&input), MovementDirection { forward: 0, right: 0 });
    let mut back = nothing();
    back.back = true;
    back.right = true;
    assert_eq!(movement_direction(&back), MovementDirection { forward: -1, right: 1 });
}

#[test]
fn speed_table() {
    assert_eq!(speed_of(PlayerState::Idle), 0);
    assert_eq!(speed_of(PlayerState::Walking), 1_800_000);
    assert_eq!(speed_of(PlayerState::Running), 4_000_000);
    assert!(speed_of(PlayerState::Sprinting) > RUNNING_SPEED);
    assert_eq!(speed_of(PlayerState::Jumping), 0);
    assert_eq!(speed_of(PlayerState::Aiming), 0);
}

#[test]
fn classification_order() {
    let moving = MovementDirection { forward: 1, right: 0 };
    let still = MovementDirection { forward: 0, right: 0 };
    let mut all = nothing();
    all.jump = true;
    all.sprint = true;
    all.aim = true;
    assert_eq!(classify_state(&moving, &all), PlayerState::Jumping);
    all.jump = false;
    assert_eq!(classify_state(&moving, &all), PlayerState::Running);
    assert_eq!(classify_state(&still, &all), PlayerState::Aiming);
    all.sprint = false;
    all.aim = false;
    assert_eq!(classify_state(&moving, &all), PlayerState::Walking);
    assert_eq!(classify_state(&still, &all), PlayerState::Idle);
}

#[test]
fn walk_then_run_then_idle() {
    let mut c = grounded();
    let mut input = nothing();
    input.forward = true;
    let t = c.tick(&input, TICK);
    assert_eq!(c.state, PlayerState::Walking);
    assert_eq!(speed_of(c.state), WALKING_SPEED);
    assert_eq!(t.forward, 28_800);
    assert_eq!(t.right, 0);
    input.sprint = true;
    let t = c.tick(&input, TICK);
    assert_eq!(c.state, PlayerState::Running);
    assert_eq!(speed_of(c.state), RUNNING_SPEED);
    assert_eq!(t.forward, 64_000);
    input.forward = false;
    let t = c.tick(&input, TICK);
    assert_eq!(c.state, PlayerState::Idle);
    assert_eq!((t.forward, t.right), (0, 0));
}

#[test]
fn idle_without_keys_whatever_came_before() {
    let mut c = grounded();
    let mut input = nothing();
    input.right = true;
    input.sprint = true;
    c.tick(&input, TICK);
    assert_eq!(c.state, PlayerState::Running);
    let t = c.tick(&nothing(), TICK);
    assert_eq!(c.state, PlayerState::Idle);
    assert_eq!(c.direction, MovementDirection { forward: 0, right: 0 });
    assert_eq!((t.forward, t.right), (0, 0));
}

#[test]
fn jump_then_fall() {
    let mut c = grounded();
    let mut input = nothing();
    input.jump = true;
    input.forward = true;
    let t = c.tick(&input, TICK);
    assert_eq!(c.state, PlayerState::Jumping);
    assert_eq!((t.forward, t.right), (0, 0));
    assert_eq!(c.vertical_speed.0, -3_000_000);
    assert_eq!(t.up, -48_000);
    c.record_contact(false);
    let t = c.tick(&nothing(), TICK);
    assert_eq!(c.state, PlayerState::Jumping);
    assert_eq!(c.vertical_speed.0, -3_000_000 - 9_800 * 16);
    assert_eq!(t.up, -50_508);
}

#[test]
fn free_fall_is_linear_in_time() {
    let mut c = PlayerController::new();
    c.vertical_speed.0 = CONTACT_SPEED;
    for n in 1..=50i64 {
        c.apply_gravity(TICK);
        assert_eq!(c.vertical_speed.0, -3_000_000 - GRAVITY * (TICK as i64) * n);
    }
    assert_eq!(c.vertical_speed.0, -10_840_000);
}

#[test]
fn airborne_ticks_keep_the_state_but_follow_the_keys() {
    let mut c = grounded();
    let mut input = nothing();
    input.forward = true;
    c.tick(&input, TICK);
    assert_eq!(c.state, PlayerState::Walking);
    c.record_contact(false);
    let mut turn = nothing();
    turn.left = true;
    let t = c.tick(&turn, TICK);
    assert_eq!(c.state, PlayerState::Walking);
    assert_eq!(c.direction, MovementDirection { forward: 0, right: -1 });
    assert_eq!(t, Translation { forward: 0, right: -28_800, up: -50_508 });
}

#[test]
fn grounded_ticks_reset_the_vertical_speed() {
    let mut c = PlayerController::new();
    c.tick(&nothing(), TICK);
    assert_eq!(c.vertical_speed.0, -156_800);
    c.record_contact(true);
    c.tick(&nothing(), TICK);
    assert_eq!(c.vertical_speed.0, CONTACT_SPEED);
}

#[test]
fn aiming_faces_the_camera() {
    let mut c = grounded();
    let mut input = nothing();
    input.aim = true;
    let t = c.tick(&input, TICK);
    assert_eq!(c.state, PlayerState::Aiming);
    assert!(c.faces_camera());
    assert_eq!((t.forward, t.right), (0, 0));
    input.forward = true;
    c.tick(&input, TICK);
    assert_eq!(c.state, PlayerState::Walking);
    assert!(!c.faces_camera());
}

#[test]
fn diagonal_intent_is_not_normalised() {
    let mut c = grounded();
    let mut input = nothing();
    input.back = true;
    input.left = true;
    let t = c.tick(&input, 10);
    assert_eq!(t.forward, -18_000);
    assert_eq!(t.right, -18_000);
}

#[test]
fn vertical_distance_rounds_toward_zero() {
    let mut c = PlayerController::new();
    c.vertical_speed.0 = -1_999;
    assert_eq!(c.translation(1).up, -1);
    c.vertical_speed.0 = 1_999;
    assert_eq!(c.translation(1).up, 1);
}
