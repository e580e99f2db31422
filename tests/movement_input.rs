use imm_sim::input::{
    axis_of, DigitalInput, KeyboardInputAcc, KEY_A, KEY_CONTROL_LEFT, KEY_D, KEY_S, KEY_SPACE, KEY_W,
};
use imm_sim::movement::{
    key_axes, read_grounded_movement_inputs, top_collider_is_sensor, AirborneAction, MovementKeys,
    PlayerState, Posture, StandingAction, VelocityEffect,
};

#[test]
fn edges_outrank_held_keys() {
    let mut acc = KeyboardInputAcc::new();
    acc.record(KEY_W, DigitalInput::StartPress);
    acc.record(KEY_W, DigitalInput::ContinuePress);
    assert_eq!(acc.get(KEY_W), DigitalInput::StartPress);
    acc.record(KEY_W, DigitalInput::ReleasePress);
    assert_eq!(acc.get(KEY_W), DigitalInput::ReleasePress);
    acc.record(KEY_A, DigitalInput::ContinuePress);
    assert_eq!(acc.get(KEY_A), DigitalInput::ContinuePress);
    assert_eq!(acc.get(KEY_D), DigitalInput::NotPressed);
}

#[test]
fn sample_axes_and_buttons() {
    let mut acc = KeyboardInputAcc::new();
    acc.record(KEY_D, DigitalInput::ContinuePress);
    acc.record(KEY_W, DigitalInput::StartPress);
    acc.record(KEY_S, DigitalInput::ReleasePress);
    acc.record(KEY_SPACE, DigitalInput::StartPress);
    let s = acc.send_input();
    assert_eq!(s.strafe, 1);
    assert_eq!(s.walk, 1);
    assert_eq!(s.jump, DigitalInput::StartPress);
    assert_eq!(s.crouch, DigitalInput::NotPressed);
    assert_eq!(acc.get(KEY_D), DigitalInput::NotPressed);
    acc.record(KEY_A, DigitalInput::ContinuePress);
    acc.record(KEY_D, DigitalInput::ContinuePress);
    acc.record(KEY_CONTROL_LEFT, DigitalInput::ContinuePress);
    let s = acc.sample();
    assert_eq!(s.strafe, 0);
    assert_eq!(s.walk, 0);
    assert_eq!(s.crouch, DigitalInput::ContinuePress);
    assert_eq!(axis_of(true, false), -1);
}

#[test]
fn crouch_enters_and_blocked_head_keeps_it() {
    let mut p = Posture::new();
    assert_eq!(p.execute_standing_action(StandingAction::Run), VelocityEffect::Unchanged);
    p.handle_grounded(true);
    assert_eq!(p.state, PlayerState::Standing);
    assert_eq!(p.execute_standing_action(StandingAction::Run), VelocityEffect::Accelerate);
    assert_eq!(p.execute_standing_action(StandingAction::Crouch { slope_permits: false }), VelocityEffect::Unchanged);
    assert_eq!(p.state, PlayerState::Standing);
    p.execute_standing_action(StandingAction::Crouch { slope_permits: true });
    assert_eq!(p.state, PlayerState::Crouching);
    assert!(p.sensor());
    p.track_head_blockage(true);
    assert!(p.head_blocked);
    p.execute_standing_action(StandingAction::Uncrouch);
    assert_eq!(p.state, PlayerState::Crouching);
    p.track_head_blockage(false);
    p.execute_standing_action(StandingAction::Uncrouch);
    assert_eq!(p.state, PlayerState::Standing);
    assert!(!p.sensor());
    assert_eq!(p.execute_standing_action(StandingAction::Jump), VelocityEffect::Jump);
}

#[test]
fn head_is_not_blocked_while_standing() {
    let mut p = Posture { state: PlayerState::Standing, head_blocked: false };
    p.track_head_blockage(true);
    assert!(!p.head_blocked);
}

#[test]
fn leaving_ground_and_landing() {
    let mut p = Posture { state: PlayerState::Crouching, head_blocked: false };
    p.handle_grounded(false);
    assert_eq!(p.state, PlayerState::Airborne);
    assert_eq!(p.execute_airborne_action(AirborneAction::Move), VelocityEffect::Accelerate);
    p.handle_grounded(true);
    assert_eq!(p.state, PlayerState::Standing);
    assert_eq!(p.execute_airborne_action(AirborneAction::Move), VelocityEffect::Unchanged);
    assert!(!top_collider_is_sensor(PlayerState::Sliding));
}

#[test]
fn grounded_keys_raise_actions_in_order() {
    let keys = MovementKeys { forward: true, back: false, left: true, right: false, jump: true, crouch: false };
    assert_eq!(key_axes(keys), (-1, 1));
    let actions = read_grounded_movement_inputs(keys, true, true);
    assert_eq!(actions, vec![StandingAction::Run, StandingAction::Jump, StandingAction::Uncrouch]);
    let idle = MovementKeys { forward: false, back: false, left: false, right: false, jump: false, crouch: true };
    let actions = read_grounded_movement_inputs(idle, false, true);
    assert_eq!(actions, vec![StandingAction::Crouch { slope_permits: true }]);
}
