use wanderlust::components::{ControllerSettings, ControllerState};
use wanderlust::curve::DecayCurve;
use wanderlust::jump::{jump, JumpPhase};
use wanderlust::vector::Vec3;

fn v(x: i64, y: i64, z: i64) -> Vec3 {
    Vec3 { x, y, z }
}

fn settings() -> ControllerSettings {
    ControllerSettings {
        acceleration: 50_000_000,
        max_speed: 10_000_000,
        max_acceleration_force: 3_000_000,
        up_vector: v(0, 1_000_000, 0),
        gravity: 25_000_000,
        max_ground_angle: 1_308_996,
        min_float_offset: -300_000,
        max_float_offset: 50_000,
        jump_time: 500_000,
        jump_initial_force: 15_000_000,
        jump_stop_force: 300_000,
        jump_force: 20_000_000,
        jump_decay_function: DecayCurve::Linear,
        jump_skip_ground_check_duration: 400_000,
        force_ground_check: false,
        coyote_time_duration: 200_000,
        jump_buffer_duration: 100_000,
        force_scale: v(1_000_000, 0, 1_000_000),
        float_distance: 1_000_000,
        float_strength: 10_000_000,
        float_dampen: 500_000,
        upright_spring_strength: 10_000_000,
        upright_spring_damping: 500_000,
        extra_jumps: 1,
    }
}

#[test]
fn nothing_happens_without_a_request() {
    let s = settings();
    let mut state = ControllerState::new();
    let before = state;
    let outcome = jump(&mut state, &s, false, true, Vec3::zero(), 20_000);
    assert_eq!(state, before);
    assert!(!outcome.triggered);
    assert_eq!(outcome.phase, JumpPhase::Idle);
    assert_eq!(outcome.force, Vec3::zero());
    assert!(!outcome.cancels_float);
}

#[test]
fn jump_from_the_ground_starts_at_once() {
    let s = settings();
    let mut state = ControllerState { remaining_jumps: 1, coyote_timer: 200_000, ..ControllerState::new() };
    let outcome = jump(&mut state, &s, true, true, v(2_000_000, -3_000_000, 0), 20_000);
    assert!(outcome.triggered);
    assert!(outcome.cancels_float);
    assert_eq!(outcome.force, v(0, 18_000_000, 0));
    assert_eq!(state.jump_timer, 500_000);
    assert_eq!(state.jump_buffer_timer, 0);
    assert_eq!(state.skip_ground_check_timer, 400_000);
    assert_eq!(state.remaining_jumps, 1);
    assert!(state.jump_pressed_last_frame);
}

#[test]
fn launch_cancels_upward_velocity_too() {
    let s = settings();
    let mut state = ControllerState::new();
    let outcome = jump(&mut state, &s, true, true, v(0, 4_000_000, 0), 20_000);
    assert_eq!(outcome.force, v(0, 11_000_000, 0));
}

#[test]
fn holding_the_input_does_not_jump_again() {
    let s = settings();
    let mut state = ControllerState { jump_pressed_last_frame: true, ..ControllerState::new() };
    let outcome = jump(&mut state, &s, true, true, Vec3::zero(), 20_000);
    assert!(!outcome.triggered);
    assert_eq!(state.jump_timer, 0);
}

#[test]
fn coyote_time_lets_a_jump_through_and_costs_no_charge() {
    let s = settings();
    let mut state = ControllerState { remaining_jumps: 1, coyote_timer: 150_000, ..ControllerState::new() };
    let outcome = jump(&mut state, &s, true, false, v(0, -1_000_000, 0), 50_000);
    assert!(outcome.triggered);
    assert_eq!(state.remaining_jumps, 1);
    assert_eq!(state.jump_timer, 500_000);
    assert_eq!(outcome.force, v(0, 16_000_000, 0));
}

#[test]
fn coyote_time_works_without_any_charge() {
    let s = ControllerSettings { extra_jumps: 0, ..settings() };
    let mut state = ControllerState { coyote_timer: 1, ..ControllerState::new() };
    let outcome = jump(&mut state, &s, true, false, Vec3::zero(), 50_000);
    assert!(outcome.triggered);
    assert_eq!(state.remaining_jumps, 0);
}

#[test]
fn jump_in_the_air_costs_one_charge() {
    let s = ControllerSettings { extra_jumps: 2, ..settings() };
    let mut state = ControllerState { remaining_jumps: 2, ..ControllerState::new() };
    let first = jump(&mut state, &s, true, false, Vec3::zero(), 20_000);
    assert!(first.triggered);
    assert_eq!(state.remaining_jumps, 1);
    let held = jump(&mut state, &s, true, false, Vec3::zero(), 20_000);
    assert!(!held.triggered);
    assert_eq!(held.phase, JumpPhase::Ascending);
    let released = jump(&mut state, &s, false, false, Vec3::zero(), 20_000);
    assert!(!released.triggered);
    assert_eq!(released.phase, JumpPhase::Cancelling);
    let second = jump(&mut state, &s, true, false, Vec3::zero(), 20_000);
    assert!(second.triggered);
    assert_eq!(state.remaining_jumps, 0);
}

#[test]
fn no_jump_without_ground_coyote_time_or_charge() {
    let s = settings();
    let mut state = ControllerState::new();
    let outcome = jump(&mut state, &s, true, false, v(0, -2_000_000, 0), 20_000);
    assert!(!outcome.triggered);
    assert_eq!(outcome.phase, JumpPhase::Idle);
    assert_eq!(outcome.force, Vec3::zero());
    assert!(!outcome.cancels_float);
    assert_eq!(state.jump_timer, 0);
    assert_eq!(state.remaining_jumps, 0);
    assert_eq!(state.skip_ground_check_timer, 0);
    assert_eq!(state.jump_buffer_timer, 100_000);
}

#[test]
fn request_in_the_air_is_buffered_and_runs_down() {
    let s = settings();
    let mut state = ControllerState::new();
    jump(&mut state, &s, true, false, Vec3::zero(), 16_000);
    assert_eq!(state.jump_buffer_timer, 100_000);
    jump(&mut state, &s, true, false, Vec3::zero(), 16_000);
    assert_eq!(state.jump_buffer_timer, 84_000);
    jump(&mut state, &s, false, false, Vec3::zero(), 90_000);
    assert_eq!(state.jump_buffer_timer, 0);
}

#[test]
fn buffered_request_fires_on_landing() {
    let s = ControllerSettings { extra_jumps: 0, ..settings() };
    let mut state = ControllerState::new();
    let first = jump(&mut state, &s, true, false, Vec3::zero(), 16_000);
    assert!(!first.triggered);
    assert_eq!(state.jump_buffer_timer, 100_000);
    let second = jump(&mut state, &s, true, false, Vec3::zero(), 16_000);
    assert!(!second.triggered);
    assert_eq!(state.jump_buffer_timer, 84_000);
    let third = jump(&mut state, &s, true, true, v(0, -5_000_000, 0), 16_000);
    assert!(third.triggered);
    assert_eq!(third.force, v(0, 20_000_000, 0));
    assert_eq!(state.jump_buffer_timer, 0);
    assert_eq!(state.jump_timer, 500_000);
}

#[test]
fn buffer_that_ran_out_does_not_fire() {
    let s = ControllerSettings { extra_jumps: 0, ..settings() };
    let mut state = ControllerState::new();
    jump(&mut state, &s, true, false, Vec3::zero(), 16_000);
    jump(&mut state, &s, true, false, Vec3::zero(), 100_000);
    assert_eq!(state.jump_buffer_timer, 0);
    let landed = jump(&mut state, &s, true, true, Vec3::zero(), 16_000);
    assert!(!landed.triggered);
}

#[test]
fn buffer_rests_on_the_ground() {
    let s = settings();
    let mut state = ControllerState {
        jump_buffer_timer: 50_000,
        jump_pressed_last_frame: true,
        ..ControllerState::new()
    };
    let outcome = jump(&mut state, &s, true, true, Vec3::zero(), 16_000);
    assert!(outcome.triggered);
    let mut idle = ControllerState { jump_buffer_timer: 0, ..ControllerState::new() };
    let none = jump(&mut idle, &s, false, true, Vec3::zero(), 16_000);
    assert!(!none.triggered);
    assert_eq!(idle.jump_buffer_timer, 0);
}

#[test]
fn ascent_gives_thrust_along_the_decay_curve() {
    let s = settings();
    let mut state = ControllerState {
        jump_timer: 500_000,
        jump_pressed_last_frame: true,
        ..ControllerState::new()
    };
    let outcome = jump(&mut state, &s, true, false, v(0, 9_000_000, 0), 50_000);
    assert_eq!(outcome.phase, JumpPhase::Ascending);
    assert!(!outcome.triggered);
    assert!(outcome.cancels_float);
    assert_eq!(state.jump_timer, 450_000);
    assert_eq!(outcome.force, v(0, 900_000, 0));
    let next = jump(&mut state, &s, true, false, v(0, 9_000_000, 0), 50_000);
    assert_eq!(state.jump_timer, 400_000);
    assert_eq!(next.force, v(0, 800_000, 0));
}

#[test]
fn ascent_ends_when_its_time_is_over() {
    let s = settings();
    let mut state = ControllerState {
        jump_timer: 30_000,
        jump_pressed_last_frame: true,
        ..ControllerState::new()
    };
    let last = jump(&mut state, &s, true, false, Vec3::zero(), 50_000);
    assert_eq!(last.phase, JumpPhase::Ascending);
    assert_eq!(state.jump_timer, 0);
    assert_eq!(last.force, Vec3::zero());
    let after = jump(&mut state, &s, true, false, Vec3::zero(), 50_000);
    assert_eq!(after.phase, JumpPhase::Idle);
    assert!(!after.cancels_float);
}

#[test]
fn ascent_with_a_constant_curve_keeps_full_thrust() {
    let s = ControllerSettings { jump_decay_function: DecayCurve::Constant, ..settings() };
    let mut state = ControllerState {
        jump_timer: 100_000,
        jump_pressed_last_frame: true,
        ..ControllerState::new()
    };
    let outcome = jump(&mut state, &s, true, false, Vec3::zero(), 50_000);
    assert_eq!(outcome.force, v(0, 1_000_000, 0));
}

#[test]
fn releasing_the_input_cuts_the_ascent_short() {
    let s = settings();
    let mut state = ControllerState {
        jump_timer: 300_000,
        jump_pressed_last_frame: true,
        ..ControllerState::new()
    };
    let outcome = jump(&mut state, &s, false, false, v(1_000_000, 4_000_000, 0), 20_000);
    assert_eq!(outcome.phase, JumpPhase::Cancelling);
    assert!(outcome.cancels_float);
    assert!(!outcome.triggered);
    assert_eq!(state.jump_timer, 0);
    assert_eq!(outcome.force, v(0, -1_200_000, 0));
    assert!(!state.jump_pressed_last_frame);
}

#[test]
fn ascent_rests_on_the_ground() {
    let s = settings();
    let mut state = ControllerState {
        jump_timer: 300_000,
        jump_pressed_last_frame: true,
        ..ControllerState::new()
    };
    let outcome = jump(&mut state, &s, true, true, Vec3::zero(), 20_000);
    assert_eq!(outcome.phase, JumpPhase::Idle);
    assert_eq!(state.jump_timer, 300_000);
    assert_eq!(outcome.force, Vec3::zero());
    assert!(!outcome.cancels_float);
}

#[test]
fn new_jump_during_an_ascent_replaces_the_thrust() {
    let s = settings();
    let mut state = ControllerState {
        jump_timer: 300_000,
        remaining_jumps: 1,
        ..ControllerState::new()
    };
    let outcome = jump(&mut state, &s, true, false, v(0, 2_000_000, 0), 20_000);
    assert_eq!(outcome.phase, JumpPhase::Ascending);
    assert!(outcome.triggered);
    assert_eq!(outcome.force, v(0, 13_000_000, 0));
    assert_eq!(state.jump_timer, 500_000);
    assert_eq!(state.remaining_jumps, 0);
}

#[test]
fn zero_jump_time_gives_a_launch_without_an_ascent() {
    let s = ControllerSettings { jump_time: 0, ..settings() };
    let mut state = ControllerState::new();
    let outcome = jump(&mut state, &s, true, true, Vec3::zero(), 20_000);
    assert!(outcome.triggered);
    assert_eq!(state.jump_timer, 0);
    let next = jump(&mut state, &s, true, false, Vec3::zero(), 20_000);
    assert_eq!(next.phase, JumpPhase::Idle);
}
