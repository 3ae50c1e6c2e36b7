use simulation::crash::{CrashInfo, CrashType};
use simulation::motion::{motion_time, motion_timelines, timeline, Timeline};
use simulation::playback::{Message, RunningState, Settings, SimulationState};
use simulation::time::MAX_SPAN_NANOS;

const SEC: u128 = 1_000_000_000;

fn settings() -> Settings {
    Settings {
        car_a_initial_velocity: 30.0f32.to_bits(),
        car_a_braking_acceleration: 6.0f32.to_bits(),
        car_a_reaction_time: 2 * SEC,
        car_b_initial_velocity: 30.0f32.to_bits(),
        car_b_braking_acceleration: 6.9f32.to_bits(),
        initial_distance_between: 90.0f32.to_bits(),
    }
}

#[test]
fn timeline_before_delay_has_no_braking() {
    assert_eq!(
        timeline(SEC, 7 * SEC, 2 * SEC),
        Timeline { moving: true, travel_time: SEC, braking_time: 0 }
    );
}

#[test]
fn timeline_while_braking() {
    assert_eq!(
        timeline(5 * SEC, 7 * SEC, 2 * SEC),
        Timeline { moving: true, travel_time: 5 * SEC, braking_time: 3 * SEC }
    );
}

#[test]
fn timeline_after_stop_is_held() {
    let at_stop = timeline(7 * SEC, 7 * SEC, 2 * SEC);
    assert_eq!(at_stop, Timeline { moving: false, travel_time: 7 * SEC, braking_time: 5 * SEC });
    assert_eq!(timeline(100 * SEC, 7 * SEC, 2 * SEC), at_stop);
    assert_eq!(timeline(u128::MAX, 7 * SEC, 2 * SEC), at_stop);
}

#[test]
fn motion_time_is_held_at_crash() {
    let crash = Some(CrashInfo { time: 4 * SEC, crash_type: CrashType::CrashAfterReactionAfterCarBStops });
    assert_eq!(motion_time(3 * SEC, crash), 3 * SEC);
    assert_eq!(motion_time(4 * SEC, crash), 4 * SEC);
    assert_eq!(motion_time(9 * SEC, crash), 4 * SEC);
    assert_eq!(motion_time(9 * SEC, None), 9 * SEC);
}

#[test]
fn cars_stand_still_after_crash() {
    let crash = Some(CrashInfo { time: 3 * SEC, crash_type: CrashType::CrashAfterReactionBeforeCarBStops });
    let (a, b) = motion_timelines(10 * SEC, crash, 7 * SEC, 4 * SEC, 2 * SEC);
    assert_eq!(a, Timeline { moving: true, travel_time: 3 * SEC, braking_time: SEC });
    assert_eq!(b, Timeline { moving: true, travel_time: 3 * SEC, braking_time: 3 * SEC });
    assert_eq!(motion_timelines(3 * SEC, crash, 7 * SEC, 4 * SEC, 2 * SEC), (a, b));
}

#[test]
fn timelines_without_crash() {
    let (a, b) = motion_timelines(5 * SEC, None, 7 * SEC, 4 * SEC, 2 * SEC);
    assert_eq!(a, Timeline { moving: true, travel_time: 5 * SEC, braking_time: 3 * SEC });
    assert_eq!(b, Timeline { moving: false, travel_time: 4 * SEC, braking_time: 4 * SEC });
}

#[test]
fn new_state_is_paused_at_zero() {
    let state = SimulationState::new(settings());
    assert_eq!(state.simulation_time, 0);
    assert_eq!(state.running_state, RunningState::Paused);
    assert_eq!(state.settings, settings());
    assert!(!state.wants_frames());
}

#[test]
fn setting_messages_replace_settings() {
    let mut state = SimulationState::new(settings());
    state.update(Message::SetCarAInitialVelocity(12.5f32.to_bits()));
    state.update(Message::SetCarABrakingAcceleration(3.0f32.to_bits()));
    state.update(Message::SetCarAReactionTime(SEC / 2));
    state.update(Message::SetCarBInitialVelocity(20.0f32.to_bits()));
    state.update(Message::SetCarBBrakingAcceleration(8.0f32.to_bits()));
    state.update(Message::SetInitialDistanceBetween(55.5f32.to_bits()));
    assert_eq!(f32::from_bits(state.settings.car_a_initial_velocity), 12.5);
    assert_eq!(f32::from_bits(state.settings.car_a_braking_acceleration), 3.0);
    assert_eq!(state.settings.car_a_reaction_time, SEC / 2);
    assert_eq!(f32::from_bits(state.settings.car_b_initial_velocity), 20.0);
    assert_eq!(f32::from_bits(state.settings.car_b_braking_acceleration), 8.0);
    assert_eq!(f32::from_bits(state.settings.initial_distance_between), 55.5);
    assert_eq!(state.simulation_time, 0);
    assert_eq!(state.running_state, RunningState::Paused);
}

#[test]
fn paused_tick_changes_nothing() {
    let mut state = SimulationState::new(settings());
    let before = state;
    state.update(Message::Tick(5 * SEC));
    assert_eq!(state, before);
}

#[test]
fn ticks_add_up_to_elapsed_time() {
    let mut state = SimulationState::new(settings());
    state.update(Message::Start(10 * SEC));
    assert!(state.wants_frames());
    state.update(Message::Tick(10 * SEC + 16_000_000));
    state.update(Message::Tick(10 * SEC + 33_000_000));
    state.update(Message::Tick(11 * SEC));
    assert_eq!(state.simulation_time, SEC);
    assert_eq!(state.running_state, RunningState::Running(11 * SEC));
}

#[test]
fn earlier_tick_adds_nothing() {
    let mut state = SimulationState::new(settings());
    state.update(Message::Start(10 * SEC));
    state.update(Message::Tick(9 * SEC));
    assert_eq!(state.simulation_time, 0);
    assert_eq!(state.running_state, RunningState::Running(9 * SEC));
}

#[test]
fn pause_freezes_and_reset_sets_time() {
    let mut state = SimulationState::new(settings());
    state.update(Message::Start(0));
    state.update(Message::Tick(2 * SEC));
    state.update(Message::Pause);
    state.update(Message::Tick(5 * SEC));
    assert_eq!(state.simulation_time, 2 * SEC);
    assert_eq!(state.running_state, RunningState::Paused);
    state.update(Message::SetTime(0));
    assert_eq!(state.simulation_time, 0);
}

#[test]
fn tick_past_largest_span_is_refused() {
    let mut state = SimulationState::new(settings());
    state.update(Message::SetTime(MAX_SPAN_NANOS - SEC));
    state.update(Message::Start(0));
    assert!(state.accepts(Message::Tick(SEC)));
    assert!(!state.accepts(Message::Tick(SEC + 1)));
    assert!(!state.accepts(Message::SetTime(MAX_SPAN_NANOS + 1)));
    assert!(!state.accepts(Message::SetCarAReactionTime(MAX_SPAN_NANOS + 1)));
    assert!(state.accepts(Message::Pause));
}
