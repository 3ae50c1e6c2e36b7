//! Properties that hold across the functions of this crate.
use vstd::prelude::*;
use crate::crash::CrashInfo;
use crate::crash::CrashType;
use crate::crash::Phase;
use crate::crash::SearchStep;
use crate::crash::crash_info_spec;
use crate::crash::next_step_spec;
use crate::crash::search_outcome;
use crate::crash::simulation_end_time_spec;
use crate::motion::motion_timelines_spec;
use crate::motion::timeline_spec;
use crate::motion::motion_time_spec;
use crate::crash::crash_reason_spec;
use crate::playback::Settings;
use crate::playback::RunningState;
use crate::playback::SimulationState;
use crate::playback::Message;
use crate::playback::all_accepted;
use crate::playback::apply_all;
use crate::playback::is_setting_message;
use crate::playback::ticks;
use crate::time::MAX_SPAN_NANOS;

verus! {

/// The crash search asks for the phases in their order and is over by the
/// third: after the phase before the reaction comes the phase while car b
/// brakes (told whether car b stopped before the reaction), after that the
/// phase once car b has stopped, and that phase always ends the search.
pub proof fn search_visits_phases_in_order(
    root_before_reaction: Option<u128>,
    root_while_car_b_brakes: Option<u128>,
    root_after_car_b_stops: Option<u128>,
    car_b_already_stopped: bool,
    reaction_time: u128,
    car_b_stop_time: u128,
)
    ensures
        next_step_spec(Phase::BeforeReaction, root_before_reaction, reaction_time, car_b_stop_time)
            is Finished || next_step_spec(
            Phase::BeforeReaction,
            root_before_reaction,
            reaction_time,
            car_b_stop_time,
        ) == SearchStep::Solve(
            Phase::AfterReactionBeforeCarBStops {
                car_b_already_stopped: car_b_stop_time < reaction_time,
            },
        ),
        next_step_spec(
            Phase::AfterReactionBeforeCarBStops { car_b_already_stopped },
            root_while_car_b_brakes,
            reaction_time,
            car_b_stop_time,
        ) is Finished || next_step_spec(
            Phase::AfterReactionBeforeCarBStops { car_b_already_stopped },
            root_while_car_b_brakes,
            reaction_time,
            car_b_stop_time,
        ) == SearchStep::Solve(Phase::AfterReactionAfterCarBStops),
        next_step_spec(
            Phase::AfterReactionAfterCarBStops,
            root_after_car_b_stops,
            reaction_time,
            car_b_stop_time,
        ) is Finished,
{
}

/// Running the crash search step by step finds the crash that the three
/// phases define together: the first phase whose candidate counts wins.
pub proof fn search_finds_the_first_crash(
    root_before_reaction: Option<u128>,
    root_while_car_b_brakes: Option<u128>,
    root_after_car_b_stops: Option<u128>,
    reaction_time: u128,
    car_b_stop_time: u128,
)
    ensures
        search_outcome(
            root_before_reaction,
            root_while_car_b_brakes,
            root_after_car_b_stops,
            reaction_time,
            car_b_stop_time,
        ) == crash_info_spec(
            root_before_reaction,
            root_while_car_b_brakes,
            root_after_car_b_stops,
            reaction_time,
            car_b_stop_time,
        ),
{
}

/// The crash time fits the kind of crash: a crash before the reaction comes
/// before the reaction time; a crash while car b brakes comes at or after the
/// reaction and before car b stops; a crash after car b stops comes at or
/// after the reaction. The crash time is the root of its phase, counted from
/// the start.
pub proof fn crash_time_fits_its_kind(
    root_before_reaction: Option<u128>,
    root_while_car_b_brakes: Option<u128>,
    root_after_car_b_stops: Option<u128>,
    reaction_time: u128,
    car_b_stop_time: u128,
)
    requires
        root_while_car_b_brakes is Some ==> reaction_time + root_while_car_b_brakes->0
            <= MAX_SPAN_NANOS,
        root_after_car_b_stops is Some ==> reaction_time + root_after_car_b_stops->0
            <= MAX_SPAN_NANOS,
    ensures
        ({
            let crash = crash_info_spec(
                root_before_reaction,
                root_while_car_b_brakes,
                root_after_car_b_stops,
                reaction_time,
                car_b_stop_time,
            );
            crash matches Some(info) ==> match info.crash_type {
                CrashType::CrashBeforeReaction => {
                    &&& info.time < reaction_time
                    &&& root_before_reaction == Some(info.time)
                },
                CrashType::CrashAfterReactionBeforeCarBStops => {
                    &&& reaction_time <= info.time < car_b_stop_time
                    &&& root_while_car_b_brakes is Some
                    &&& info.time == reaction_time + root_while_car_b_brakes->0
                },
                CrashType::CrashAfterReactionAfterCarBStops => {
                    &&& reaction_time <= info.time
                    &&& root_after_car_b_stops is Some
                    &&& info.time == reaction_time + root_after_car_b_stops->0
                },
            }
        }),
{
}

/// A candidate before the reaction that comes before the reaction is always
/// the crash, whatever the later phases hold; and there is no crash only where
/// no phase has a candidate that counts.
pub proof fn earlier_phase_takes_precedence(
    root_before_reaction: Option<u128>,
    root_while_car_b_brakes: Option<u128>,
    root_after_car_b_stops: Option<u128>,
    reaction_time: u128,
    car_b_stop_time: u128,
)
    ensures
        root_before_reaction is Some && root_before_reaction->0 < reaction_time ==> crash_info_spec(
            root_before_reaction,
            root_while_car_b_brakes,
            root_after_car_b_stops,
            reaction_time,
            car_b_stop_time,
        ) == Some(
            CrashInfo {
                time: root_before_reaction->0,
                crash_type: CrashType::CrashBeforeReaction,
            },
        ),
        crash_info_spec(
            root_before_reaction,
            root_while_car_b_brakes,
            root_after_car_b_stops,
            reaction_time,
            car_b_stop_time,
        ) is None <==> {
            &&& !(root_before_reaction matches Some(t) && t < reaction_time)
            &&& !(root_while_car_b_brakes matches Some(t) && reaction_time + t < car_b_stop_time)
            &&& root_after_car_b_stops is None
        },
{
}

/// The simulation ends at the crash; without one, it ends when the later car
/// stops, which is no earlier than either car's stop.
pub proof fn simulation_ends_at_crash_or_last_stop(
    crash: Option<CrashInfo>,
    car_a_stop_time: u128,
    car_b_stop_time: u128,
)
    ensures
        crash matches Some(info) ==> simulation_end_time_spec(
            crash,
            car_a_stop_time,
            car_b_stop_time,
        ) == info.time,
        crash is None ==> {
            let end = simulation_end_time_spec(crash, car_a_stop_time, car_b_stop_time);
            &&& end >= car_a_stop_time
            &&& end >= car_b_stop_time
            &&& (end == car_a_stop_time || end == car_b_stop_time)
        },
{
}

/// From the crash on, the cars stay where they were at the crash; before it,
/// they move as though there were no crash.
pub proof fn cars_stand_still_after_crash(
    time: u128,
    info: CrashInfo,
    car_a_stop_time: u128,
    car_b_stop_time: u128,
    reaction_time: u128,
)
    ensures
        time >= info.time ==> motion_timelines_spec(
            time,
            Some(info),
            car_a_stop_time,
            car_b_stop_time,
            reaction_time,
        ) == motion_timelines_spec(
            info.time,
            None,
            car_a_stop_time,
            car_b_stop_time,
            reaction_time,
        ),
        time < info.time ==> motion_timelines_spec(
            time,
            Some(info),
            car_a_stop_time,
            car_b_stop_time,
            reaction_time,
        ) == motion_timelines_spec(time, None, car_a_stop_time, car_b_stop_time, reaction_time),
{
}

/// A car's braking time is no longer than its travel time, which is no longer
/// than the time asked for nor than its stopping time; while it moves it has
/// travelled all the time asked for; and before its delay is over it has not
/// braked.
pub proof fn timeline_bounds(time: u128, stop_time: u128, delay: u128)
    ensures
        ({
            let line = timeline_spec(time, stop_time, delay);
            &&& line.braking_time <= line.travel_time
            &&& line.travel_time <= time
            &&& line.travel_time <= stop_time
            &&& line.moving ==> line.travel_time == time
            &&& time <= delay ==> line.braking_time == 0
            &&& line.braking_time + delay >= line.travel_time
        }),
{
}

/// Once a car has stopped, it stays stopped: at any two times from its stop on
/// its timeline is the same, and it does not move.
pub proof fn stopped_car_stays_stopped(time1: u128, time2: u128, stop_time: u128, delay: u128)
    requires
        stop_time <= time1,
        stop_time <= time2,
    ensures
        timeline_spec(time1, stop_time, delay) == timeline_spec(time2, stop_time, delay),
        !timeline_spec(time1, stop_time, delay).moving,
{
}

/// Later times never undo travel or braking, and a car that moves at a time
/// moved at every earlier time.
pub proof fn timeline_is_monotone(time1: u128, time2: u128, stop_time: u128, delay: u128)
    requires
        time1 <= time2,
    ensures
        timeline_spec(time1, stop_time, delay).travel_time <= timeline_spec(
            time2,
            stop_time,
            delay,
        ).travel_time,
        timeline_spec(time1, stop_time, delay).braking_time <= timeline_spec(
            time2,
            stop_time,
            delay,
        ).braking_time,
        timeline_spec(time2, stop_time, delay).moving ==> timeline_spec(
            time1,
            stop_time,
            delay,
        ).moving,
{
}

/// A tick while paused changes nothing.
pub proof fn paused_tick_changes_nothing(state: SimulationState, now: u128)
    requires
        state.running_state is Paused,
    ensures
        state.accepts_spec(Message::Tick(now)),
        state.next(Message::Tick(now)) == state,
{
}

/// While paused, any number of ticks changes nothing.
pub proof fn paused_clock_stays_frozen(state: SimulationState, instants: Seq<u128>)
    requires
        state.running_state is Paused,
    ensures
        all_accepted(state, ticks(instants)),
        apply_all(state, ticks(instants)) == state,
    decreases instants.len(),
{
    if instants.len() > 0 {
        assert(ticks(instants).drop_first() =~= ticks(instants.drop_first()));
        paused_clock_stays_frozen(state, instants.drop_first());
    }
}

/// While the clock runs, ticks at instants that never go back advance the
/// simulated time by exactly the time from the last update before them to the
/// last tick, and leave the clock running from the last tick; the settings do
/// not change.
pub proof fn ticks_add_up_to_elapsed_time(state: SimulationState, instants: Seq<u128>)
    requires
        state.running_state is Running,
        instants.len() > 0,
        state.running_state->0 <= instants[0],
        forall|i: int, j: int| 0 <= i <= j < instants.len() ==> instants[i] <= instants[j],
        state.simulation_time + (instants.last() - state.running_state->0) <= MAX_SPAN_NANOS,
    ensures
        all_accepted(state, ticks(instants)),
        apply_all(state, ticks(instants)) == (SimulationState {
            simulation_time: (state.simulation_time + (instants.last()
                - state.running_state->0)) as u128,
            running_state: RunningState::Running(instants.last()),
            ..state
        }),
    decreases instants.len(),
{
    let first = instants[0];
    let rest = instants.drop_first();
    assert(ticks(instants).drop_first() =~= ticks(rest));
    assert(ticks(instants)[0] == Message::Tick(first));
    assert(instants[instants.len() - 1] >= first);
    let after = state.next(Message::Tick(first));
    if rest.len() > 0 {
        assert(rest[0] == instants[1]);
        assert(rest.last() == instants.last());
        ticks_add_up_to_elapsed_time(after, rest);
    }
}

/// Setting messages leave the simulated time and the clock alone; the other
/// messages leave the settings alone.
pub proof fn settings_and_clock_are_independent(state: SimulationState, message: Message)
    ensures
        is_setting_message(message) ==> {
            &&& state.next(message).simulation_time == state.simulation_time
            &&& state.next(message).running_state == state.running_state
        },
        !is_setting_message(message) ==> state.next(message).settings == state.settings,
{
}

/// An accepted message keeps the spans of a well-formed state representable.
pub proof fn accepted_messages_keep_state_well_formed(state: SimulationState, message: Message)
    requires
        state.wf(),
        state.accepts_spec(message),
    ensures
        state.next(message).wf(),
{
}

/// A car's timeline at `time`: it moves exactly while `time` is before its
/// stopping time; it has travelled the time asked for, or its whole stopping
/// time once it has stopped; and it has braked for all of its travel but the
/// whole delay (or not at all while the delay lasts).
pub proof fn timeline_is_travel_less_delay(time: u128, stop_time: u128, delay: u128)
    ensures
        timeline_spec(time, stop_time, delay).moving == (time < stop_time),
        timeline_spec(time, stop_time, delay).travel_time == (if time <= stop_time {
            time
        } else {
            stop_time
        }),
        timeline_spec(time, stop_time, delay).braking_time + delay == timeline_spec(
            time,
            stop_time,
            delay,
        ).travel_time || (timeline_spec(time, stop_time, delay).braking_time == 0
            && timeline_spec(time, stop_time, delay).travel_time <= delay),
{
}

/// Delaying the braking by `extra` more shortens the braking by exactly
/// `extra`, as long as the car has travelled past the longer delay; without a
/// delay a car brakes for all of its travel.
pub proof fn longer_delay_brakes_less(time: u128, stop_time: u128, delay: u128, extra: u128)
    requires
        delay + extra <= u128::MAX,
    ensures
        timeline_spec(time, stop_time, 0).braking_time == timeline_spec(
            time,
            stop_time,
            0,
        ).travel_time,
        timeline_spec(time, stop_time, (delay + extra) as u128).travel_time >= delay + extra
            ==> timeline_spec(time, stop_time, delay).braking_time == timeline_spec(
            time,
            stop_time,
            (delay + extra) as u128,
        ).braking_time + extra,
{
}

/// The time the cars are shown at: the time asked for where there is no crash
/// or the crash is still to come, and the crash time from the crash on.
pub proof fn cars_are_shown_at_asked_time_until_crash(time: u128, info: CrashInfo)
    ensures
        motion_time_spec(time, None) == time,
        time < info.time ==> motion_time_spec(time, Some(info)) == time,
        time >= info.time ==> motion_time_spec(time, Some(info)) == info.time,
        motion_time_spec(time, Some(info)) <= time,
        motion_time_spec(time, Some(info)) <= info.time,
{
}

/// Car a's timeline depends only on car a's stopping time and the reaction
/// time, car b's only on car b's stopping time (car b brakes from the start);
/// both are taken at the time the cars are shown at.
pub proof fn each_car_has_its_own_timeline(
    time: u128,
    crash: Option<CrashInfo>,
    car_a_stop_time: u128,
    car_b_stop_time: u128,
    reaction_time: u128,
    other_car_a_stop_time: u128,
    other_car_b_stop_time: u128,
    other_reaction_time: u128,
)
    ensures
        motion_timelines_spec(time, crash, car_a_stop_time, car_b_stop_time, reaction_time).1
            == motion_timelines_spec(
            time,
            crash,
            other_car_a_stop_time,
            car_b_stop_time,
            other_reaction_time,
        ).1,
        motion_timelines_spec(time, crash, car_a_stop_time, car_b_stop_time, reaction_time).0
            == motion_timelines_spec(
            time,
            crash,
            car_a_stop_time,
            other_car_b_stop_time,
            reaction_time,
        ).0,
        motion_timelines_spec(time, crash, car_a_stop_time, car_b_stop_time, reaction_time).0
            == timeline_spec(motion_time_spec(time, crash), car_a_stop_time, reaction_time),
        motion_timelines_spec(time, crash, car_a_stop_time, car_b_stop_time, reaction_time).1
            == timeline_spec(motion_time_spec(time, crash), car_b_stop_time, 0),
        crash is None ==> {
            let b = motion_timelines_spec(
                time,
                crash,
                car_a_stop_time,
                car_b_stop_time,
                reaction_time,
            ).1;
            &&& b.moving == (time < car_b_stop_time)
            &&& b.travel_time == (if time <= car_b_stop_time {
                time
            } else {
                car_b_stop_time
            })
            &&& b.braking_time == b.travel_time
        },
{
}

/// Each setting message replaces its own setting and nothing else: the other
/// settings, the simulated time and the clock stay as they were.
pub proof fn setting_message_changes_only_its_setting(state: SimulationState, bits: u32, span: u128)
    ensures
        state.next(Message::SetCarAInitialVelocity(bits)) == (SimulationState {
            settings: Settings { car_a_initial_velocity: bits, ..state.settings },
            ..state
        }),
        state.next(Message::SetCarABrakingAcceleration(bits)) == (SimulationState {
            settings: Settings { car_a_braking_acceleration: bits, ..state.settings },
            ..state
        }),
        state.next(Message::SetCarAReactionTime(span)) == (SimulationState {
            settings: Settings { car_a_reaction_time: span, ..state.settings },
            ..state
        }),
        state.next(Message::SetCarBInitialVelocity(bits)) == (SimulationState {
            settings: Settings { car_b_initial_velocity: bits, ..state.settings },
            ..state
        }),
        state.next(Message::SetCarBBrakingAcceleration(bits)) == (SimulationState {
            settings: Settings { car_b_braking_acceleration: bits, ..state.settings },
            ..state
        }),
        state.next(Message::SetInitialDistanceBetween(bits)) == (SimulationState {
            settings: Settings { initial_distance_between: bits, ..state.settings },
            ..state
        }),
        state.next(Message::SetCarAInitialVelocity(bits)).settings.car_b_initial_velocity
            == state.settings.car_b_initial_velocity,
        state.next(Message::SetCarBInitialVelocity(bits)).settings.car_a_initial_velocity
            == state.settings.car_a_initial_velocity,
        state.next(Message::SetCarABrakingAcceleration(bits)).settings.car_b_braking_acceleration
            == state.settings.car_b_braking_acceleration,
        state.next(Message::SetCarBBrakingAcceleration(bits)).settings.car_a_braking_acceleration
            == state.settings.car_a_braking_acceleration,
{
}

/// The clock messages: starting runs the clock from the given instant,
/// pausing stops it, setting the time replaces the simulated time with any
/// span, and a tick while running adds the time since the last update (none
/// where the tick is not later) and becomes the last update. None of them
/// touches the settings.
pub proof fn clock_messages_do_what_they_say(state: SimulationState, now: u128, span: u128)
    ensures
        state.next(Message::Start(now)) == (SimulationState {
            running_state: RunningState::Running(now),
            ..state
        }),
        state.next(Message::Pause) == (SimulationState {
            running_state: RunningState::Paused,
            ..state
        }),
        state.next(Message::SetTime(span)) == (SimulationState { simulation_time: span, ..state }),
        state.running_state is Running && state.running_state->0 <= now ==> state.next(
            Message::Tick(now),
        ) == (SimulationState {
            simulation_time: (state.simulation_time + (now - state.running_state->0)) as u128,
            running_state: RunningState::Running(now),
            ..state
        }),
        state.running_state is Running && now < state.running_state->0 ==> state.next(
            Message::Tick(now),
        ) == (SimulationState { running_state: RunningState::Running(now), ..state }),
{
}

/// Which messages can be applied: any setting of a real-valued setting,
/// starting and pausing always; setting the time, or the reaction time, to any
/// representable span, whatever the current state (so the time can be set
/// back, to zero or otherwise); a tick while paused always; a tick while
/// running exactly when the simulated time plus the time since the last update
/// stays representable.
pub proof fn which_messages_are_accepted(state: SimulationState, bits: u32, now: u128, span: u128)
    ensures
        state.accepts_spec(Message::SetTime(span)) <==> span <= MAX_SPAN_NANOS,
        state.accepts_spec(Message::SetCarAReactionTime(span)) <==> span <= MAX_SPAN_NANOS,
        state.accepts_spec(Message::SetTime(0)),
        state.accepts_spec(Message::SetCarAInitialVelocity(bits)),
        state.accepts_spec(Message::SetCarABrakingAcceleration(bits)),
        state.accepts_spec(Message::SetCarBInitialVelocity(bits)),
        state.accepts_spec(Message::SetCarBBrakingAcceleration(bits)),
        state.accepts_spec(Message::SetInitialDistanceBetween(bits)),
        state.accepts_spec(Message::Start(now)),
        state.accepts_spec(Message::Pause),
        state.running_state is Paused ==> state.accepts_spec(Message::Tick(now)),
        state.running_state is Running ==> (state.accepts_spec(Message::Tick(now)) <==> (if now
            >= state.running_state->0 {
            state.simulation_time + (now - state.running_state->0)
        } else {
            state.simulation_time as int
        }) <= MAX_SPAN_NANOS),
{
}

/// Each search step, told the earliest root of its phase: before the reaction a
/// root that comes before the reaction is the crash, otherwise the phase while
/// car b brakes comes next (told whether car b stopped before the reaction);
/// while car b brakes, the root counted from the reaction is the crash where it
/// comes before car b stops, otherwise the phase after car b stops comes next;
/// after car b stops, a root counted from the reaction is the crash, and with
/// no root there is none.
pub proof fn each_search_step_decides(
    root: Option<u128>,
    car_b_already_stopped: bool,
    reaction_time: u128,
    car_b_stop_time: u128,
)
    requires
        root is Some ==> reaction_time + root->0 <= MAX_SPAN_NANOS,
    ensures
        root is Some && root->0 < reaction_time ==> next_step_spec(
            Phase::BeforeReaction,
            root,
            reaction_time,
            car_b_stop_time,
        ) == SearchStep::Finished(
            Some(CrashInfo { time: root->0, crash_type: CrashType::CrashBeforeReaction }),
        ),
        !(root is Some && root->0 < reaction_time) ==> next_step_spec(
            Phase::BeforeReaction,
            root,
            reaction_time,
            car_b_stop_time,
        ) == SearchStep::Solve(
            Phase::AfterReactionBeforeCarBStops {
                car_b_already_stopped: car_b_stop_time < reaction_time,
            },
        ),
        root is Some && reaction_time + root->0 < car_b_stop_time ==> next_step_spec(
            Phase::AfterReactionBeforeCarBStops { car_b_already_stopped },
            root,
            reaction_time,
            car_b_stop_time,
        ) == SearchStep::Finished(
            Some(
                CrashInfo {
                    time: (reaction_time + root->0) as u128,
                    crash_type: CrashType::CrashAfterReactionBeforeCarBStops,
                },
            ),
        ),
        !(root is Some && reaction_time + root->0 < car_b_stop_time) ==> next_step_spec(
            Phase::AfterReactionBeforeCarBStops { car_b_already_stopped },
            root,
            reaction_time,
            car_b_stop_time,
        ) == SearchStep::Solve(Phase::AfterReactionAfterCarBStops),
        root is Some ==> next_step_spec(
            Phase::AfterReactionAfterCarBStops,
            root,
            reaction_time,
            car_b_stop_time,
        ) == SearchStep::Finished(
            Some(
                CrashInfo {
                    time: (reaction_time + root->0) as u128,
                    crash_type: CrashType::CrashAfterReactionAfterCarBStops,
                },
            ),
        ),
        root is None ==> next_step_spec(
            Phase::AfterReactionAfterCarBStops,
            root,
            reaction_time,
            car_b_stop_time,
        ) == SearchStep::Finished(None),
{
}

/// The reasons given for the three kinds of crash.
pub proof fn crash_reasons_name_the_kind()
    ensures
        crash_reason_spec(CrashType::CrashBeforeReaction)
            == "car a crashed into car b before car a reacted"@,
        crash_reason_spec(CrashType::CrashAfterReactionBeforeCarBStops)
            == "car a started braking, but it was too late"@,
        crash_reason_spec(CrashType::CrashAfterReactionAfterCarBStops)
            == "car b came to a stop and car a crashed into it"@,
{
}

} // verus!
