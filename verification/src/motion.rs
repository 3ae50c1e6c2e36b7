//! Which spans of time the equations of motion of each car use.
//!
//! A car that starts braking `delay` after the start, and stops at `stop_time`,
//! is at time `t` described by three things: whether it still moves
//! (`t < stop_time`), how long it has travelled (`min(t, stop_time)`), and how
//! long of that it has braked (the travel time less the delay, or zero). Its
//! acceleration, speed and position follow from these in floating point,
//! outside this crate: while it moves, its acceleration is minus its braking
//! rate and its speed the initial speed less the rate times the braking time;
//! once stopped, both are zero; its position is its starting place plus the
//! initial speed times the travel time, less half the rate times the square of
//! the braking time.
//!
//! Car a brakes after the reaction time; car b brakes from the start. After a
//! crash the cars do not move on: at any later time they stand where they were
//! at the crash.
use vstd::prelude::*;
use crate::crash::CrashInfo;
use crate::time::span_min;
use crate::time::span_saturating_sub;

verus! {

/// The spans of time that describe one car at one time.
#[derive(Clone, Copy, Debug, PartialEq, Eq, Structural)]
pub struct Timeline {
    /// The car has not stopped yet.
    pub moving: bool,
    /// How long the car has travelled: the time, or its stopping time where
    /// that came first.
    pub travel_time: u128,
    /// How long of its travel the car has braked.
    pub braking_time: u128,
}

/// The timeline of a car that starts braking `delay` after the start and stops
/// at `stop_time`, at `time`.
pub open spec fn timeline_spec(time: u128, stop_time: u128, delay: u128) -> Timeline {
    let travel = span_min(time as int, stop_time as int);
    Timeline {
        moving: time < stop_time,
        travel_time: travel as u128,
        braking_time: span_saturating_sub(travel, delay as int) as u128,
    }
}

/// The timeline of a car that starts braking `delay` after the start and stops
/// at `stop_time`, at `time`.
pub fn timeline(time: u128, stop_time: u128, delay: u128) -> (r: Timeline)
    ensures
        r == timeline_spec(time, stop_time, delay),
{
    let travel_time = if time <= stop_time {
        time
    } else {
        stop_time
    };
    let braking_time = if travel_time >= delay {
        travel_time - delay
    } else {
        0
    };
    Timeline { moving: time < stop_time, travel_time, braking_time }
}

/// The time at which the cars are looked at when `time` is asked for: `time`
/// itself, or the crash time where the crash came first.
pub open spec fn motion_time_spec(time: u128, crash: Option<CrashInfo>) -> u128 {
    match crash {
        Some(info) => if time < info.time {
            time
        } else {
            info.time
        },
        None => time,
    }
}

/// The time at which the cars are looked at when `time` is asked for: `time`
/// itself, or the crash time where the crash came first.
pub fn motion_time(time: u128, crash: Option<CrashInfo>) -> (r: u128)
    ensures
        r == motion_time_spec(time, crash),
{
    match crash {
        Some(info) => {
            if time < info.time {
                time
            } else {
                info.time
            }
        },
        None => time,
    }
}

/// The timelines of car a and car b at `time`.
pub open spec fn motion_timelines_spec(
    time: u128,
    crash: Option<CrashInfo>,
    car_a_stop_time: u128,
    car_b_stop_time: u128,
    reaction_time: u128,
) -> (Timeline, Timeline) {
    let t = motion_time_spec(time, crash);
    (timeline_spec(t, car_a_stop_time, reaction_time), timeline_spec(t, car_b_stop_time, 0))
}

/// The timelines of car a (which brakes after `reaction_time` and stops at
/// `car_a_stop_time`) and car b (which brakes from the start and stops at
/// `car_b_stop_time`) at `time`, the cars being held where they were at the
/// crash, if any, from the crash on.
pub fn motion_timelines(
    time: u128,
    crash: Option<CrashInfo>,
    car_a_stop_time: u128,
    car_b_stop_time: u128,
    reaction_time: u128,
) -> (r: (Timeline, Timeline))
    ensures
        r == motion_timelines_spec(time, crash, car_a_stop_time, car_b_stop_time, reaction_time),
{
    let t = motion_time(time, crash);
    (timeline(t, car_a_stop_time, reaction_time), timeline(t, car_b_stop_time, 0))
}

} // verus!
