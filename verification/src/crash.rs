//! When, and how, car a runs into car b.
//!
//! Car a follows car b. Car b brakes at once; car a keeps its speed until its
//! driver reacts, then brakes too. A crash is searched for in three phases, in
//! this order:
//!
//! 1. before car a's driver reacts;
//! 2. after the reaction, while car b is still braking;
//! 3. after the reaction, once car b has come to a stop.
//!
//! In each phase the gap between the cars is a quadratic in time, whose
//! earliest non-negative root is the candidate crash time of that phase. The
//! roots are computed outside this crate in floating point, then turned into
//! spans of nanoseconds; this module decides, phase by phase, whether the
//! candidate is a crash, or which phase to solve next.
use vstd::prelude::*;
use crate::time::MAX_SPAN_NANOS;
use crate::time::span_max;

verus! {

/// How the crash came about.
#[derive(Clone, Copy, Debug, PartialEq, Eq, Structural)]
pub enum CrashType {
    /// Car a ran into car b before its driver reacted.
    CrashBeforeReaction,
    /// Car a started braking, but too late: it hit car b while b was still braking.
    CrashAfterReactionBeforeCarBStops,
    /// Car b came to a stop and car a ran into it.
    CrashAfterReactionAfterCarBStops,
}

/// A crash: when it happens (nanoseconds from the start) and how.
#[derive(Clone, Copy, Debug, PartialEq, Eq, Structural)]
pub struct CrashInfo {
    pub time: u128,
    pub crash_type: CrashType,
}

/// A phase of the crash search: the quadratic that is to be solved next.
#[derive(Clone, Copy, Debug, PartialEq, Eq, Structural)]
pub enum Phase {
    /// Time measured from the start; car a moves at constant speed, car b brakes.
    BeforeReaction,
    /// Time measured from car a's reaction; both cars brake. Where
    /// `car_b_already_stopped` holds, car b stopped before the reaction and
    /// stands still (no speed, no acceleration) at its place at the reaction.
    AfterReactionBeforeCarBStops { car_b_already_stopped: bool },
    /// Time measured from car a's reaction; car b stands at its stopping place.
    AfterReactionAfterCarBStops,
}

/// What the crash search asks for next.
#[derive(Clone, Copy, Debug, PartialEq, Eq, Structural)]
pub enum SearchStep {
    /// Solve the quadratic of this phase and hand back its earliest
    /// non-negative root, as a span, or `None` where it has none.
    Solve(Phase),
    /// The search is over: the crash, or `None` where the cars never crash.
    Finished(Option<CrashInfo>),
}

/// Where the search goes from `phase`, given the earliest root of the phase.
pub open spec fn next_step_spec(
    phase: Phase,
    earliest_root: Option<u128>,
    reaction_time: u128,
    car_b_stop_time: u128,
) -> SearchStep {
    match phase {
        Phase::BeforeReaction => {
            let next = SearchStep::Solve(
                Phase::AfterReactionBeforeCarBStops {
                    car_b_already_stopped: car_b_stop_time < reaction_time,
                },
            );
            match earliest_root {
                Some(t) => if t < reaction_time {
                    SearchStep::Finished(
                        Some(CrashInfo { time: t, crash_type: CrashType::CrashBeforeReaction }),
                    )
                } else {
                    next
                },
                None => next,
            }
        },
        Phase::AfterReactionBeforeCarBStops { .. } => {
            let next = SearchStep::Solve(Phase::AfterReactionAfterCarBStops);
            match earliest_root {
                Some(t) => if reaction_time + t < car_b_stop_time {
                    SearchStep::Finished(
                        Some(
                            CrashInfo {
                                time: (reaction_time + t) as u128,
                                crash_type: CrashType::CrashAfterReactionBeforeCarBStops,
                            },
                        ),
                    )
                } else {
                    next
                },
                None => next,
            }
        },
        Phase::AfterReactionAfterCarBStops => {
            match earliest_root {
                Some(t) => SearchStep::Finished(
                    Some(
                        CrashInfo {
                            time: (reaction_time + t) as u128,
                            crash_type: CrashType::CrashAfterReactionAfterCarBStops,
                        },
                    ),
                ),
                None => SearchStep::Finished(None),
            }
        },
    }
}

/// Adding the root of a phase after the reaction to the reaction time stays a span.
pub open spec fn root_fits(phase: Phase, earliest_root: Option<u128>, reaction_time: u128) -> bool {
    phase !is BeforeReaction && earliest_root is Some ==> reaction_time
        + earliest_root->0 <= MAX_SPAN_NANOS
}

/// The first step of the crash search: solve the phase before the reaction.
pub fn first_step() -> (s: SearchStep)
    ensures
        s == SearchStep::Solve(Phase::BeforeReaction),
{
    SearchStep::Solve(Phase::BeforeReaction)
}

/// Decides, from the earliest non-negative root of the quadratic of `phase`
/// (a span, or `None` where there is none), whether the cars crash in that
/// phase, or which phase to solve next.
///
/// Before the reaction, a root is a crash only where it comes before the
/// reaction. After the reaction, the root counts from the reaction; while car b
/// brakes, it is a crash only where it comes before car b stops; once car b has
/// stopped, any root is a crash.
pub fn next_step(
    phase: Phase,
    earliest_root: Option<u128>,
    reaction_time: u128,
    car_b_stop_time: u128,
) -> (s: SearchStep)
    requires
        root_fits(phase, earliest_root, reaction_time),
    ensures
        s == next_step_spec(phase, earliest_root, reaction_time, car_b_stop_time),
{
    match phase {
        Phase::BeforeReaction => {
            match earliest_root {
                Some(t) => {
                    if t < reaction_time {
                        return SearchStep::Finished(
                            Some(CrashInfo { time: t, crash_type: CrashType::CrashBeforeReaction }),
                        );
                    }
                },
                None => {},
            }
            SearchStep::Solve(
                Phase::AfterReactionBeforeCarBStops {
                    car_b_already_stopped: car_b_stop_time < reaction_time,
                },
            )
        },
        Phase::AfterReactionBeforeCarBStops { .. } => {
            match earliest_root {
                Some(t) => {
                    let time = reaction_time + t;
                    if time < car_b_stop_time {
                        return SearchStep::Finished(
                            Some(
                                CrashInfo {
                                    time,
                                    crash_type: CrashType::CrashAfterReactionBeforeCarBStops,
                                },
                            ),
                        );
                    }
                },
                None => {},
            }
            SearchStep::Solve(Phase::AfterReactionAfterCarBStops)
        },
        Phase::AfterReactionAfterCarBStops => {
            match earliest_root {
                Some(t) => SearchStep::Finished(
                    Some(
                        CrashInfo {
                            time: reaction_time + t,
                            crash_type: CrashType::CrashAfterReactionAfterCarBStops,
                        },
                    ),
                ),
                None => SearchStep::Finished(None),
            }
        },
    }
}

/// The crash, phase by phase, from the earliest root of each phase: the
/// candidate before the reaction counts where it comes before the reaction;
/// otherwise the candidate while car b brakes, shifted by the reaction time,
/// counts where it comes before car b stops; otherwise the candidate after car b
/// stops, shifted by the reaction time; otherwise there is no crash.
pub open spec fn crash_info_spec(
    root_before_reaction: Option<u128>,
    root_while_car_b_brakes: Option<u128>,
    root_after_car_b_stops: Option<u128>,
    reaction_time: u128,
    car_b_stop_time: u128,
) -> Option<CrashInfo> {
    let before: Option<int> = match root_before_reaction {
        Some(t) => if t < reaction_time {
            Some(t as int)
        } else {
            None
        },
        None => None,
    };
    let while_braking: Option<int> = if before is None {
        match root_while_car_b_brakes {
            Some(t) => if reaction_time + t < car_b_stop_time {
                Some(reaction_time + t)
            } else {
                None
            },
            None => None,
        }
    } else {
        None
    };
    let after_stop: Option<int> = if before is None && while_braking is None {
        match root_after_car_b_stops {
            Some(t) => Some(reaction_time + t),
            None => None,
        }
    } else {
        None
    };
    if let Some(t) = before {
        Some(CrashInfo { time: t as u128, crash_type: CrashType::CrashBeforeReaction })
    } else if let Some(t) = while_braking {
        Some(
            CrashInfo { time: t as u128, crash_type: CrashType::CrashAfterReactionBeforeCarBStops },
        )
    } else if let Some(t) = after_stop {
        Some(
            CrashInfo { time: t as u128, crash_type: CrashType::CrashAfterReactionAfterCarBStops },
        )
    } else {
        None
    }
}

/// The outcome of running the search from its first step, where each phase's
/// quadratic has the given earliest root.
pub open spec fn search_outcome(
    root_before_reaction: Option<u128>,
    root_while_car_b_brakes: Option<u128>,
    root_after_car_b_stops: Option<u128>,
    reaction_time: u128,
    car_b_stop_time: u128,
) -> Option<CrashInfo> {
    match next_step_spec(
        Phase::BeforeReaction,
        root_before_reaction,
        reaction_time,
        car_b_stop_time,
    ) {
        SearchStep::Finished(outcome) => outcome,
        SearchStep::Solve(second) => match next_step_spec(
            second,
            root_while_car_b_brakes,
            reaction_time,
            car_b_stop_time,
        ) {
            SearchStep::Finished(outcome) => outcome,
            SearchStep::Solve(third) => match next_step_spec(
                third,
                root_after_car_b_stops,
                reaction_time,
                car_b_stop_time,
            ) {
                SearchStep::Finished(outcome) => outcome,
                SearchStep::Solve(_) => None,
            },
        },
    }
}

/// When the simulation ends: at the crash, or, where there is none, when the
/// later of the two cars stops.
pub open spec fn simulation_end_time_spec(
    crash: Option<CrashInfo>,
    car_a_stop_time: u128,
    car_b_stop_time: u128,
) -> int {
    match crash {
        Some(info) => info.time as int,
        None => span_max(car_a_stop_time as int, car_b_stop_time as int),
    }
}

/// When the simulation ends: at the crash, or, where there is none, when the
/// later of the two cars stops.
pub fn simulation_end_time(crash: Option<CrashInfo>, car_a_stop_time: u128, car_b_stop_time: u128) -> (r: u128)
    ensures
        r == simulation_end_time_spec(crash, car_a_stop_time, car_b_stop_time),
{
    match crash {
        Some(info) => info.time,
        None => {
            if car_a_stop_time >= car_b_stop_time {
                car_a_stop_time
            } else {
                car_b_stop_time
            }
        },
    }
}

/// Whether the crash has happened by `simulation_time`.
pub fn crash_has_happened(simulation_time: u128, crash: Option<CrashInfo>) -> (r: bool)
    ensures
        r == (crash matches Some(info) && simulation_time >= info.time),
{
    match crash {
        Some(info) => simulation_time >= info.time,
        None => false,
    }
}

/// The words that say why the cars crashed.
pub open spec fn crash_reason_spec(crash_type: CrashType) -> Seq<char> {
    match crash_type {
        CrashType::CrashBeforeReaction => "car a crashed into car b before car a reacted"@,
        CrashType::CrashAfterReactionBeforeCarBStops => "car a started braking, but it was too late"@,
        CrashType::CrashAfterReactionAfterCarBStops => "car b came to a stop and car a crashed into it"@,
    }
}

/// The words that say why the cars crashed.
pub fn crash_reason(crash_type: CrashType) -> (r: &'static str)
    ensures
        r@ == crash_reason_spec(crash_type),
{
    match crash_type {
        CrashType::CrashBeforeReaction => "car a crashed into car b before car a reacted",
        CrashType::CrashAfterReactionBeforeCarBStops => "car a started braking, but it was too late",
        CrashType::CrashAfterReactionAfterCarBStops => "car b came to a stop and car a crashed into it",
    }
}

} // verus!
