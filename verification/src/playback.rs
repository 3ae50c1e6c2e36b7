//! The settings and the clock of the simulation, and how messages change them.
//!
//! The settings that are real numbers (speeds, braking rates, the initial
//! distance) are held as the bit patterns of single-precision floating-point
//! numbers: this crate stores them and hands them back, and never computes
//! with them. Spans of time and instants are nanosecond counts; an instant
//! counts from a fixed origin that the caller chooses.
use vstd::prelude::*;
use crate::time::MAX_SPAN_NANOS;
use crate::time::is_span;
use crate::time::span_saturating_sub;

verus! {

/// What the user chose for the two cars.
#[derive(Clone, Copy, Debug, PartialEq, Eq, Structural)]
pub struct Settings {
    /// Car a's speed at the start, in m/s (bit pattern of an `f32`).
    pub car_a_initial_velocity: u32,
    /// How hard car a brakes, in m/s² (bit pattern of an `f32`).
    pub car_a_braking_acceleration: u32,
    /// How long car a's driver takes to react, in nanoseconds.
    pub car_a_reaction_time: u128,
    /// Car b's speed at the start, in m/s (bit pattern of an `f32`).
    pub car_b_initial_velocity: u32,
    /// How hard car b brakes, in m/s² (bit pattern of an `f32`).
    pub car_b_braking_acceleration: u32,
    /// How far car b is ahead of car a at the start, in m (bit pattern of an `f32`).
    pub initial_distance_between: u32,
}

/// Whether the simulated clock runs, and if so, the instant of its last update.
#[derive(Clone, Copy, Debug, PartialEq, Eq, Structural)]
pub enum RunningState {
    Running(u128),
    Paused,
}

/// What the user, or the passing of time, asks of the simulation.
#[derive(Clone, Copy, Debug, PartialEq, Eq, Structural)]
pub enum Message {
    SetCarAInitialVelocity(u32),
    SetCarABrakingAcceleration(u32),
    SetCarAReactionTime(u128),
    SetCarBInitialVelocity(u32),
    SetCarBBrakingAcceleration(u32),
    SetInitialDistanceBetween(u32),
    /// A frame was drawn at this instant.
    Tick(u128),
    /// Start the clock at this instant.
    Start(u128),
    Pause,
    /// Set the simulated time to this span.
    SetTime(u128),
}

/// The settings, the simulated time and the state of the clock.
#[derive(Clone, Copy, Debug, PartialEq, Eq, Structural)]
pub struct SimulationState {
    pub settings: Settings,
    /// How far the simulation has run, in nanoseconds.
    pub simulation_time: u128,
    pub running_state: RunningState,
}

impl SimulationState {
    /// The spans the state holds can be represented.
    pub open spec fn wf(self) -> bool {
        &&& is_span(self.settings.car_a_reaction_time as int)
        &&& is_span(self.simulation_time as int)
    }

    /// The message can be applied: the spans it carries can be represented,
    /// and a tick does not carry the simulated time past the largest span.
    pub open spec fn accepts_spec(self, message: Message) -> bool {
        match message {
            Message::SetCarAReactionTime(time) => is_span(time as int),
            Message::SetTime(time) => is_span(time as int),
            Message::Tick(now) => match self.running_state {
                RunningState::Running(last_updated) => self.simulation_time + span_saturating_sub(
                    now as int,
                    last_updated as int,
                ) <= MAX_SPAN_NANOS,
                RunningState::Paused => true,
            },
            _ => true,
        }
    }

    /// The state after `message`.
    ///
    /// A setting message replaces that setting. A tick while the clock runs
    /// adds the time since the last update (zero where the tick is not later)
    /// to the simulated time and makes the tick the last update; a tick while
    /// paused changes nothing. Starting runs the clock from the given instant;
    /// pausing stops it; setting the time replaces the simulated time.
    pub open spec fn next(self, message: Message) -> SimulationState {
        match message {
            Message::SetCarAInitialVelocity(v) => SimulationState {
                settings: Settings { car_a_initial_velocity: v, ..self.settings },
                ..self
            },
            Message::SetCarABrakingAcceleration(a) => SimulationState {
                settings: Settings { car_a_braking_acceleration: a, ..self.settings },
                ..self
            },
            Message::SetCarAReactionTime(t) => SimulationState {
                settings: Settings { car_a_reaction_time: t, ..self.settings },
                ..self
            },
            Message::SetCarBInitialVelocity(v) => SimulationState {
                settings: Settings { car_b_initial_velocity: v, ..self.settings },
                ..self
            },
            Message::SetCarBBrakingAcceleration(a) => SimulationState {
                settings: Settings { car_b_braking_acceleration: a, ..self.settings },
                ..self
            },
            Message::SetInitialDistanceBetween(d) => SimulationState {
                settings: Settings { initial_distance_between: d, ..self.settings },
                ..self
            },
            Message::Tick(now) => match self.running_state {
                RunningState::Running(last_updated) => SimulationState {
                    simulation_time: (self.simulation_time + span_saturating_sub(
                        now as int,
                        last_updated as int,
                    )) as u128,
                    running_state: RunningState::Running(now),
                    ..self
                },
                RunningState::Paused => self,
            },
            Message::Start(now) => SimulationState {
                running_state: RunningState::Running(now),
                ..self
            },
            Message::Pause => SimulationState { running_state: RunningState::Paused, ..self },
            Message::SetTime(time) => SimulationState { simulation_time: time, ..self },
        }
    }

    /// A paused simulation at time zero with the given settings.
    pub fn new(settings: Settings) -> (r: SimulationState)
        ensures
            r.settings == settings,
            r.simulation_time == 0,
            r.running_state == RunningState::Paused,
    {
        SimulationState { settings, simulation_time: 0, running_state: RunningState::Paused }
    }

    /// Whether `message` can be applied (see `accepts_spec`).
    pub fn accepts(&self, message: Message) -> (r: bool)
        ensures
            r == self.accepts_spec(message),
    {
        match message {
            Message::SetCarAReactionTime(time) => time <= MAX_SPAN_NANOS,
            Message::SetTime(time) => time <= MAX_SPAN_NANOS,
            Message::Tick(now) => match self.running_state {
                RunningState::Running(last_updated) => {
                    let elapsed = if now >= last_updated {
                        now - last_updated
                    } else {
                        0
                    };
                    elapsed <= MAX_SPAN_NANOS && self.simulation_time <= MAX_SPAN_NANOS - elapsed
                },
                RunningState::Paused => true,
            },
            _ => true,
        }
    }

    /// Applies `message` (see `next`).
    pub fn update(&mut self, message: Message)
        requires
            old(self).accepts_spec(message),
        ensures
            *final(self) == old(self).next(message),
    {
        match message {
            Message::SetCarAInitialVelocity(v) => {
                self.settings.car_a_initial_velocity = v;
            },
            Message::SetCarABrakingAcceleration(a) => {
                self.settings.car_a_braking_acceleration = a;
            },
            Message::SetCarAReactionTime(t) => {
                self.settings.car_a_reaction_time = t;
            },
            Message::SetCarBInitialVelocity(v) => {
                self.settings.car_b_initial_velocity = v;
            },
            Message::SetCarBBrakingAcceleration(a) => {
                self.settings.car_b_braking_acceleration = a;
            },
            Message::SetInitialDistanceBetween(d) => {
                self.settings.initial_distance_between = d;
            },
            Message::Tick(now) => match self.running_state {
                RunningState::Running(last_updated) => {
                    let elapsed = if now >= last_updated {
                        now - last_updated
                    } else {
                        0
                    };
                    self.simulation_time = self.simulation_time + elapsed;
                    self.running_state = RunningState::Running(now);
                },
                RunningState::Paused => {},
            },
            Message::Start(now) => {
                self.running_state = RunningState::Running(now);
            },
            Message::Pause => {
                self.running_state = RunningState::Paused;
            },
            Message::SetTime(time) => {
                self.simulation_time = time;
            },
        }
    }

    /// Whether the simulation wants to hear of every frame: while the clock runs.
    pub fn wants_frames(&self) -> (r: bool)
        ensures
            r == (self.running_state is Running),
    {
        match self.running_state {
            RunningState::Running(_) => true,
            RunningState::Paused => false,
        }
    }
}

/// The messages that only change settings.
pub open spec fn is_setting_message(message: Message) -> bool {
    match message {
        Message::SetCarAInitialVelocity(_) | Message::SetCarABrakingAcceleration(_)
        | Message::SetCarAReactionTime(_) | Message::SetCarBInitialVelocity(_)
        | Message::SetCarBBrakingAcceleration(_) | Message::SetInitialDistanceBetween(_) => true,
        _ => false,
    }
}

/// The state after the messages, applied in order.
pub open spec fn apply_all(state: SimulationState, messages: Seq<Message>) -> SimulationState
    decreases messages.len(),
{
    if messages.len() == 0 {
        state
    } else {
        apply_all(state.next(messages[0]), messages.drop_first())
    }
}

/// Each of the messages, applied in order, is accepted by the state it is applied to.
pub open spec fn all_accepted(state: SimulationState, messages: Seq<Message>) -> bool
    decreases messages.len(),
{
    if messages.len() == 0 {
        true
    } else {
        state.accepts_spec(messages[0]) && all_accepted(
            state.next(messages[0]),
            messages.drop_first(),
        )
    }
}

/// One tick message for each instant.
pub open spec fn ticks(instants: Seq<u128>) -> Seq<Message> {
    instants.map_values(|now: u128| Message::Tick(now))
}

} // verus!
