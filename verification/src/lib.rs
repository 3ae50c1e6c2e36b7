//! The decisions of a following-distance simulation: two cars on one lane, the
//! one behind reacting late to the one in front braking.
//!
//! - `time`: spans of simulated time, in nanoseconds.
//! - `crash`: the phase-by-phase search for a crash, and what follows from it.
//! - `motion`: which spans of time the equations of motion of each car use.
//! - `playback`: the settings and the clock of the simulation, and how messages
//!   change them.
//! - `laws`: properties that hold across these functions.
pub mod time;
pub mod crash;
pub mod motion;
pub mod playback;
pub mod laws;
