//! A deterministic, frame-stepped 2D arena simulation core for a Pong-style
//! game: paddle movement driven by input axes, one-shot delayed ball spawning,
//! ball motion with wall and paddle reflection, and end-wall scoring.
//!
//! The core is decoupled from any rendering or input framework.  A host layer
//! samples the input devices, fills an [`input::InputSampler`] with the axis
//! values of the frame, and calls [`sim::advance`] once per frame with the
//! elapsed time; it then reads the [`sim::RoundState`] back to draw sprites and
//! reacts to the returned [`sim::Event`]s.
//!
//! All quantities are fixed-point integers so that every step is exactly
//! reproducible: lengths and positions are in milliunits (one thousandth of a
//! world unit), velocities in milliunits per second, times in milliseconds,
//! and axis deflections in thousandths of full deflection.  See
//! [`config::SCALE`].

pub mod brave;
pub mod config;
pub mod entities;
pub mod fixed;
pub mod input;
pub mod sim;
pub mod spawn;
