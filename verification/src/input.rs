//! Per-frame input: the axis samples a host hands to the simulation.
//!
//! A sample is `None` when the input source reported no value this frame,
//! which the simulation treats exactly like a centered reading of `0`; the
//! distinction is kept at this boundary for observability.  Sampled values
//! are clamped defensively to `[-AXIS_LIMIT, AXIS_LIMIT]`, since they come
//! from a device outside this crate's control.

use vstd::prelude::*;

use crate::config::AXIS_LIMIT;
use crate::fixed::clamp;
use crate::fixed::clamped;

verus! {

/// A named one-dimensional input channel.
#[derive(Clone, Copy, Debug, PartialEq, Eq, Structural)]
pub enum AxisId {
    /// The axis that slides the left paddle.
    PaddleLeft,
    /// The axis that slides the right paddle.
    PaddleRight,
    /// The axis that roams the character horizontally.
    BraveX,
    /// The axis that roams the character vertically.
    BraveY,
}

/// The axis values of one frame, in thousandths of full deflection, as the
/// host read them from its input devices.
#[derive(Clone, Copy, Debug, PartialEq, Eq, Structural)]
pub struct InputSampler {
    /// Raw reading of the left paddle's axis, if the source reported one.
    pub paddle_left: Option<i64>,
    /// Raw reading of the right paddle's axis, if the source reported one.
    pub paddle_right: Option<i64>,
    /// Raw reading of the character's horizontal axis.
    pub brave_x: Option<i64>,
    /// Raw reading of the character's vertical axis.
    pub brave_y: Option<i64>,
}

/// The mathematical value of an [`InputSampler`].
pub ghost struct InputModel {
    pub paddle_left: Option<int>,
    pub paddle_right: Option<int>,
    pub brave_x: Option<int>,
    pub brave_y: Option<int>,
}

impl View for InputSampler {
    type V = InputModel;

    open spec fn view(&self) -> InputModel {
        InputModel {
            paddle_left: match self.paddle_left {
                Some(v) => Some(v as int),
                None => None,
            },
            paddle_right: match self.paddle_right {
                Some(v) => Some(v as int),
                None => None,
            },
            brave_x: match self.brave_x {
                Some(v) => Some(v as int),
                None => None,
            },
            brave_y: match self.brave_y {
                Some(v) => Some(v as int),
                None => None,
            },
        }
    }
}

impl InputModel {
    /// The raw reading of the given axis.
    pub open spec fn raw(self, axis: AxisId) -> Option<int> {
        match axis {
            AxisId::PaddleLeft => self.paddle_left,
            AxisId::PaddleRight => self.paddle_right,
            AxisId::BraveX => self.brave_x,
            AxisId::BraveY => self.brave_y,
        }
    }

    /// The reading of the given axis after defensive clamping: still `None`
    /// when the source reported no value.
    pub open spec fn sample_of(self, axis: AxisId) -> Option<int> {
        match self.raw(axis) {
            Some(v) => Some(clamped(v, -AXIS_LIMIT as int, AXIS_LIMIT as int)),
            None => None,
        }
    }

    /// The movement the simulation applies for the given axis: the clamped
    /// reading, with a missing reading standing for no movement.
    pub open spec fn movement_of(self, axis: AxisId) -> int {
        match self.sample_of(axis) {
            Some(v) => v,
            None => 0,
        }
    }
}

impl InputSampler {
    /// Packs the raw axis readings of one frame.
    pub fn new(
        paddle_left: Option<i64>,
        paddle_right: Option<i64>,
        brave_x: Option<i64>,
        brave_y: Option<i64>,
    ) -> (s: InputSampler)
        ensures
            s.paddle_left == paddle_left,
            s.paddle_right == paddle_right,
            s.brave_x == brave_x,
            s.brave_y == brave_y,
    {
        InputSampler { paddle_left, paddle_right, brave_x, brave_y }
    }

    /// The clamped reading of the given axis, or `None` if the source
    /// reported no value this frame.
    pub fn sample(&self, axis: AxisId) -> (r: Option<i64>)
        ensures
            r is Some <==> self@.sample_of(axis) is Some,
            r is Some ==> r->0 == self@.sample_of(axis)->0,
    {
        let raw: Option<i64> = match axis {
            AxisId::PaddleLeft => self.paddle_left,
            AxisId::PaddleRight => self.paddle_right,
            AxisId::BraveX => self.brave_x,
            AxisId::BraveY => self.brave_y,
        };
        match raw {
            Some(v) => Some(clamp(v, -AXIS_LIMIT, AXIS_LIMIT)),
            None => None,
        }
    }

    /// The movement to apply for the given axis this frame: the clamped
    /// reading, with a missing reading standing for no movement.
    pub fn movement(&self, axis: AxisId) -> (m: i64)
        ensures
            m == self@.movement_of(axis),
            -AXIS_LIMIT <= m <= AXIS_LIMIT,
    {
        match self.sample(axis) {
            Some(v) => v,
            None => 0,
        }
    }
}

} // verus!
