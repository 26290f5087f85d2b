//! The movement system of the axis-driven roaming character: each
//! [`Brave`] component binds one input axis and slides the character along
//! it, clamped inside the arena.

use vstd::prelude::*;

use crate::config::ArenaConfig;
use crate::config::ConfigModel;
use crate::config::DT_LIMIT;
use crate::config::SCALE;
use crate::entities::Brave;
use crate::entities::BraveModel;
use crate::entities::Position;
use crate::fixed::clamp;
use crate::fixed::clamped;
use crate::fixed::paddle_delta;
use crate::fixed::scaled;
use crate::input::AxisId;
use crate::input::InputModel;
use crate::input::InputSampler;

verus! {

/// The input axis a roaming component reads.
pub open spec fn axis_of(p: Position) -> AxisId {
    match p {
        Position::TransX => AxisId::BraveX,
        Position::TransY => AxisId::BraveY,
    }
}

/// The character after one frame of roaming: its bound coordinate slides by
/// `mv * paddle_speed * dt`, at the fixed-point scale, and is clamped inside
/// the arena; the other coordinate is untouched.
pub open spec fn brave_moved(b: BraveModel, inp: InputModel, dt: int, c: ConfigModel) -> BraveModel {
    let mv = inp.movement_of(axis_of(b.position));
    let delta = scaled(mv * c.paddle_speed, dt, SCALE * SCALE);
    match b.position {
        Position::TransX => BraveModel {
            x: clamped(b.x + delta, b.width / 2, c.arena_width - b.width / 2),
            ..b
        },
        Position::TransY => BraveModel {
            y: clamped(b.y + delta, b.height / 2, c.arena_height - b.height / 2),
            ..b
        },
    }
}

/// The observable movement of the frame: the axis and its clamped reading,
/// reported only when the axis was read and deflected — a missing or
/// centered reading reports nothing.
pub open spec fn observed_of(b: BraveModel, inp: InputModel) -> Option<(Position, int)> {
    match inp.sample_of(axis_of(b.position)) {
        Some(v) => if v != 0 {
            Some((b.position, v))
        } else {
            None
        },
        None => None,
    }
}

/// Slides roaming-character components along their bound axes, one call per
/// component and frame.
pub struct BraveSystem;

impl BraveSystem {
    /// Applies one frame of roaming to a component: reads its bound axis,
    /// slides it, and reports the observable movement, if any.
    pub fn run(
        brave: &mut Brave,
        input: &InputSampler,
        dt: i64,
        config: &ArenaConfig,
    ) -> (observed: Option<(Position, i64)>)
        requires
            config@.valid(),
            old(brave)@.wf(config@),
            0 <= dt <= DT_LIMIT,
        ensures
            final(brave)@ == brave_moved(old(brave)@, input@, dt as int, config@),
            final(brave)@.wf(config@),
            observed is Some <==> observed_of(old(brave)@, input@) is Some,
            observed matches Some(o) ==> o.0 == (observed_of(old(brave)@, input@)->0).0 && o.1
                == (observed_of(old(brave)@, input@)->0).1,
    {
        let axis = match brave.position {
            Position::TransX => AxisId::BraveX,
            Position::TransY => AxisId::BraveY,
        };
        let sampled = input.sample(axis);
        let mv = match sampled {
            Some(v) => v,
            None => 0,
        };
        let delta = paddle_delta(mv, config.paddle_speed, dt);
        match brave.position {
            Position::TransX => {
                let lo = brave.width / 2;
                let hi = config.arena_width - brave.width / 2;
                brave.x = clamp(brave.x + delta, lo, hi);
            },
            Position::TransY => {
                let lo = brave.height / 2;
                let hi = config.arena_height - brave.height / 2;
                brave.y = clamp(brave.y + delta, lo, hi);
            },
        }
        match sampled {
            Some(v) => if v != 0 {
                Some((brave.position, v))
            } else {
                None
            },
            None => None,
        }
    }
}

} // verus!
