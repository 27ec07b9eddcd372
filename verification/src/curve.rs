//! Decay curves that shape the thrust of a jump over its ascent.

use vstd::prelude::*;
use crate::fixed::{fx_mul, fx_mul_spec, fx_sqrt, fx_sqrt_spec, SCALE};

verus! {

/// How the thrust of a jump falls off as the ascent runs from start
/// (progress 0) to end (progress `SCALE`).
#[derive(Clone, Debug)]
pub enum DecayCurve {
    /// Full thrust through the whole ascent.
    Constant,
    /// Thrust falls in a straight line to zero.
    Linear,
    /// Thrust falls with the square of what is left of the ascent.
    EaseOut,
    /// Thrust falls with the square root of what is left of the ascent.
    Root,
    /// Thrust is read from a table of equal steps; an empty table gives
    /// no thrust.
    Table(Vec<i64>),
}

/// `progress` held to the range from 0 to `SCALE`.
pub open spec fn unit_clamped(progress: i64) -> i64 {
    if progress < 0 {
        0
    } else if progress > SCALE {
        SCALE
    } else {
        progress
    }
}

/// The step of a table of `len > 0` entries that holds `progress`.
pub open spec fn table_index(progress: i64, len: nat) -> int {
    let step = (unit_clamped(progress) * len) / (SCALE as int);
    if step >= len {
        len - 1
    } else {
        step
    }
}

impl DecayCurve {
    /// The factor on the thrust at `progress`.
    pub open spec fn value_at(self, progress: i64) -> i64 {
        let rest = (SCALE - unit_clamped(progress)) as i64;
        match self {
            DecayCurve::Constant => SCALE,
            DecayCurve::Linear => rest,
            DecayCurve::EaseOut => fx_mul_spec(rest, rest),
            DecayCurve::Root => fx_sqrt_spec(rest),
            DecayCurve::Table(samples) => if samples@.len() == 0 {
                0
            } else {
                samples@[table_index(progress, samples@.len())]
            },
        }
    }

    /// Evaluates the curve. Progress outside 0 to `SCALE` counts as the
    /// nearer end.
    pub fn eval(&self, progress: i64) -> (r: i64)
        ensures
            r == self.value_at(progress),
    {
        let p: i64 = if progress < 0 {
            0
        } else if progress > SCALE {
            SCALE
        } else {
            progress
        };
        let rest: i64 = SCALE - p;
        match self {
            DecayCurve::Constant => SCALE,
            DecayCurve::Linear => rest,
            DecayCurve::EaseOut => fx_mul(rest, rest),
            DecayCurve::Root => fx_sqrt(rest),
            DecayCurve::Table(samples) => {
                let len: usize = samples.len();
                if len == 0 {
                    0
                } else {
                    assert(0 <= (p as int) * (len as int) <= 1_000_000 * 0xffff_ffff_ffff_ffff)
                        by (nonlinear_arith)
                        requires
                            0 <= p <= 1_000_000,
                            0 <= len <= 0xffff_ffff_ffff_ffff,
                    ;
                    let wide: u128 = (p as u128) * (len as u128);
                    let step: u128 = wide / 1_000_000;
                    let index: usize = if step >= len as u128 {
                        len - 1
                    } else {
                        step as usize
                    };
                    samples[index]
                }
            },
        }
    }
}

} // verus!
