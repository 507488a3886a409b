//! Packet loss classifiers for congestion control.
//!
//! Packet loss in networks happens both due to congestion and due to wireless
//! transmission errors, and an adaptive transport reacts differently to the
//! two causes. This crate provides five online classifiers ([`MBiaz`],
//! [`Spike`], [`Trend`], [`ZigZag`] and [`ZBS`]) that decide, per loss event,
//! which cause is the more likely one. Each consumes scalar timing
//! observations (inter-arrival times and relative one-way trip times) and
//! returns a two-valued [`PacketLoss`] verdict while updating its internal
//! statistics for future calls. [`ZBS`] is a hybrid that owns one instance
//! each of [`MBiaz`], [`Spike`] and [`ZigZag`] and routes every call to the
//! sub-classifier best suited to its current estimate of the network
//! topology.
//!
//! All timing quantities are fixed-point numbers: an `i64` value `v` stands
//! for the real quantity `v / SCALE`, that is, with [`SCALE`] of `1_000_000`
//! the value carries six decimal digits of fraction. Threshold comparisons
//! are computed exactly over wide integers; only the exponential smoothing
//! updates round, and they round toward negative infinity, exactly as the
//! contracts state.

use vstd::prelude::*;

mod mbiaz;
mod spike;
mod trend;
mod zbs;
mod zigzag;

pub use mbiaz::MBiaz;
pub use spike::Spike;
pub use spike::SpikeState;
pub use trend::Trend;
pub use zbs::ZBS;
pub use zigzag::ZigZag;

verus! {

/// The classified reason of packet loss.
#[derive(Debug, PartialEq, Eq, Structural, Clone, Copy)]
pub enum PacketLoss {
    /// Packet loss due to congestion.
    Congestion,
    /// Packet loss due to wireless error.
    Wireless,
}

/// The reason a constructor or a `classify` call was refused.
///
/// Both stand for fatal caller mistakes: there is no recovery path, and a
/// refused call leaves the classifier exactly as it was.
#[derive(Debug, PartialEq, Eq, Structural, Clone, Copy)]
pub enum ClassifierError {
    /// Constructor parameters violate the classifier's configuration invariant.
    InvalidConfiguration,
    /// A `classify` argument violates the call's documented precondition.
    InvalidArgument,
}

/// Number of fixed-point units per whole unit: all timing quantities and all
/// configuration coefficients carry six decimal digits of fraction.
pub const SCALE: i64 = 1_000_000;

/// Largest magnitude of an observation (inter-arrival time or ROTT) that the
/// smoothing classifiers accept, in fixed-point units. The bound keeps every
/// intermediate product of the update formulas inside the machine integers.
pub const MAX_OBS: i64 = 1_000_000_000_000;

/// Largest value the smoothed squared-inter-arrival statistic of `ZBS` can
/// take: `MAX_OBS * MAX_OBS / SCALE`.
pub const MAX_T_AVG: i64 = 1_000_000_000_000_000_000;

/// The running minimum after one more observation: the first observation
/// always takes the place of an unset minimum.
pub open spec fn running_min(cur: Option<i64>, obs: i64) -> i64 {
    match cur {
        Some(m) => if obs < m { obs } else { m },
        None => obs,
    }
}

/// Absolute value of a mathematical integer.
pub open spec fn abs_i(x: int) -> int {
    if x < 0 { -x } else { x }
}

/// Folds one observation into a running minimum.
pub fn min_observe(cur: Option<i64>, obs: i64) -> (r: i64)
    ensures
        r == running_min(cur, obs),
{
    match cur {
        Some(m) => if obs < m { obs } else { m },
        None => obs,
    }
}

/// The product of two non-negative values stays under the product of their
/// bounds.
pub proof fn lemma_mul_le(x: int, y: int, xb: int, yb: int)
    by (nonlinear_arith)
    requires
        0 <= x <= xb,
        0 <= y <= yb,
    ensures
        0 <= x * y <= xb * yb,
{
}

/// The product of two bounded values is bounded by the product of the bounds
/// on their magnitudes.
pub proof fn lemma_mul_bound(x: int, y: int, xb: int, yb: int)
    by (nonlinear_arith)
    requires
        -xb <= x <= xb,
        -yb <= y <= yb,
        0 <= xb,
        0 <= yb,
    ensures
        -(xb * yb) <= x * y <= xb * yb,
{
}

/// Multiplying a bounded value by a non-negative factor keeps it between the
/// bounds scaled by that factor.
pub proof fn lemma_mul_bound_nonneg(x: int, y: int, xlo: int, xhi: int, yhi: int)
    by (nonlinear_arith)
    requires
        xlo <= x <= xhi,
        0 <= y <= yhi,
        xlo <= 0,
        0 <= xhi,
    ensures
        xlo * yhi <= x * y <= xhi * yhi,
{
}

/// Multiplication by a non-negative factor preserves order.
pub proof fn lemma_mul_mono(x: int, xb: int, y: int)
    by (nonlinear_arith)
    requires
        x <= xb,
        0 <= y,
    ensures
        x * y <= xb * y,
{
}

/// A non-negative dividend at most `d * b` divides by `d` to at most `b`.
pub proof fn lemma_div_bound(num: int, d: int, b: int)
    by (nonlinear_arith)
    requires
        0 <= num,
        num <= d * b,
        1 <= d,
        0 <= b,
    ensures
        0 <= num / d <= b,
{
}

} // verus!
