use vstd::prelude::*;

use crate::ClassifierError;
use crate::PacketLoss;
use crate::SCALE;
use crate::lemma_mul_bound_nonneg;
use crate::lemma_mul_le;
use crate::min_observe;
use crate::running_min;

verus! {

/// The two modes of the Spike detector.
#[derive(Debug, PartialEq, Eq, Structural, Clone, Copy)]
pub enum SpikeState {
    /// Delay is inside its usual range.
    Normal,
    /// Delay has leapt over the spike-start threshold and has not yet fallen
    /// back under the spike-end threshold.
    Spike,
}

/// Packet loss classifier based on the Spike scheme.
///
/// The Spike scheme assumes that congestion errors lead to spikes in delay,
/// measured as the ROTT (relative one-way trip time) of the packet received
/// after the loss. The classifier keeps a two-mode state: packet loss in
/// `Spike` mode is classified as congestion, loss in `Normal` mode as
/// wireless error. The mode switches to `Spike` when the ROTT leaps over a
/// start threshold and back to `Normal` when it falls under a lower end
/// threshold; both thresholds interpolate between the minimum and maximum
/// ROTT observed so far, and the gap between them (`alpha >= beta`) gives the
/// detector its hysteresis.
#[derive(Debug, Clone, Copy)]
pub struct Spike {
    /// Smallest ROTT observed so far; `None` before the first observation.
    pub rott_min: Option<i64>,
    /// Largest ROTT observed so far.
    pub rott_max: i64,
    /// Interpolation coefficient of the spike-start threshold, fixed-point.
    pub alpha: i64,
    /// Interpolation coefficient of the spike-end threshold, fixed-point.
    pub beta: i64,
    /// The current mode.
    pub state: SpikeState,
}

impl Spike {
    /// The configuration invariant: the start threshold lies at or above the
    /// end threshold.
    pub open spec fn wf(self) -> bool {
        self.alpha >= self.beta
    }
}

/// Whether the observed ROTT leaps over the spike-start threshold
/// `m + alpha * (mx - m)` for running minimum `m` and maximum `mx`. The
/// threshold carries two fixed-point factors, so the observation is compared
/// against it scaled by `SCALE`; the comparison is exact.
pub open spec fn spike_exceeds_start(s: Spike, m: i64, mx: i64, rott: i64) -> bool {
    rott * SCALE > m * SCALE + s.alpha * (mx - m)
}

/// Whether the observed ROTT falls under the spike-end threshold
/// `m + beta * (mx - m)`, scaled like the start threshold.
pub open spec fn spike_below_end(s: Spike, m: i64, mx: i64, rott: i64) -> bool {
    rott * SCALE < m * SCALE + s.beta * (mx - m)
}

/// One Spike classification step: the successor state and the verdict. The
/// observation is always folded into the running minimum and maximum first;
/// the mode then moves through the two-threshold state machine.
pub open spec fn spike_step(s: Spike, rott: i64) -> (Spike, PacketLoss) {
    let m = running_min(s.rott_min, rott);
    let mx = if rott > s.rott_max { rott } else { s.rott_max };
    let base = Spike { rott_min: Some(m), rott_max: mx, ..s };
    match s.state {
        SpikeState::Spike => if spike_below_end(s, m, mx, rott) {
            (Spike { state: SpikeState::Normal, ..base }, PacketLoss::Wireless)
        } else {
            (base, PacketLoss::Congestion)
        },
        SpikeState::Normal => if spike_exceeds_start(s, m, mx, rott) {
            (Spike { state: SpikeState::Spike, ..base }, PacketLoss::Congestion)
        } else {
            (base, PacketLoss::Wireless)
        },
    }
}

/// The verdicts of a sequence of classifications, each step feeding its
/// successor state to the next: one ROTT per call.
pub open spec fn spike_run(s: Spike, obs: Seq<i64>) -> Seq<PacketLoss>
    decreases obs.len(),
{
    if obs.len() == 0 {
        Seq::empty()
    } else {
        let first = spike_step(s, obs[0]);
        seq![first.1] + spike_run(first.0, obs.skip(1))
    }
}

/// Classification is deterministic: two instances in the same state map the
/// same sequence of observations to the same sequence of verdicts.
pub proof fn lemma_spike_deterministic(s1: Spike, s2: Spike, obs: Seq<i64>)
    requires
        s1 == s2,
    ensures
        spike_run(s1, obs) == spike_run(s2, obs),
{
}

/// Hysteresis: once in `Spike` mode, the verdict becomes wireless exactly
/// when the ROTT drops under the spike-end threshold. While it stays at or
/// above that threshold — even while it fluctuates between the end and start
/// thresholds — the verdict remains congestion and the mode remains `Spike`.
pub proof fn lemma_spike_hysteresis(s: Spike, rott: i64)
    requires
        s.state == SpikeState::Spike,
    ensures
        ({
            let m = running_min(s.rott_min, rott);
            let mx = if rott > s.rott_max {
                rott
            } else {
                s.rott_max
            };
            &&& (spike_step(s, rott).1 == PacketLoss::Wireless <==> spike_below_end(
                s,
                m,
                mx,
                rott,
            ))
            &&& !spike_below_end(s, m, mx, rott) ==> spike_step(s, rott).0.state
                == SpikeState::Spike && spike_step(s, rott).1 == PacketLoss::Congestion
            &&& spike_below_end(s, m, mx, rott) ==> spike_step(s, rott).0.state
                == SpikeState::Normal
        }),
{
}

impl Default for Spike {
    /// The default configuration: the spike starts half way and ends a third
    /// of the way up the observed ROTT range.
    fn default() -> (s: Spike)
        ensures
            s.rott_min is None,
            s.rott_max == 0,
            s.alpha == 500_000i64,
            s.beta == 333_333i64,
            s.state == SpikeState::Normal,
            s.wf(),
    {
        Spike {
            rott_min: None,
            rott_max: 0,
            alpha: 500_000,
            beta: 333_333,
            state: SpikeState::Normal,
        }
    }
}

impl Spike {
    /// Creates a new packet loss classifier based on the Spike scheme.
    ///
    /// `alpha` adjusts the spike-start threshold and `beta` the spike-end
    /// threshold, both fixed-point. Construction is refused exactly when
    /// `alpha` is smaller than `beta`.
    pub fn new(alpha: i64, beta: i64) -> (r: Result<Spike, ClassifierError>)
        ensures
            alpha < beta ==> r == Err::<Spike, ClassifierError>(
                ClassifierError::InvalidConfiguration,
            ),
            alpha >= beta ==> r == Ok::<Spike, ClassifierError>(
                Spike {
                    rott_min: None,
                    rott_max: 0,
                    alpha,
                    beta,
                    state: SpikeState::Normal,
                },
            ),
    {
        if alpha < beta {
            Err(ClassifierError::InvalidConfiguration)
        } else {
            Ok(Spike { rott_min: None, rott_max: 0, alpha, beta, state: SpikeState::Normal })
        }
    }

    /// Classifies the reason of packet loss based on the ROTT of the packet
    /// received after the loss.
    pub fn classify(&mut self, rott: i64) -> (r: PacketLoss)
        ensures
            (*final(self), r) == spike_step(*old(self), rott),
            old(self).wf() ==> final(self).wf(),
    {
        let m: i64 = min_observe(self.rott_min, rott);
        let mx: i64 = if rott > self.rott_max {
            rott
        } else {
            self.rott_max
        };
        self.rott_min = Some(m);
        self.rott_max = mx;

        // The observation sits between the updated minimum and maximum, so
        // the threshold comparisons can be taken relative to the minimum;
        // that keeps every product inside 128 bits for any configuration.
        let diff: i128 = rott as i128 - m as i128;
        let range: i128 = mx as i128 - m as i128;
        proof {
            lemma_mul_le(diff as int, SCALE as int, 18446744073709551615, 1_000_000);
            lemma_mul_bound_nonneg(
                self.alpha as int,
                range as int,
                -9223372036854775808,
                9223372036854775807,
                18446744073709551615,
            );
            lemma_mul_bound_nonneg(
                self.beta as int,
                range as int,
                -9223372036854775808,
                9223372036854775807,
                18446744073709551615,
            );
        }
        match self.state {
            SpikeState::Spike => {
                if diff * (SCALE as i128) < self.beta as i128 * range {
                    self.state = SpikeState::Normal;
                    PacketLoss::Wireless
                } else {
                    PacketLoss::Congestion
                }
            },
            SpikeState::Normal => {
                if diff * (SCALE as i128) > self.alpha as i128 * range {
                    self.state = SpikeState::Spike;
                    PacketLoss::Congestion
                } else {
                    PacketLoss::Wireless
                }
            },
        }
    }
}

} // verus!
