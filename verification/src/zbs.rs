use vstd::prelude::*;

use crate::ClassifierError;
use crate::MAX_OBS;
use crate::MAX_T_AVG;
use crate::PacketLoss;
use crate::SCALE;
use crate::lemma_div_bound;
use crate::lemma_mul_le;
use crate::lemma_mul_mono;
use crate::mbiaz::MBiaz;
use crate::mbiaz::mbiaz_step;
use crate::min_observe;
use crate::running_min;
use crate::spike::Spike;
use crate::spike::SpikeState;
use crate::spike::spike_step;
use crate::zigzag::ZigZag;
use crate::zigzag::zigzag_step;

verus! {

/// Packet loss classifier based on the ZBS hybrid scheme.
///
/// Each classification scheme performs well on the network topologies it was
/// designed for: in Wireless-Last-Hop topologies ZigZag and MBiaz perform
/// well, while in Wireless-Backbone topologies Spike performs best and ZigZag
/// reasonably well. ZBS owns one instance of each, estimates the current
/// topology regime from accumulated inter-arrival statistics, and routes each
/// classification call to the sub-classifier judged best suited:
///
/// - ZigZag when the topology estimate is ambiguous (for example at startup),
/// - MBiaz when the wireless link is the bottleneck and not shared,
/// - Spike when the slowest link is underutilized (the ROTT is close to its
///   minimum) or multiple flows compete.
///
/// The estimate is the normalized statistic `t_avg / t_min`, close to one in
/// a Wireless-Last-Hop topology and close to the number of flows sharing the
/// slowest link in a Wireless-Backbone topology.
#[derive(Debug, Clone, Copy)]
pub struct ZBS {
    /// The owned MBiaz sub-classifier.
    pub mbiaz: MBiaz,
    /// The owned Spike sub-classifier.
    pub spike: Spike,
    /// The owned ZigZag sub-classifier.
    pub zigzag: ZigZag,
    /// Smoothed normalized inter-arrival statistic, fixed-point.
    pub t_avg: i64,
    /// Smallest inter-arrival time observed so far; `None` before the first
    /// observation.
    pub t_min: Option<i64>,
    /// Smallest ROTT observed so far; `None` before the first observation.
    pub rott_min: Option<i64>,
}

impl ZBS {
    /// The invariant: the owned sub-classifiers are well formed, and the
    /// accumulated statistics stay inside the range that observations bounded
    /// by `MAX_OBS` can produce.
    pub open spec fn wf(self) -> bool {
        &&& self.mbiaz.wf()
        &&& self.spike.wf()
        &&& self.zigzag.wf()
        &&& 0 <= self.t_avg <= MAX_T_AVG
        &&& match self.t_min {
            Some(v) => 0 <= v <= MAX_OBS,
            None => true,
        }
        &&& match self.rott_min {
            Some(v) => 0 <= v <= MAX_OBS,
            None => true,
        }
    }
}

/// The smoothed inter-arrival statistic after one observation:
/// `0.875 * t_avg + 0.125 * iat * iat / n`, taken in one fixed-point division
/// that rounds toward negative infinity.
pub open spec fn zbs_tavg_after(t_avg: i64, iat: i64, n: u32) -> int {
    (7 * t_avg * (n * SCALE) + iat * iat) / (8 * (n * SCALE))
}

/// Whether the observed ROTT sits within five percent of one minimal
/// inter-arrival time above the minimal ROTT, so the slowest link is near its
/// minimum achievable delay. Scaling by twenty keeps the comparison exact.
pub open spec fn zbs_near_min(rott: i64, rm: i64, tm: i64) -> bool {
    20 * rott < 20 * rm + tm
}

/// Whether the topology statistic `t_avg / t_min` lies under seven eighths.
/// A minimum of zero makes the quotient unbounded, so no bound lies over it.
pub open spec fn zbs_narr_under_7_8(ta: i64, tm: i64) -> bool {
    tm > 0 && 8 * ta < 7 * tm
}

/// Whether the topology statistic `t_avg / t_min` lies under three halves.
pub open spec fn zbs_narr_under_3_2(ta: i64, tm: i64) -> bool {
    tm > 0 && 2 * ta < 3 * tm
}

/// Whether the topology statistic `t_avg / t_min` lies under two.
pub open spec fn zbs_narr_under_2(ta: i64, tm: i64) -> bool {
    tm > 0 && ta < 2 * tm
}

/// One ZBS classification step: the successor state and the outcome. A
/// negative timing value or a zero loss count is refused and changes nothing.
/// Any other call folds the observations into the running minima, updates the
/// smoothed statistic, and hands the observation to exactly one owned
/// sub-classifier, whose own step mutates its state exactly as standalone;
/// the delegate's verdict is never overridden.
pub open spec fn zbs_step(z: ZBS, rott: i64, iat: i64, n: u32) -> (ZBS, Result<
    PacketLoss,
    ClassifierError,
>) {
    if rott < 0 || iat < 0 || n == 0 {
        (z, Err(ClassifierError::InvalidArgument))
    } else {
        let tm = running_min(z.t_min, iat);
        let rm = running_min(z.rott_min, rott);
        let ta = zbs_tavg_after(z.t_avg, iat, n) as i64;
        let base = ZBS { t_min: Some(tm), rott_min: Some(rm), t_avg: ta, ..z };
        if zbs_near_min(rott, rm, tm) {
            let sub = spike_step(z.spike, rott);
            (ZBS { spike: sub.0, ..base }, Ok(sub.1))
        } else if zbs_narr_under_7_8(ta, tm) {
            let sub = zigzag_step(z.zigzag, rott, n);
            (ZBS { zigzag: sub.0, ..base }, sub.1)
        } else if zbs_narr_under_3_2(ta, tm) {
            let sub = mbiaz_step(z.mbiaz, iat, n);
            (ZBS { mbiaz: sub.0, ..base }, sub.1)
        } else if zbs_narr_under_2(ta, tm) {
            let sub = zigzag_step(z.zigzag, rott, n);
            (ZBS { zigzag: sub.0, ..base }, sub.1)
        } else {
            let sub = spike_step(z.spike, rott);
            (ZBS { spike: sub.0, ..base }, Ok(sub.1))
        }
    }
}

/// The outcomes of a sequence of classifications, each step feeding its
/// successor state to the next: one ROTT, inter-arrival time and loss count
/// triple per call.
pub open spec fn zbs_run(z: ZBS, obs: Seq<(i64, i64, u32)>) -> Seq<
    Result<PacketLoss, ClassifierError>,
>
    decreases obs.len(),
{
    if obs.len() == 0 {
        Seq::empty()
    } else {
        let first = zbs_step(z, obs[0].0, obs[0].1, obs[0].2);
        seq![first.1] + zbs_run(first.0, obs.skip(1))
    }
}

/// Classification is deterministic: two instances in the same state map the
/// same sequence of observations to the same sequence of outcomes.
pub proof fn lemma_zbs_deterministic(z1: ZBS, z2: ZBS, obs: Seq<(i64, i64, u32)>)
    requires
        z1 == z2,
    ensures
        zbs_run(z1, obs) == zbs_run(z2, obs),
{
}

/// Every accepted call delegates to exactly one owned sub-classifier: of the
/// three, at least two leave the call with their state untouched.
pub proof fn lemma_zbs_delegation_exclusive(z: ZBS, rott: i64, iat: i64, n: u32)
    requires
        0 <= rott,
        0 <= iat,
        n >= 1,
    ensures
        ({
            let after = zbs_step(z, rott, iat, n).0;
            ||| after.mbiaz == z.mbiaz && after.zigzag == z.zigzag
            ||| after.mbiaz == z.mbiaz && after.spike == z.spike
            ||| after.spike == z.spike && after.zigzag == z.zigzag
        }),
{
}

impl Default for ZBS {
    /// The default configuration: each sub-classifier with its own default
    /// configuration and all statistics unset.
    fn default() -> (z: ZBS)
        ensures
            z.mbiaz.lower_window_limit == SCALE,
            z.mbiaz.upper_window_limit == 1_250_000i64,
            z.mbiaz.interarrival_time_min is None,
            z.spike.rott_min is None,
            z.spike.rott_max == 0,
            z.spike.alpha == 500_000i64,
            z.spike.beta == 333_333i64,
            z.spike.state == SpikeState::Normal,
            z.zigzag.rott_mean == 0,
            z.zigzag.rott_dev == 0,
            z.zigzag.alpha == 31_250i64,
            z.t_avg == 0,
            z.t_min is None,
            z.rott_min is None,
            z.wf(),
    {
        ZBS {
            mbiaz: MBiaz::default(),
            spike: Spike::default(),
            zigzag: ZigZag::default(),
            t_avg: 0,
            t_min: None,
            rott_min: None,
        }
    }
}

impl ZBS {
    /// Creates a new packet loss classifier based on the ZBS hybrid scheme
    /// from pre-built sub-classifiers, taking ownership of all three; this
    /// lets a caller tune each sub-classifier's thresholds before composing
    /// the hybrid.
    pub fn new(mbiaz: MBiaz, spike: Spike, zigzag: ZigZag) -> (z: ZBS)
        ensures
            z == (ZBS { mbiaz, spike, zigzag, t_avg: 0i64, t_min: None, rott_min: None }),
            (mbiaz.wf() && spike.wf() && zigzag.wf()) ==> z.wf(),
    {
        ZBS { mbiaz, spike, zigzag, t_avg: 0, t_min: None, rott_min: None }
    }

    /// Classifies the reason of packet loss from the ROTT of the packet
    /// received after the loss burst, the inter-arrival time around the
    /// burst, and the number of lost packets, delegating to the owned
    /// sub-classifier best suited to the current topology estimate.
    ///
    /// The call is refused, and the classifier left unchanged, exactly when
    /// a timing value is negative or the loss count is zero.
    pub fn classify(&mut self, rott: i64, interarrival_time: i64, num_lost_packets: u32) -> (r:
        Result<PacketLoss, ClassifierError>)
        requires
            old(self).wf(),
            rott <= MAX_OBS,
            interarrival_time <= MAX_OBS,
        ensures
            (*final(self), r) == zbs_step(
                *old(self),
                rott,
                interarrival_time,
                num_lost_packets,
            ),
            final(self).wf(),
    {
        if rott < 0 || interarrival_time < 0 || num_lost_packets == 0 {
            return Err(ClassifierError::InvalidArgument);
        }
        let tm: i64 = min_observe(self.t_min, interarrival_time);
        let rm: i64 = min_observe(self.rott_min, rott);
        self.t_min = Some(tm);
        self.rott_min = Some(rm);

        proof {
            lemma_mul_le(num_lost_packets as int, SCALE as int, 4294967295, 1_000_000);
        }
        let q: u128 = num_lost_packets as u128 * SCALE as u128;
        proof {
            lemma_mul_le(
                7 * self.t_avg as int,
                q as int,
                7_000_000_000_000_000_000,
                4294967295_000_000,
            );
            lemma_mul_le(
                interarrival_time as int,
                interarrival_time as int,
                1_000_000_000_000,
                1_000_000_000_000,
            );
            lemma_mul_mono(7 * self.t_avg as int, 7_000_000_000_000_000_000, q as int);
        }
        let num: u128 = 7 * self.t_avg as u128 * q + interarrival_time as u128
            * interarrival_time as u128;
        let den: u128 = 8 * q;
        proof {
            lemma_div_bound(num as int, den as int, 1_000_000_000_000_000_000);
        }
        let ta: i64 = (num / den) as i64;
        self.t_avg = ta;

        let verdict: PacketLoss = if 20 * rott < 20 * rm + tm {
            self.spike.classify(rott)
        } else if tm > 0 && 8 * ta < 7 * tm {
            match self.zigzag.classify(rott, num_lost_packets) {
                Ok(v) => v,
                Err(e) => return Err(e),
            }
        } else if tm > 0 && 2 * ta < 3 * tm {
            match self.mbiaz.classify(interarrival_time, num_lost_packets) {
                Ok(v) => v,
                Err(e) => return Err(e),
            }
        } else if tm > 0 && ta < 2 * tm {
            match self.zigzag.classify(rott, num_lost_packets) {
                Ok(v) => v,
                Err(e) => return Err(e),
            }
        } else {
            self.spike.classify(rott)
        };
        Ok(verdict)
    }
}

} // verus!
