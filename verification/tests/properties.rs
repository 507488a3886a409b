//! Behavioural checks on concrete values: determinism, the monotone running
//! minimum of MBiaz, the hysteresis of Spike, the burst-length threshold
//! ordering of ZigZag, and the delegation of ZBS to exactly one
//! sub-classifier per call.

use packet_loss_classification::ClassifierError;
use packet_loss_classification::MBiaz;
use packet_loss_classification::PacketLoss;
use packet_loss_classification::Spike;
use packet_loss_classification::SpikeState;
use packet_loss_classification::Trend;
use packet_loss_classification::ZigZag;
use packet_loss_classification::ZBS;

/// Converts a plain value to its fixed-point representation.
fn fp(x: f64) -> i64 {
    (x * 1_000_000.0).round() as i64
}

#[test]
fn zbs_identical_sequences_give_identical_verdicts() {
    let observations = [
        (fp(5.0), fp(10.0), 1u32),
        (fp(6.0), fp(10.0), 1),
        (fp(7.0), fp(10.0), 4),
        (fp(2.5), fp(3.0), 2),
        (fp(9.0), fp(12.0), 3),
    ];
    let mut first = ZBS::default();
    let mut second = ZBS::default();
    for (rott, iat, n) in observations {
        assert_eq!(first.classify(rott, iat, n), second.classify(rott, iat, n));
    }
}

#[test]
fn trend_identical_sequences_give_identical_verdicts() {
    let mut first = Trend::default();
    let mut second = Trend::default();
    for i in 0..32 {
        let rott = fp((i % 7) as f64 * 1.5);
        assert_eq!(first.classify(rott), second.classify(rott));
    }
}

#[test]
fn mbiaz_minimum_never_increases() {
    let mut mbiaz = MBiaz::default();
    let mut previous: Option<i64> = None;
    for iat in [fp(3.0), fp(2.0), fp(5.0), fp(2.5), fp(1.0), fp(4.0)] {
        mbiaz.classify(iat, 2).unwrap();
        let current = mbiaz.interarrival_time_min.unwrap();
        if let Some(p) = previous {
            assert!(current <= p);
        }
        assert!(current <= iat);
        previous = Some(current);
    }
}

#[test]
fn spike_stays_in_spike_state_between_thresholds() {
    let mut spike = Spike::default();
    // Pin the observed range to [0, 30]: the spike starts above 15 and ends
    // below 10 under the default configuration.
    assert_eq!(spike.classify(fp(0.0)), PacketLoss::Wireless);
    assert_eq!(spike.classify(fp(30.0)), PacketLoss::Congestion);
    assert_eq!(spike.state, SpikeState::Spike);
    // Fluctuations between the end and start thresholds keep the verdict at
    // congestion even though they sit below the spike-start threshold.
    assert_eq!(spike.classify(fp(14.0)), PacketLoss::Congestion);
    assert_eq!(spike.state, SpikeState::Spike);
    assert_eq!(spike.classify(fp(10.5)), PacketLoss::Congestion);
    assert_eq!(spike.state, SpikeState::Spike);
    // Only a drop below the spike-end threshold releases the state.
    assert_eq!(spike.classify(fp(5.0)), PacketLoss::Wireless);
    assert_eq!(spike.state, SpikeState::Normal);
}

#[test]
fn zigzag_longer_bursts_lower_the_wireless_bar() {
    // Bring four instances into the same state, then classify the same ROTT
    // with rising burst lengths: once the verdict turns wireless it stays
    // wireless for every longer burst.
    let mut verdicts = Vec::new();
    for n in 1..=4u32 {
        let mut zigzag = ZigZag::default();
        zigzag.classify(fp(10.0), 1).unwrap();
        zigzag.classify(fp(10.0), 1).unwrap();
        verdicts.push(zigzag.classify(fp(0.3), n).unwrap());
    }
    assert_eq!(
        verdicts,
        vec![
            PacketLoss::Congestion,
            PacketLoss::Congestion,
            PacketLoss::Wireless,
            PacketLoss::Wireless,
        ]
    );
}

#[test]
fn zbs_first_call_delegates_to_spike_only() {
    let mut zbs = ZBS::default();
    zbs.classify(fp(5.0), fp(10.0), 1).unwrap();
    // The Spike sub-classifier observed the ROTT; the other two are untouched.
    assert_eq!(zbs.spike.rott_min, Some(fp(5.0)));
    assert_eq!(zbs.spike.rott_max, fp(5.0));
    assert_eq!(zbs.mbiaz.interarrival_time_min, None);
    assert_eq!(zbs.zigzag.rott_mean, 0);
    assert_eq!(zbs.zigzag.rott_dev, 0);
}

#[test]
fn zbs_delegates_to_mbiaz_only_in_the_wireless_last_hop_regime() {
    let mut zbs = ZBS::default();
    zbs.classify(fp(5.0), fp(10.0), 1).unwrap();
    let spike_before = (zbs.spike.rott_min, zbs.spike.rott_max, zbs.spike.state);
    // A long burst keeps the smoothed statistic under one and a half times
    // the minimal inter-arrival time, and the ROTT stays clear of its
    // minimum, so the call goes to MBiaz alone.
    let verdict = zbs.classify(fp(7.0), fp(10.0), 4).unwrap();
    assert_eq!(verdict, PacketLoss::Congestion);
    assert_eq!(zbs.t_avg, fp(14.0625));
    assert_eq!(zbs.mbiaz.interarrival_time_min, Some(fp(10.0)));
    assert_eq!((zbs.spike.rott_min, zbs.spike.rott_max, zbs.spike.state), spike_before);
    assert_eq!(zbs.zigzag.rott_mean, 0);
    assert_eq!(zbs.zigzag.rott_dev, 0);
}

#[test]
fn zbs_delegates_to_zigzag_only_in_the_ambiguous_regime() {
    let mut zbs = ZBS::default();
    zbs.classify(fp(5.0), fp(1.0), 1).unwrap();
    let spike_before = (zbs.spike.rott_min, zbs.spike.rott_max, zbs.spike.state);
    // A large inter-arrival time spread over a long burst keeps the smoothed
    // statistic under seven eighths of the minimal inter-arrival time: the
    // topology estimate is ambiguous and the call goes to ZigZag alone.
    let verdict = zbs.classify(fp(6.0), fp(10.0), 100).unwrap();
    assert_eq!(verdict, PacketLoss::Congestion);
    assert_eq!(zbs.zigzag.rott_mean, fp(0.1875));
    assert_eq!(zbs.mbiaz.interarrival_time_min, None);
    assert_eq!((zbs.spike.rott_min, zbs.spike.rott_max, zbs.spike.state), spike_before);
}

#[test]
fn zbs_errors_change_nothing() {
    let mut zbs = ZBS::default();
    zbs.classify(fp(5.0), fp(10.0), 1).unwrap();
    let snapshot = (
        zbs.t_avg,
        zbs.t_min,
        zbs.rott_min,
        zbs.spike.rott_min,
        zbs.spike.rott_max,
        zbs.spike.state,
    );
    assert_eq!(zbs.classify(fp(1.0), fp(1.0), 0), Err(ClassifierError::InvalidArgument));
    assert_eq!(
        (zbs.t_avg, zbs.t_min, zbs.rott_min, zbs.spike.rott_min, zbs.spike.rott_max, zbs.spike.state),
        snapshot
    );
}

#[test]
fn zbs_zero_minimal_interarrival_time_routes_to_spike() {
    // With a minimal inter-arrival time of zero the topology statistic is
    // unbounded, so the call falls through to the Spike sub-classifier.
    let mut zbs = ZBS::default();
    assert_eq!(zbs.classify(fp(5.0), fp(0.0), 1), Ok(PacketLoss::Wireless));
    assert_eq!(zbs.t_min, Some(0));
    assert_eq!(zbs.spike.rott_min, Some(fp(5.0)));
    assert_eq!(zbs.mbiaz.interarrival_time_min, None);
    assert_eq!(zbs.zigzag.rott_mean, 0);
}

#[test]
fn zbs_accepts_the_largest_supported_observations() {
    let mut zbs = ZBS::default();
    let max_obs: i64 = 1_000_000_000_000;
    assert_eq!(zbs.classify(max_obs, max_obs, 1), Ok(PacketLoss::Wireless));
    assert_eq!(zbs.t_min, Some(max_obs));
    assert_eq!(zbs.rott_min, Some(max_obs));
    assert_eq!(zbs.t_avg, 125_000_000_000_000_000);
}

#[test]
fn mbiaz_accepts_negative_interarrival_times() {
    // Only the loss count carries a precondition: a negative inter-arrival
    // time is classified like any other observation.
    let mut mbiaz = MBiaz::default();
    assert_eq!(mbiaz.classify(fp(-1.0), 1), Ok(PacketLoss::Congestion));
    assert_eq!(mbiaz.interarrival_time_min, Some(fp(-1.0)));
}

#[test]
fn spike_accepts_negative_rott() {
    let mut spike = Spike::default();
    assert_eq!(spike.classify(fp(-5.0)), PacketLoss::Wireless);
    assert_eq!(spike.rott_min, Some(fp(-5.0)));
    assert_eq!(spike.rott_max, 0);
    assert_eq!(spike.state, SpikeState::Normal);
}

#[test]
fn trend_constant_delay_decays_the_score() {
    let mut trend = Trend::default();
    // Rising delay pushes the score up.
    for i in 1..=40 {
        trend.classify(fp(i as f64)).unwrap();
    }
    assert!(trend.s_f > 400_000);
    assert_eq!(trend.classify(fp(41.0)), Ok(PacketLoss::Congestion));
    // A constant delay is no ascending phase: the score only decays.
    let mut previous = trend.s_f;
    let mut verdict = PacketLoss::Congestion;
    for _ in 0..40 {
        verdict = trend.classify(fp(41.0)).unwrap();
        assert!(trend.s_f <= previous);
        previous = trend.s_f;
    }
    assert_eq!(verdict, PacketLoss::Wireless);
}
