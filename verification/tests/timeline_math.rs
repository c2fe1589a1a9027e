use link_session::{Instant, Link, TransportState, MICROBEATS_PER_BEAT};

/// 120 beats per minute, in micro-beats per minute.
const TEMPO_120: i64 = 120_000_000;

/// A 4/4 bar, in micro-beats.
const QUANTUM_4: i64 = 4 * MICROBEATS_PER_BEAT;

fn snapshot_at_tempo(tempo: i64) -> link_session::SessionState {
    let link = Link::new(tempo).unwrap();
    link.capture_app_session_state().unwrap()
}

#[test]
fn beat_advances_at_tempo_rate() {
    // At 120 BPM the beat value advances by two beats per second.
    let state = snapshot_at_tempo(TEMPO_120);
    let one_second = Instant::from_micros(1_000_000);
    assert_eq!(
        state.beat_at_time(one_second, QUANTUM_4),
        2 * MICROBEATS_PER_BEAT
    );
    assert_eq!(
        state.beat_at_time(Instant::from_micros(250_000), QUANTUM_4),
        MICROBEATS_PER_BEAT / 2
    );
}

#[test]
fn beat_is_floored_for_past_instants() {
    // Instants before the anchor give negative beat values, rounded toward
    // negative infinity.
    let state = snapshot_at_tempo(TEMPO_120);
    assert_eq!(
        state.beat_at_time(Instant::from_micros(-1_000_000), QUANTUM_4),
        -2 * MICROBEATS_PER_BEAT
    );
    assert_eq!(state.beat_at_time(Instant::from_micros(-1), QUANTUM_4), -2);
}

#[test]
fn time_at_beat_inverts_exactly_at_even_ratio() {
    let state = snapshot_at_tempo(TEMPO_120);
    let t = Instant::from_micros(333_333);
    let b = state.beat_at_time(t, QUANTUM_4);
    assert_eq!(state.time_at_beat(b, QUANTUM_4).as_micros(), 333_333);
}

#[test]
fn time_at_beat_round_trip_within_clock_resolution() {
    // At 90 BPM the beat rate is 1.5 micro-beats per microsecond, so the
    // floor in each direction may lose up to one microsecond.
    let state = snapshot_at_tempo(90_000_000);
    let t = Instant::from_micros(333_333);
    let b = state.beat_at_time(t, QUANTUM_4);
    assert_eq!(b, 499_999);
    let back = state.time_at_beat(b, QUANTUM_4).as_micros();
    assert!(back <= 333_333 && back >= 333_332);
    assert_eq!(back, 333_332);
}

#[test]
fn phase_stays_within_quantum() {
    let state = snapshot_at_tempo(TEMPO_120);
    let mut t: i64 = -10_000_000;
    while t <= 10_000_000 {
        let phase = state.phase_at_time(Instant::from_micros(t), QUANTUM_4);
        assert!(0 <= phase && phase < QUANTUM_4);
        t += 777_777;
    }
}

#[test]
fn phase_of_negative_beat_wraps_upward() {
    // A beat value of -1.0 with quantum 4.0 has phase 3.0.
    let mut state = snapshot_at_tempo(TEMPO_120);
    let t = Instant::from_micros(5_000_000);
    state.force_beat_at_time(-MICROBEATS_PER_BEAT, t, QUANTUM_4);
    assert_eq!(state.beat_at_time(t, QUANTUM_4), -MICROBEATS_PER_BEAT);
    assert_eq!(state.phase_at_time(t, QUANTUM_4), 3 * MICROBEATS_PER_BEAT);
}

#[test]
fn phase_examples_within_a_bar() {
    // Beat 7.25 with quantum 4.0 is one quarter through beat 4 of the bar.
    let mut state = snapshot_at_tempo(TEMPO_120);
    let t = Instant::from_micros(9_000_000);
    state.force_beat_at_time(7_250_000, t, QUANTUM_4);
    assert_eq!(state.phase_at_time(t, QUANTUM_4), 3_250_000);
}

#[test]
fn quanta_share_downbeats_only_at_common_multiples() {
    // A peer in 4/4 and a peer in 3/4 are both on a downbeat at beats 12
    // and 24, and diverge at beats 15 and 16.
    let quantum_3 = 3 * MICROBEATS_PER_BEAT;
    let t = Instant::from_micros(1_000_000);
    for (beat, phase4, phase3) in [
        (12, 0, 0),
        (24, 0, 0),
        (15, 3, 0),
        (16, 0, 1),
    ] {
        let mut state = snapshot_at_tempo(TEMPO_120);
        state.force_beat_at_time(beat * MICROBEATS_PER_BEAT, t, QUANTUM_4);
        assert_eq!(
            state.phase_at_time(t, QUANTUM_4),
            phase4 * MICROBEATS_PER_BEAT
        );
        assert_eq!(
            state.phase_at_time(t, quantum_3),
            phase3 * MICROBEATS_PER_BEAT
        );
    }
}

#[test]
fn set_tempo_preserves_beat_at_pivot() {
    let mut state = snapshot_at_tempo(TEMPO_120);
    let pivot = Instant::from_micros(1_500_000);
    let beat_before = state.beat_at_time(pivot, QUANTUM_4);
    state.set_tempo(60_000_000, pivot);
    assert_eq!(state.tempo(), 60_000_000);
    assert_eq!(state.beat_at_time(pivot, QUANTUM_4), beat_before);
    // One second later, the beat has advanced by one beat instead of two.
    assert_eq!(
        state.beat_at_time(pivot.add_secs(1), QUANTUM_4),
        beat_before + MICROBEATS_PER_BEAT
    );
}

#[test]
fn force_beat_shifts_the_whole_timeline() {
    // Mapping beat 0 to an instant two beats in the future makes the
    // current beat -2.
    let mut state = snapshot_at_tempo(TEMPO_120);
    let now = Instant::from_micros(1_000_000);
    let future = Instant::from_micros(2_000_000);
    state.force_beat_at_time(0, future, QUANTUM_4);
    assert_eq!(state.beat_at_time(future, QUANTUM_4), 0);
    assert_eq!(state.beat_at_time(now, QUANTUM_4), -2 * MICROBEATS_PER_BEAT);
}

#[test]
fn transport_defaults_to_stop_at_time_zero() {
    let state = snapshot_at_tempo(TEMPO_120);
    assert_eq!(state.transport_state(), TransportState::Stop);
    assert_eq!(state.transport_state_time().as_micros(), 0);
}

#[test]
fn transport_setters_record_state_and_instant() {
    let mut state = snapshot_at_tempo(TEMPO_120);
    let t0 = Instant::from_micros(42_000);
    state.start_transport_at(t0);
    assert_eq!(state.transport_state(), TransportState::Play);
    assert_eq!(state.transport_state_time().as_micros(), 42_000);
    let t1 = Instant::from_micros(99_000);
    state.stop_transport_at(t1);
    assert_eq!(state.transport_state(), TransportState::Stop);
    assert_eq!(state.transport_state_time().as_micros(), 99_000);
    state.set_transport_state_at(TransportState::Play, t0);
    assert_eq!(state.transport_state(), TransportState::Play);
    assert_eq!(state.transport_state_time(), t0);
}

#[test]
fn transport_state_converts_to_and_from_playing_flag() {
    assert_eq!(TransportState::from(true), TransportState::Play);
    assert_eq!(TransportState::from(false), TransportState::Stop);
    assert!(bool::from(TransportState::Play));
    assert!(!bool::from(TransportState::Stop));
}
