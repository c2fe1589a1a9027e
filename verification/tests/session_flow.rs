use link_session::{Instant, Link, TransportState, MICROBEATS_PER_BEAT};

const TEMPO_120: i64 = 120_000_000;
const QUANTUM_4: i64 = 4 * MICROBEATS_PER_BEAT;

#[test]
fn new_link_starts_disabled_and_solo() {
    let link = Link::new(TEMPO_120).unwrap();
    assert!(!link.is_enabled());
    assert!(!link.is_transport_sync_enabled());
    assert_eq!(link.num_peers(), 0);
    let state = link.capture_app_session_state().unwrap();
    assert_eq!(state.tempo(), TEMPO_120);
    assert!(!state.peers_present());
    assert_eq!(state.transport_state(), TransportState::Stop);
    assert_eq!(state.transport_state_time().as_micros(), 0);
    assert_eq!(state.beat_at_time(Instant::from_micros(0), QUANTUM_4), 0);
}

#[test]
fn enable_flags_round_trip() {
    let mut link = Link::new(TEMPO_120).unwrap();
    link.enable();
    assert!(link.is_enabled());
    link.disable();
    assert!(!link.is_enabled());
    link.set_enabled(true);
    assert!(link.is_enabled());
    link.enable_transport_sync();
    assert!(link.is_transport_sync_enabled());
    link.disable_transport_sync();
    assert!(!link.is_transport_sync_enabled());
    link.set_transport_sync_enabled(true);
    assert!(link.is_transport_sync_enabled());
}

#[test]
fn uncommitted_edits_stay_local() {
    let mut link = Link::new(TEMPO_120).unwrap();
    let mut state = link.capture_app_session_state().unwrap();
    state.set_tempo(90_000_000, Instant::from_micros(0));
    // A second capture still sees the committed tempo.
    assert_eq!(link.capture_app_session_state().unwrap().tempo(), TEMPO_120);
    link.commit_app_session_state(&state);
    assert_eq!(link.capture_app_session_state().unwrap().tempo(), 90_000_000);
}

#[test]
fn transport_round_trip_through_commit() {
    // Scheduling Play at t0 and committing makes the committed session
    // report Play at exactly t0.
    let mut link = Link::new(TEMPO_120).unwrap();
    let t0 = Instant::from_micros(123_456);
    let mut state = link.capture_app_session_state().unwrap();
    state.set_transport_state_at(TransportState::Play, t0);
    link.commit_app_session_state(&state);
    let seen = link.capture_app_session_state().unwrap();
    assert_eq!(seen.transport_state(), TransportState::Play);
    assert_eq!(seen.transport_state_time(), t0);
}

#[test]
fn solo_request_maps_beat_to_given_instant() {
    // Solo session: requesting beat 0 at `now` and committing makes the
    // beat value at `now` exactly 0.
    let mut link = Link::new(TEMPO_120).unwrap();
    let now = Instant::from_micros(777_777);
    let mut state = link.capture_app_session_state().unwrap();
    assert!(!state.peers_present());
    state.request_beat_at_time(0, now, QUANTUM_4);
    link.commit_app_session_state(&state);
    let seen = link.capture_app_session_state().unwrap();
    assert_eq!(seen.beat_at_time(now, QUANTUM_4), 0);
    assert_eq!(seen.phase_at_time(now, QUANTUM_4), 0);
}

#[test]
fn quantized_request_waits_for_phase_alignment() {
    // With peers, requesting beat 0 (phase 0) while the session is at beat
    // 2 of a 4/4 bar maps beat 0 to the next downbeat, one second later at
    // 120 BPM; the beat value at the requested instant becomes -2.
    let mut link = Link::new(TEMPO_120).unwrap();
    link.deliver_num_peers_event(1, false);
    let now = Instant::from_micros(1_000_000);
    let mut state = link.capture_app_session_state().unwrap();
    assert!(state.peers_present());
    assert_eq!(state.beat_at_time(now, QUANTUM_4), 2 * MICROBEATS_PER_BEAT);
    state.request_beat_at_time(0, now, QUANTUM_4);
    link.commit_app_session_state(&state);
    let seen = link.capture_app_session_state().unwrap();
    let downbeat = Instant::from_micros(2_000_000);
    assert_eq!(seen.beat_at_time(downbeat, QUANTUM_4), 0);
    assert_eq!(seen.beat_at_time(now, QUANTUM_4), -2 * MICROBEATS_PER_BEAT);
}

#[test]
fn quantized_request_with_matching_phase_is_immediate() {
    // When the requested beat already matches the session phase, the
    // mapping lands on the given instant itself.
    let mut link = Link::new(TEMPO_120).unwrap();
    link.deliver_num_peers_event(2, false);
    let now = Instant::from_micros(1_000_000);
    let mut state = link.capture_app_session_state().unwrap();
    let session_beat = state.beat_at_time(now, QUANTUM_4);
    state.request_beat_at_time(session_beat - QUANTUM_4, now, QUANTUM_4);
    link.commit_app_session_state(&state);
    let seen = link.capture_app_session_state().unwrap();
    assert_eq!(
        seen.beat_at_time(now, QUANTUM_4),
        session_beat - QUANTUM_4
    );
}

#[test]
fn request_at_transport_time_is_noop_while_stopped() {
    let mut link = Link::new(TEMPO_120).unwrap();
    let mut state = link.capture_app_session_state().unwrap();
    let before = state.beat_at_time(Instant::from_micros(0), QUANTUM_4);
    state.request_beat_at_transport_state_time(5 * MICROBEATS_PER_BEAT, QUANTUM_4);
    assert_eq!(state.transport_state(), TransportState::Stop);
    assert_eq!(state.beat_at_time(Instant::from_micros(0), QUANTUM_4), before);
}

#[test]
fn request_at_transport_time_maps_beat_to_start_instant() {
    let mut link = Link::new(TEMPO_120).unwrap();
    let start = Instant::from_micros(3_000_000);
    let mut state = link.capture_app_session_state().unwrap();
    state.start_transport_at(start);
    state.request_beat_at_transport_state_time(0, QUANTUM_4);
    link.commit_app_session_state(&state);
    let seen = link.capture_app_session_state().unwrap();
    assert_eq!(seen.beat_at_time(start, QUANTUM_4), 0);
}

#[test]
fn combined_start_and_request_is_one_step() {
    let mut link = Link::new(TEMPO_120).unwrap();
    let start = Instant::from_micros(2_500_000);
    let mut state = link.capture_app_session_state().unwrap();
    state.start_transport_and_request_beat_at(0, start, QUANTUM_4);
    link.commit_app_session_state(&state);
    let seen = link.capture_app_session_state().unwrap();
    assert_eq!(seen.transport_state(), TransportState::Play);
    assert_eq!(seen.transport_state_time(), start);
    assert_eq!(seen.beat_at_time(start, QUANTUM_4), 0);
}

#[test]
fn peer_count_follows_engine_events() {
    let mut link = Link::new(TEMPO_120).unwrap();
    assert_eq!(link.num_peers(), 0);
    link.deliver_num_peers_event(3, false);
    assert_eq!(link.num_peers(), 3);
    assert!(link.capture_app_session_state().unwrap().peers_present());
    link.deliver_num_peers_event(0, false);
    assert_eq!(link.num_peers(), 0);
    assert!(!link.capture_app_session_state().unwrap().peers_present());
}

#[test]
fn allocation_error_reports_a_message() {
    let e = link_session::LinkError::AllocationFailed;
    assert_eq!(e, link_session::LinkError::AllocationFailed);
    assert_eq!(e.message(), "failed to allocate memory");
}
