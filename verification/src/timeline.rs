//! Timeline snapshots: tempo, the beat/time mapping, and the transport
//! target.
//!
//! A [`SessionState`] is a single-owner snapshot of the session timeline,
//! captured from a [`Link`](crate::Link) or an
//! [`AudioLink`](crate::AudioLink), mutated only in local memory through its
//! own methods, and made authoritative only by committing it back. Its
//! mathematical content is a [`SessionView`]: a tempo, an anchor pairing one
//! instant with one beat value, and the transport target.
//!
//! Quantities are fixed-point: beats and quanta in micro-beats, tempo in
//! micro-beats per minute, instants in microseconds. The beat value at a
//! time `t` is the anchor beat plus the elapsed time scaled by the tempo,
//! rounded toward negative infinity; the phase at `t` is that beat value
//! reduced into `[0, quantum)` with floor semantics, so a beat of minus one
//! beat and a quantum of four beats give a phase of three beats.

use crate::arith::floor_div_i128;
use crate::arith::floor_mod_i128;
use crate::time::Instant;
use crate::transport::TransportState;
use crate::MICROS_PER_MINUTE;
use vstd::arithmetic::div_mod::lemma_div_is_ordered;
use vstd::arithmetic::div_mod::lemma_div_of0;
use vstd::arithmetic::div_mod::lemma_fundamental_div_mod;
use vstd::arithmetic::div_mod::lemma_fundamental_div_mod_converse;
use vstd::arithmetic::div_mod::lemma_mod_division_less_than_divisor;
use vstd::arithmetic::div_mod::lemma_small_mod;
use vstd::arithmetic::div_mod::lemma_sub_mod_noop;
use vstd::arithmetic::mul::lemma_mul_is_commutative;
use vstd::arithmetic::mul::lemma_mul_unary_negation;
use vstd::prelude::*;

verus! {

/// The phase of a beat value with respect to a quantum: the beat reduced
/// into `[0, quantum)` with floor semantics. The residue, not the beat
/// magnitude, is what peers of a session share.
pub open spec fn phase_of_beat(b: int, q: int) -> int {
    b % q
}

/// The mathematical content of a timeline snapshot.
///
/// `tempo` is in micro-beats per minute; `anchor_time` (microseconds) and
/// `anchor_beat` (micro-beats) pin the beat/time mapping at one point;
/// `transport` and `transport_time` are the transport target; and
/// `peers_present` records whether the session had peers when the snapshot
/// was captured.
pub ghost struct SessionView {
    pub tempo: int,
    pub anchor_time: int,
    pub anchor_beat: int,
    pub transport: TransportState,
    pub transport_time: int,
    pub peers_present: bool,
}

impl SessionView {
    /// Well-formedness: a positive tempo, and every field representable in
    /// the 64-bit value that carries it.
    pub open spec fn wf(self) -> bool {
        &&& 1 <= self.tempo <= i64::MAX as int
        &&& i64::MIN as int <= self.anchor_time <= i64::MAX as int
        &&& i64::MIN as int <= self.anchor_beat <= i64::MAX as int
        &&& i64::MIN as int <= self.transport_time <= i64::MAX as int
    }

    /// The beat value (micro-beats) at time `t` (microseconds): the anchor
    /// beat plus the elapsed time scaled by the tempo, rounded toward
    /// negative infinity.
    pub open spec fn beat_at(self, t: int) -> int {
        self.anchor_beat + (t - self.anchor_time) * self.tempo / (MICROS_PER_MINUTE as int)
    }

    /// The phase at time `t` for quantum `q`: the beat value reduced into
    /// `[0, q)`.
    pub open spec fn phase_at(self, t: int, q: int) -> int {
        phase_of_beat(self.beat_at(t), q)
    }

    /// The time (microseconds) at which beat `b` (micro-beats) occurs: the
    /// inverse of the beat mapping, rounded toward negative infinity.
    pub open spec fn time_of_beat(self, b: int) -> int {
        self.anchor_time + (b - self.anchor_beat) * (MICROS_PER_MINUTE as int) / self.tempo
    }

    /// The snapshot after re-anchoring the mapping so that beat `b` falls on
    /// time `t`.
    pub open spec fn with_anchor(self, b: int, t: int) -> SessionView {
        SessionView { anchor_beat: b, anchor_time: t, ..self }
    }

    /// The snapshot after a tempo change pivoted at `pivot`: the beat value
    /// at `pivot` is preserved and becomes the new anchor.
    pub open spec fn with_tempo(self, tempo: int, pivot: int) -> SessionView {
        SessionView {
            tempo,
            anchor_time: pivot,
            anchor_beat: self.beat_at(pivot),
            ..self
        }
    }

    /// The snapshot after scheduling transport target `state` at time `t`.
    pub open spec fn with_transport(self, state: TransportState, t: int) -> SessionView {
        SessionView { transport: state, transport_time: t, ..self }
    }

    /// The first beat value at or after the session beat at `at` whose phase
    /// equals the phase of `b`.
    pub open spec fn aligned_beat(self, b: int, at: int, q: int) -> int {
        self.beat_at(at) + (b - self.beat_at(at)) % q
    }

    /// The instant a quantized launch maps `b` to when peers are present:
    /// the time of the first phase-aligned session beat at or after `at`.
    pub open spec fn quantized_time(self, b: int, at: int, q: int) -> int {
        self.time_of_beat(self.aligned_beat(b, at, q))
    }

    /// The snapshot after requesting beat `b` at time `at` with quantum `q`:
    /// re-anchored at `at` itself when the session has no peers, and at the
    /// first phase-aligned instant otherwise.
    pub open spec fn after_request(self, b: int, at: int, q: int) -> SessionView {
        if self.peers_present {
            self.with_anchor(b, self.quantized_time(b, at, q))
        } else {
            self.with_anchor(b, at)
        }
    }

    /// The beat value at `t` is representable in 64 bits.
    pub open spec fn beat_in_range(self, t: int) -> bool {
        i64::MIN as int <= self.beat_at(t) <= i64::MAX as int
    }

    /// The time of beat `b` is representable in 64 bits.
    pub open spec fn time_in_range(self, b: int) -> bool {
        i64::MIN as int <= self.time_of_beat(b) <= i64::MAX as int
    }

    /// Every intermediate value of a quantized launch of beat `b` at `at`
    /// with quantum `q` is representable in 64 bits. Trivial for a session
    /// without peers, which re-anchors at `at` directly.
    pub open spec fn request_in_range(self, b: int, at: int, q: int) -> bool {
        self.peers_present ==> {
            &&& self.beat_in_range(at)
            &&& i64::MIN as int <= self.aligned_beat(b, at, q) <= i64::MAX as int
            &&& self.time_in_range(self.aligned_beat(b, at, q))
        }
    }
}

/// The phase of any instant lies in `[0, quantum)` for every positive
/// quantum: reduction is with floor semantics, so instants whose beat value
/// is negative land in the upper part of the interval rather than below
/// zero.
pub proof fn lemma_phase_bounds(v: SessionView, t: int, q: int)
    requires
        1 <= q,
    ensures
        0 <= v.phase_at(t, q) < q,
{
    lemma_mod_division_less_than_divisor(v.beat_at(t), q);
}

/// Re-anchoring the mapping at `(b, t)` makes the beat value at `t` exactly
/// `b`, whatever the tempo. This is what a forced mapping does at its given
/// instant, and what a quantized launch does at the instant it selects.
pub proof fn lemma_anchor_pins_beat(v: SessionView, b: int, t: int)
    requires
        1 <= v.tempo,
    ensures
        v.with_anchor(b, t).beat_at(t) == b,
{
    let w = v.with_anchor(b, t);
    vstd::arithmetic::mul::lemma_mul_by_zero_is_zero(w.tempo);
    lemma_div_of0(MICROS_PER_MINUTE as int);
}

/// A beat requested at time `at` in a session without peers falls on `at`
/// itself: after the request, the beat value at `at` is exactly the beat
/// that was asked for.
pub proof fn lemma_request_when_alone(v: SessionView, b: int, at: int, q: int)
    requires
        1 <= v.tempo,
        !v.peers_present,
    ensures
        v.after_request(b, at, q).beat_at(at) == b,
{
    lemma_anchor_pins_beat(v, b, at);
}

/// The time of a beat is monotone in the beat: a later beat never maps to
/// an earlier instant.
proof fn lemma_time_of_beat_monotone(v: SessionView, b1: int, b2: int)
    requires
        1 <= v.tempo,
        b1 <= b2,
    ensures
        v.time_of_beat(b1) <= v.time_of_beat(b2),
{
    vstd::arithmetic::mul::lemma_mul_inequality(
        b1 - v.anchor_beat,
        b2 - v.anchor_beat,
        MICROS_PER_MINUTE as int,
    );
    lemma_div_is_ordered(
        (b1 - v.anchor_beat) * (MICROS_PER_MINUTE as int),
        (b2 - v.anchor_beat) * (MICROS_PER_MINUTE as int),
        v.tempo,
    );
}

/// A beat requested in a session with peers falls on the instant of the
/// first phase-aligned session beat: after the request, the beat value at
/// the selected instant is exactly the beat that was asked for, the
/// selected beat does not precede the session beat at `at` and carries the
/// phase of the requested beat, and the selected instant precedes `at` by
/// at most clock resolution (one micro-beat's duration plus one
/// microsecond).
pub proof fn lemma_request_with_peers(v: SessionView, b: int, at: int, q: int)
    requires
        1 <= v.tempo,
        1 <= q,
        v.peers_present,
    ensures
        v.after_request(b, at, q).beat_at(v.quantized_time(b, at, q)) == b,
        v.aligned_beat(b, at, q) >= v.beat_at(at),
        phase_of_beat(v.aligned_beat(b, at, q), q) == phase_of_beat(b, q),
        v.quantized_time(b, at, q) >= at - (MICROS_PER_MINUTE as int) / v.tempo - 1,
{
    lemma_anchor_pins_beat(v, b, v.quantized_time(b, at, q));
    let cb = v.beat_at(at);
    let d = (b - cb) % q;
    lemma_mod_division_less_than_divisor(b - cb, q);
    lemma_fundamental_div_mod(b - cb, q);
    let k = (b - cb) / q;
    assert(cb + d == b - q * k);
    lemma_mul_unary_negation(q, k);
    vstd::arithmetic::div_mod::lemma_mod_multiples_vanish(-k, b, q);
    lemma_time_beat_round_trip(v, at);
    lemma_time_of_beat_monotone(v, cb, cb + d);
}

/// Minimality of the quantized launch: of the session beats from the
/// session beat at `at` up to the one the launch selects, none before the
/// selected one carries the phase of the requested beat — the launch waits
/// no longer than phase alignment demands.
pub proof fn lemma_aligned_beat_is_earliest(v: SessionView, b: int, at: int, q: int)
    requires
        1 <= v.tempo,
        1 <= q,
    ensures
        forall|b2: int|
            v.beat_at(at) <= b2 < v.aligned_beat(b, at, q) ==> phase_of_beat(b2, q)
                != phase_of_beat(b, q),
{
    let cb = v.beat_at(at);
    let d = (b - cb) % q;
    lemma_mod_division_less_than_divisor(b - cb, q);
    assert forall|b2: int| cb <= b2 < cb + d implies phase_of_beat(b2, q) != phase_of_beat(
        b,
        q,
    ) by {
        let e = b2 - cb;
        lemma_small_mod(e as nat, q as nat);
        lemma_sub_mod_noop(b - cb, e, q);
        lemma_small_mod((d - e) as nat, q as nat);
        assert((b - b2) % q == d - e);
        lemma_sub_mod_noop(b, b2, q);
        if phase_of_beat(b2, q) == phase_of_beat(b, q) {
            lemma_small_mod(0nat, q as nat);
            assert(false);
        }
    }
}

/// Quantum is a local parameter, and peers with different quanta share a
/// downbeat only where their cycles meet: a peer cycling every `4 * u`
/// micro-beats and a peer cycling every `3 * u` micro-beats are both at
/// phase zero exactly at the beat values that are multiples of `12 * u`
/// micro-beats, and at no others.
pub proof fn lemma_shared_downbeats(b: int, u: int)
    requires
        1 <= u,
    ensures
        (phase_of_beat(b, 4 * u) == 0 && phase_of_beat(b, 3 * u) == 0) <==> b % (12 * u) == 0,
{
    if b % (12 * u) == 0 {
        lemma_fundamental_div_mod(b, 12 * u);
        let m = b / (12 * u);
        assert((12 * u) * m == (3 * m) * (4 * u) && (12 * u) * m == (4 * m) * (3 * u))
            by (nonlinear_arith);
        lemma_fundamental_div_mod_converse(b, 4 * u, 3 * m, 0);
        lemma_fundamental_div_mod_converse(b, 3 * u, 4 * m, 0);
    }
    if phase_of_beat(b, 4 * u) == 0 && phase_of_beat(b, 3 * u) == 0 {
        lemma_fundamental_div_mod(b, 4 * u);
        lemma_fundamental_div_mod(b, 3 * u);
        let k = b / (4 * u);
        let j = b / (3 * u);
        assert(k == 3 * (j - k)) by (nonlinear_arith)
            requires
                (4 * u) * k == (3 * u) * j,
                1 <= u,
        ;
        assert((4 * u) * (3 * (j - k)) == (j - k) * (12 * u)) by (nonlinear_arith);
        lemma_fundamental_div_mod_converse(b, 12 * u, j - k, 0);
    }
}

/// Round trip of the beat mapping: mapping an instant `t` to its beat value
/// and that beat value back to an instant lands at most one micro-beat's
/// duration plus one microsecond before `t`, and never after it — the
/// mapping inverts up to clock resolution while the tempo is unchanged.
pub proof fn lemma_time_beat_round_trip(v: SessionView, t: int)
    requires
        1 <= v.tempo,
    ensures
        v.time_of_beat(v.beat_at(t)) <= t,
        t - (MICROS_PER_MINUTE as int) / v.tempo - 1 <= v.time_of_beat(v.beat_at(t)),
{
    let kk = MICROS_PER_MINUTE as int;
    let tp = v.tempo;
    let x = t - v.anchor_time;
    let p = x * tp / kk;
    let r = (x * tp) % kk;
    lemma_fundamental_div_mod(x * tp, kk);
    lemma_mod_division_less_than_divisor(x * tp, kk);
    lemma_mul_is_commutative(kk, p);
    assert(p * kk == x * tp - r);

    // `c` is the round-up quotient of `r` by the tempo; the round trip comes
    // back `c` microseconds short of `t`.
    let c = (r + tp - 1) / tp;
    let rc = (r + tp - 1) % tp;
    lemma_fundamental_div_mod(r + tp - 1, tp);
    lemma_mod_division_less_than_divisor(r + tp - 1, tp);
    lemma_mul_is_commutative(tp, c);
    assert(c * tp - r == tp - 1 - rc);

    vstd::arithmetic::mul::lemma_mul_is_distributive_sub(tp, x, c);
    lemma_mul_is_commutative(tp, x);
    lemma_mul_is_commutative(tp, x - c);
    assert(x * tp - r == (x - c) * tp + (c * tp - r));
    lemma_fundamental_div_mod_converse(x * tp - r, tp, x - c, c * tp - r);
    assert((p * kk) / tp == x - c);

    // Bound `c` by one micro-beat's duration plus one microsecond.
    vstd::arithmetic::div_mod::lemma_div_pos_is_pos(r + tp - 1, tp);
    let e = kk / tp;
    let re = kk % tp;
    lemma_fundamental_div_mod(kk, tp);
    lemma_mod_division_less_than_divisor(kk, tp);
    vstd::arithmetic::mul::lemma_mul_is_distributive_add_other_way(tp, e, 1);
    vstd::arithmetic::mul::lemma_mul_basics(tp);
    lemma_mul_is_commutative(tp, e);
    if re >= 1 {
        assert(kk + tp - 1 == (e + 1) * tp + (re - 1));
        lemma_fundamental_div_mod_converse(kk + tp - 1, tp, e + 1, re - 1);
    } else {
        assert(kk + tp - 1 == e * tp + (tp - 1));
        lemma_fundamental_div_mod_converse(kk + tp - 1, tp, e, tp - 1);
    }
    lemma_div_is_ordered(r + tp - 1, kk + tp - 1, tp);
    assert(0 <= c <= e + 1);

    assert(v.time_of_beat(v.beat_at(t)) == v.anchor_time + (p * kk) / tp);
}

/// A snapshot of the session timeline and transport state.
///
/// Captured from [`Link::capture_app_session_state`](crate::Link::capture_app_session_state)
/// or [`AudioLink::capture_session_state`](crate::AudioLink::capture_session_state),
/// read and mutated locally, and applied with
/// [`Link::commit_app_session_state`](crate::Link::commit_app_session_state)
/// or [`AudioLink::commit_session_state`](crate::AudioLink::commit_session_state).
/// A snapshot is a single-owner value: no mutation is visible to any other
/// handle until the snapshot is committed.
pub struct SessionState {
    tempo: i64,
    anchor_time: i64,
    anchor_beat: i64,
    transport: TransportState,
    transport_time: i64,
    peers_present: bool,
}

impl View for SessionState {
    type V = SessionView;

    closed spec fn view(&self) -> SessionView {
        SessionView {
            tempo: self.tempo as int,
            anchor_time: self.anchor_time as int,
            anchor_beat: self.anchor_beat as int,
            transport: self.transport,
            transport_time: self.transport_time as int,
            peers_present: self.peers_present,
        }
    }
}

impl SessionState {
    /// A snapshot with the given content; the session handle assembles its
    /// initial committed state this way.
    pub(crate) fn assemble(
        tempo: i64,
        anchor_time: i64,
        anchor_beat: i64,
        transport: TransportState,
        transport_time: i64,
        peers_present: bool,
    ) -> (s: SessionState)
        ensures
            s@ == (SessionView {
                tempo: tempo as int,
                anchor_time: anchor_time as int,
                anchor_beat: anchor_beat as int,
                transport,
                transport_time: transport_time as int,
                peers_present,
            }),
    {
        SessionState { tempo, anchor_time, anchor_beat, transport, transport_time, peers_present }
    }

    /// An independent copy of this snapshot's content; a capture hands the
    /// committed state out as such a copy.
    pub(crate) fn duplicate(&self) -> (s: SessionState)
        ensures
            s@ == self@,
    {
        SessionState {
            tempo: self.tempo,
            anchor_time: self.anchor_time,
            anchor_beat: self.anchor_beat,
            transport: self.transport,
            transport_time: self.transport_time,
            peers_present: self.peers_present,
        }
    }

    /// Overwrites the timeline and transport content from `other`, keeping
    /// this snapshot's own peer flag; a commit applies a snapshot this way.
    pub(crate) fn copy_content_from(&mut self, other: &SessionState)
        ensures
            final(self)@ == (SessionView { peers_present: old(self)@.peers_present, ..other@ }),
    {
        self.tempo = other.tempo;
        self.anchor_time = other.anchor_time;
        self.anchor_beat = other.anchor_beat;
        self.transport = other.transport;
        self.transport_time = other.transport_time;
    }

    /// Records whether the session currently has peers; the session handle
    /// keeps the committed state's flag in step with its peer count.
    pub(crate) fn set_peers_flag(&mut self, peers: bool)
        ensures
            final(self)@ == (SessionView { peers_present: peers, ..old(self)@ }),
    {
        self.peers_present = peers;
    }

    /// The tempo of the timeline, in micro-beats per minute.
    pub fn tempo(&self) -> (r: i64)
        ensures
            r as int == self@.tempo,
    {
        self.tempo
    }

    /// Whether the session had peers when this snapshot was captured.
    pub fn peers_present(&self) -> (r: bool)
        ensures
            r == self@.peers_present,
    {
        self.peers_present
    }

    /// The current transport target.
    pub fn transport_state(&self) -> (r: TransportState)
        ensures
            r == self@.transport,
    {
        self.transport
    }

    /// The instant at which the transport target took or takes effect: the
    /// last committed change before any local edit, and exactly the instant
    /// passed to [`set_transport_state_at`](Self::set_transport_state_at)
    /// after one. A fresh session reports time zero.
    pub fn transport_state_time(&self) -> (r: Instant)
        ensures
            r@ == self@.transport_time,
    {
        Instant::from_micros(self.transport_time)
    }

    /// Schedules transport target `state` at time `time`. Local to this
    /// snapshot until committed.
    pub fn set_transport_state_at(&mut self, state: TransportState, time: Instant)
        ensures
            final(self)@ == old(self)@.with_transport(state, time@),
    {
        self.transport = state;
        self.transport_time = time.as_micros();
    }

    /// Schedules transport start at `time`. Local to this snapshot until
    /// committed.
    pub fn start_transport_at(&mut self, time: Instant)
        ensures
            final(self)@ == old(self)@.with_transport(TransportState::Play, time@),
    {
        self.set_transport_state_at(TransportState::Play, time);
    }

    /// Schedules transport stop at `time`. Local to this snapshot until
    /// committed.
    pub fn stop_transport_at(&mut self, time: Instant)
        ensures
            final(self)@ == old(self)@.with_transport(TransportState::Stop, time@),
    {
        self.set_transport_state_at(TransportState::Stop, time);
    }

    /// The beat value at `time` as an exact 128-bit intermediate; the
    /// public operations narrow or reduce it.
    fn beat_microbeats_i128(&self, time: Instant) -> (r: i128)
        requires
            self@.wf(),
        ensures
            r as int == self@.beat_at(time@),
            (i128::MIN as int) < r as int,
    {
        let t: i128 = time.as_micros() as i128;
        let dt: i128 = t - (self.anchor_time as i128);
        let tp: i128 = self.tempo as i128;
        proof {
            assert((i128::MIN as int) < (dt as int) * (tp as int) <= (i128::MAX as int))
                by (nonlinear_arith)
                requires
                    -0x1_0000_0000_0000_0000 <= dt as int <= 0x1_0000_0000_0000_0000,
                    1 <= tp as int <= 0x7FFF_FFFF_FFFF_FFFF,
            ;
        }
        let num: i128 = dt * tp;
        let mb: i128 = floor_div_i128(num, 60_000_000);
        proof {
            crate::arith::lemma_floor_div_magnitude(num as int, 60_000_000);
        }
        (self.anchor_beat as i128) + mb
    }

    /// The time of beat `beat` as an exact 128-bit intermediate; the public
    /// operations narrow it.
    fn time_of_beat_i128(&self, beat: i64) -> (r: i128)
        requires
            self@.wf(),
        ensures
            r as int == self@.time_of_beat(beat as int),
            (i128::MIN as int) < r as int,
    {
        let db: i128 = (beat as i128) - (self.anchor_beat as i128);
        let num: i128 = db * 60_000_000;
        let dt: i128 = floor_div_i128(num, self.tempo as i128);
        proof {
            crate::arith::lemma_floor_div_magnitude(num as int, self.tempo as int);
        }
        (self.anchor_time as i128) + dt
    }

    /// The beat value (micro-beats) at `time` for quantum `quantum`: the
    /// magnitude is local to this snapshot, while its residue modulo the
    /// quantum is the value peers share.
    pub fn beat_at_time(&self, time: Instant, quantum: i64) -> (r: i64)
        requires
            self@.wf(),
            1 <= quantum,
            self@.beat_in_range(time@),
        ensures
            r as int == self@.beat_at(time@),
    {
        self.beat_microbeats_i128(time) as i64
    }

    /// The phase (micro-beats) at `time` for quantum `quantum`: the beat
    /// value reduced into `[0, quantum)` with floor semantics, so negative
    /// beat values land in the upper part of the interval.
    pub fn phase_at_time(&self, time: Instant, quantum: i64) -> (r: i64)
        requires
            self@.wf(),
            1 <= quantum,
        ensures
            r as int == self@.phase_at(time@, quantum as int),
            0 <= r < quantum,
    {
        let mb: i128 = self.beat_microbeats_i128(time);
        let ph: i128 = floor_mod_i128(mb, quantum as i128);
        proof {
            lemma_mod_division_less_than_divisor(mb as int, quantum as int);
        }
        ph as i64
    }

    /// The time at which beat `beat` (micro-beats) occurs for quantum
    /// `quantum`: the inverse of [`beat_at_time`](Self::beat_at_time) while
    /// the tempo is unchanged, up to clock resolution.
    pub fn time_at_beat(&self, beat: i64, quantum: i64) -> (r: Instant)
        requires
            self@.wf(),
            1 <= quantum,
            self@.time_in_range(beat as int),
        ensures
            r@ == self@.time_of_beat(beat as int),
    {
        Instant::from_micros(self.time_of_beat_i128(beat) as i64)
    }

    /// Sets the timeline tempo (micro-beats per minute). The beat value at
    /// `pivot` is preserved and becomes the new anchor; beat values at all
    /// other instants are recomputed under the new tempo, effective for the
    /// whole timeline upon commit.
    pub fn set_tempo(&mut self, tempo: i64, pivot: Instant)
        requires
            old(self)@.wf(),
            1 <= tempo,
            old(self)@.beat_in_range(pivot@),
        ensures
            final(self)@ == old(self)@.with_tempo(tempo as int, pivot@),
            final(self)@.wf(),
    {
        let b: i128 = self.beat_microbeats_i128(pivot);
        self.anchor_beat = b as i64;
        self.anchor_time = pivot.as_micros();
        self.tempo = tempo;
    }

    /// Requests that beat `beat` fall on time `time`: a quantized launch.
    ///
    /// Without peers the mapping is re-anchored at `time` itself, so that
    /// afterward the beat value at `time` is exactly `beat`. With peers the
    /// mapping is instead re-anchored at the time of the first session beat
    /// at or after `time` whose phase matches the phase of `beat`, so
    /// already-synchronized peers are not disturbed. Either way only this
    /// snapshot's beat magnitudes move; the session phase is untouched, and
    /// once committed the shift applies to the entire timeline.
    pub fn request_beat_at_time(&mut self, beat: i64, time: Instant, quantum: i64)
        requires
            old(self)@.wf(),
            1 <= quantum,
            old(self)@.request_in_range(beat as int, time@, quantum as int),
        ensures
            final(self)@ == old(self)@.after_request(beat as int, time@, quantum as int),
    {
        if !self.peers_present {
            self.anchor_beat = beat;
            self.anchor_time = time.as_micros();
        } else {
            let cb: i64 = self.beat_microbeats_i128(time) as i64;
            let diff: i128 = floor_mod_i128((beat as i128) - (cb as i128), quantum as i128);
            proof {
                lemma_mod_division_less_than_divisor(beat as int - cb as int, quantum as int);
            }
            let tb: i64 = ((cb as i128) + diff) as i64;
            let ta: i128 = self.time_of_beat_i128(tb);
            self.anchor_beat = beat;
            self.anchor_time = ta as i64;
        }
    }

    /// Requests that beat `beat` fall on the transport target's instant: a
    /// quantized launch at [`transport_state_time`](Self::transport_state_time),
    /// useful for making a song start on its first downbeat. A no-op while
    /// the transport target is `Stop`.
    pub fn request_beat_at_transport_state_time(&mut self, beat: i64, quantum: i64)
        requires
            old(self)@.wf(),
            1 <= quantum,
            old(self)@.transport is Play ==> old(self)@.request_in_range(
                beat as int,
                old(self)@.transport_time,
                quantum as int,
            ),
        ensures
            final(self)@ == if old(self)@.transport is Play {
                old(self)@.after_request(beat as int, old(self)@.transport_time, quantum as int)
            } else {
                old(self)@
            },
    {
        if self.transport == TransportState::Play {
            let at = Instant::from_micros(self.transport_time);
            self.request_beat_at_time(beat, at, quantum);
        }
    }

    /// Schedules transport start at `time` and requests beat `beat` for
    /// that same instant in one operation, so no reader capturing between
    /// two separate calls can observe the intermediate state.
    pub fn start_transport_and_request_beat_at(&mut self, beat: i64, time: Instant, quantum: i64)
        requires
            old(self)@.wf(),
            1 <= quantum,
            old(self)@.request_in_range(beat as int, time@, quantum as int),
        ensures
            final(self)@ == old(self)@.with_transport(
                TransportState::Play,
                time@,
            ).after_request(beat as int, time@, quantum as int),
    {
        self.start_transport_at(time);
        self.request_beat_at_time(beat, time, quantum);
    }

    /// Unconditionally re-anchors the mapping so that beat `beat` falls on
    /// time `time`, regardless of peers: every peer's beat magnitude shifts
    /// by the same phase delta once committed, a visible discontinuity.
    /// Intended only for bridging an external clock into the session.
    pub fn force_beat_at_time(&mut self, beat: i64, time: Instant, quantum: i64)
        requires
            1 <= quantum,
        ensures
            final(self)@ == old(self)@.with_anchor(beat as int, time@),
    {
        self.anchor_beat = beat;
        self.anchor_time = time.as_micros();
    }
}

} // verus!
