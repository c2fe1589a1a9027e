//! The session handle and the realtime access token.
//!
//! A [`Link`] owns this process's participation in a session: the committed
//! timeline, the enable flags, the peer count, and the three notification
//! slots. Snapshots are captured from it, mutated locally, and committed
//! back through it.
//!
//! A realtime context obtains an [`AudioLink`] by handing the whole `Link`
//! over with [`Link::bind_audio_thread`]. While the token exists the `Link`
//! value is inside it, so no application-path operation on the same handle
//! can even be named — the mutual exclusion of the two access paths is a
//! property of ownership, not of a runtime check — and
//! [`AudioLink::unbind`] gives the handle back unchanged.

use crate::registry::slot_after_clear;
use crate::registry::slot_after_invocation;
use crate::registry::slot_after_register;
use crate::registry::slot_delivers;
use crate::registry::slot_reports_fault;
use crate::registry::CallbackSlot;
use crate::registry::SlotStatus;
use crate::timeline::SessionState;
use crate::timeline::SessionView;
use crate::transport::TransportState;
use vstd::prelude::*;

verus! {

/// Error raised by session operations.
#[derive(Clone, Copy, Debug, Hash, PartialEq, Eq, Structural)]
pub enum LinkError {
    /// The native engine could not allocate an instance or a snapshot,
    /// typically from memory exhaustion.
    AllocationFailed,
}

impl LinkError {
    /// A human-readable description of the error.
    pub fn message(&self) -> (r: &'static str)
        ensures
            r@ == "failed to allocate memory"@,
    {
        "failed to allocate memory"
    }
}

/// The mathematical content of a session handle: the committed timeline and
/// transport target, the participation flags, the peer count, and the state
/// of the three notification slots.
pub ghost struct LinkView {
    pub session: SessionView,
    pub enabled: bool,
    pub transport_sync: bool,
    pub num_peers: int,
    pub peers_slot: SlotStatus,
    pub tempo_slot: SlotStatus,
    pub transport_slot: SlotStatus,
}

impl LinkView {
    /// Well-formedness: the committed timeline is well-formed, the peer
    /// count is a 64-bit value, and the committed snapshot's peer flag
    /// agrees with the count.
    pub open spec fn wf(self) -> bool {
        &&& self.session.wf()
        &&& 0 <= self.num_peers <= u64::MAX as int
        &&& self.session.peers_present == (self.num_peers > 0)
    }

    /// The handle after committing snapshot `s`: the committed timeline and
    /// transport target are replaced as a whole, while the peer flag keeps
    /// tracking the handle's own peer count.
    pub open spec fn after_commit(self, s: SessionView) -> LinkView {
        LinkView {
            session: SessionView { peers_present: self.session.peers_present, ..s },
            ..self
        }
    }
}

/// The state of a freshly created session handle with the given tempo in
/// micro-beats per minute: disabled, solo, transport stopped at time zero,
/// beat zero anchored at time zero, and no callback registered.
pub open spec fn initial_link(tempo: int) -> LinkView {
    LinkView {
        session: SessionView {
            tempo,
            anchor_time: 0,
            anchor_beat: 0,
            transport: TransportState::Stop,
            transport_time: 0,
            peers_present: false,
        },
        enabled: false,
        transport_sync: false,
        num_peers: 0,
        peers_slot: SlotStatus::Vacant,
        tempo_slot: SlotStatus::Vacant,
        transport_slot: SlotStatus::Vacant,
    }
}

/// A session handle: this process's participation in a shared timeline.
///
/// The handle owns the committed timeline state, the enable flags, the peer
/// count, and the three notification slots. The general application path
/// captures and commits snapshots through [`capture_app_session_state`]
/// (Self::capture_app_session_state) and
/// [`commit_app_session_state`](Self::commit_app_session_state); a realtime
/// context instead takes the handle over with
/// [`bind_audio_thread`](Self::bind_audio_thread).
pub struct Link {
    pub(crate) committed: SessionState,
    pub(crate) enabled: bool,
    pub(crate) transport_sync: bool,
    pub(crate) num_peers: u64,
    pub(crate) peers_slot: CallbackSlot,
    pub(crate) tempo_slot: CallbackSlot,
    pub(crate) transport_slot: CallbackSlot,
}

impl View for Link {
    type V = LinkView;

    closed spec fn view(&self) -> LinkView {
        LinkView {
            session: self.committed@,
            enabled: self.enabled,
            transport_sync: self.transport_sync,
            num_peers: self.num_peers as int,
            peers_slot: self.peers_slot@,
            tempo_slot: self.tempo_slot@,
            transport_slot: self.transport_slot@,
        }
    }
}

impl Link {
    /// Creates a session handle with the given initial tempo in micro-beats
    /// per minute.
    ///
    /// The `Result` carries [`LinkError::AllocationFailed`] for engine
    /// integrations whose instance allocation can be refused; the in-memory
    /// session state owned here always allocates, so the contract promises
    /// success, with the handle exactly [`initial_link`].
    pub fn new(tempo: i64) -> (r: Result<Link, LinkError>)
        requires
            1 <= tempo,
        ensures
            r matches Ok(l) && l@ == initial_link(tempo as int),
            r matches Ok(l) ==> l@.wf(),
    {
        Ok(
            Link {
                committed: SessionState::assemble(tempo, 0, 0, TransportState::Stop, 0, false),
                enabled: false,
                transport_sync: false,
                num_peers: 0,
                peers_slot: CallbackSlot::new(),
                tempo_slot: CallbackSlot::new(),
                transport_slot: CallbackSlot::new(),
            },
        )
    }

    /// Starts participating in synchronization.
    pub fn enable(&mut self)
        ensures
            final(self)@ == (LinkView { enabled: true, ..old(self)@ }),
    {
        self.enabled = true;
    }

    /// Stops participating in synchronization.
    pub fn disable(&mut self)
        ensures
            final(self)@ == (LinkView { enabled: false, ..old(self)@ }),
    {
        self.enabled = false;
    }

    /// Sets the participation flag from a variable.
    pub fn set_enabled(&mut self, enabled: bool)
        ensures
            final(self)@ == (LinkView { enabled: enabled, ..old(self)@ }),
    {
        self.enabled = enabled;
    }

    /// Whether the handle is participating in synchronization.
    pub fn is_enabled(&self) -> (r: bool)
        ensures
            r == self@.enabled,
    {
        self.enabled
    }

    /// The number of other participants in the session; zero means solo.
    pub fn num_peers(&self) -> (r: u64)
        ensures
            r as int == self@.num_peers,
    {
        self.num_peers
    }

    /// Whether transport state is shared with peers.
    pub fn is_transport_sync_enabled(&self) -> (r: bool)
        ensures
            r == self@.transport_sync,
    {
        self.transport_sync
    }

    /// Starts sharing transport state with peers. While disabled, transport
    /// state stays fully usable locally; it is simply not broadcast or
    /// received.
    pub fn enable_transport_sync(&mut self)
        ensures
            final(self)@ == (LinkView { transport_sync: true, ..old(self)@ }),
    {
        self.transport_sync = true;
    }

    /// Stops sharing transport state with peers.
    pub fn disable_transport_sync(&mut self)
        ensures
            final(self)@ == (LinkView { transport_sync: false, ..old(self)@ }),
    {
        self.transport_sync = false;
    }

    /// Sets the transport-sync flag from a variable.
    pub fn set_transport_sync_enabled(&mut self, enabled: bool)
        ensures
            final(self)@ == (LinkView { transport_sync: enabled, ..old(self)@ }),
    {
        self.transport_sync = enabled;
    }

    /// Captures the committed session state from the application path.
    ///
    /// The returned snapshot is an independent, single-owner view of the
    /// committed timeline. The `Result` carries
    /// [`LinkError::AllocationFailed`] for engine integrations whose
    /// snapshot allocation can be refused; here capture always succeeds,
    /// and the snapshot is exactly the committed state.
    pub fn capture_app_session_state(&self) -> (r: Result<SessionState, LinkError>)
        ensures
            r matches Ok(s) && s@ == self@.session,
    {
        Ok(self.committed.duplicate())
    }

    /// Commits a snapshot from the application path: the committed timeline
    /// and transport target are replaced as a whole and, once the engine
    /// propagates them, become visible to peers.
    pub fn commit_app_session_state(&mut self, state: &SessionState)
        requires
            old(self)@.wf(),
            state@.wf(),
        ensures
            final(self)@ == old(self)@.after_commit(state@),
            final(self)@.wf(),
    {
        self.committed.copy_content_from(state);
    }

    /// Registers the peer-count callback slot, replacing any previous
    /// callback. Returns whether a fault contained during an earlier
    /// delivery is being reported.
    pub fn set_num_peers_callback(&mut self) -> (prior_fault: bool)
        ensures
            final(self)@ == (LinkView {
                peers_slot: slot_after_register(old(self)@.peers_slot),
                ..old(self)@
            }),
            prior_fault == slot_reports_fault(old(self)@.peers_slot),
    {
        self.peers_slot.register()
    }

    /// Clears the peer-count callback slot. Returns whether a fault
    /// contained during an earlier delivery is being reported.
    pub fn clear_num_peers_callback(&mut self) -> (prior_fault: bool)
        ensures
            final(self)@ == (LinkView {
                peers_slot: slot_after_clear(old(self)@.peers_slot),
                ..old(self)@
            }),
            prior_fault == slot_reports_fault(old(self)@.peers_slot),
    {
        self.peers_slot.clear()
    }

    /// Registers the tempo callback slot, replacing any previous callback.
    /// Returns whether a fault contained during an earlier delivery is
    /// being reported.
    pub fn set_tempo_callback(&mut self) -> (prior_fault: bool)
        ensures
            final(self)@ == (LinkView {
                tempo_slot: slot_after_register(old(self)@.tempo_slot),
                ..old(self)@
            }),
            prior_fault == slot_reports_fault(old(self)@.tempo_slot),
    {
        self.tempo_slot.register()
    }

    /// Clears the tempo callback slot. Returns whether a fault contained
    /// during an earlier delivery is being reported.
    pub fn clear_tempo_callback(&mut self) -> (prior_fault: bool)
        ensures
            final(self)@ == (LinkView {
                tempo_slot: slot_after_clear(old(self)@.tempo_slot),
                ..old(self)@
            }),
            prior_fault == slot_reports_fault(old(self)@.tempo_slot),
    {
        self.tempo_slot.clear()
    }

    /// Registers the transport callback slot, replacing any previous
    /// callback. The callback fires as soon as a peer commits a transport
    /// change, not when the change takes effect; consumers query
    /// [`SessionState::transport_state_time`] for the timing. Returns
    /// whether a fault contained during an earlier delivery is being
    /// reported.
    pub fn set_transport_state_callback(&mut self) -> (prior_fault: bool)
        ensures
            final(self)@ == (LinkView {
                transport_slot: slot_after_register(old(self)@.transport_slot),
                ..old(self)@
            }),
            prior_fault == slot_reports_fault(old(self)@.transport_slot),
    {
        self.transport_slot.register()
    }

    /// Clears the transport callback slot. Returns whether a fault
    /// contained during an earlier delivery is being reported.
    pub fn clear_transport_state_callback(&mut self) -> (prior_fault: bool)
        ensures
            final(self)@ == (LinkView {
                transport_slot: slot_after_clear(old(self)@.transport_slot),
                ..old(self)@
            }),
            prior_fault == slot_reports_fault(old(self)@.transport_slot),
    {
        self.transport_slot.clear()
    }

    /// Applies an engine notification that the peer count changed to `n`:
    /// the count and the committed snapshot's peer flag are updated, and
    /// the peer-count slot records one delivery attempt, `faulted` telling
    /// whether the invoked user code raised a fault that the invocation
    /// boundary contained. Returns whether a callback was present to
    /// invoke.
    pub fn deliver_num_peers_event(&mut self, n: u64, faulted: bool) -> (delivered: bool)
        ensures
            final(self)@ == (LinkView {
                num_peers: n as int,
                session: SessionView { peers_present: n > 0, ..old(self)@.session },
                peers_slot: slot_after_invocation(old(self)@.peers_slot, faulted),
                ..old(self)@
            }),
            delivered == slot_delivers(old(self)@.peers_slot),
    {
        self.num_peers = n;
        self.committed.set_peers_flag(n > 0);
        self.peers_slot.note_invocation(faulted)
    }

    /// Applies an engine notification that the session tempo changed: the
    /// tempo slot records one delivery attempt, `faulted` telling whether
    /// the invoked user code raised a fault that the invocation boundary
    /// contained. The new timeline itself reaches this handle through the
    /// engine's committed state, not through the notification. Returns
    /// whether a callback was present to invoke.
    pub fn deliver_tempo_event(&mut self, faulted: bool) -> (delivered: bool)
        ensures
            final(self)@ == (LinkView {
                tempo_slot: slot_after_invocation(old(self)@.tempo_slot, faulted),
                ..old(self)@
            }),
            delivered == slot_delivers(old(self)@.tempo_slot),
    {
        self.tempo_slot.note_invocation(faulted)
    }

    /// Applies an engine notification that a peer committed a transport
    /// change: the transport slot records one delivery attempt, `faulted`
    /// telling whether the invoked user code raised a fault that the
    /// invocation boundary contained. Returns whether a callback was
    /// present to invoke.
    pub fn deliver_transport_event(&mut self, faulted: bool) -> (delivered: bool)
        ensures
            final(self)@ == (LinkView {
                transport_slot: slot_after_invocation(old(self)@.transport_slot, faulted),
                ..old(self)@
            }),
            delivered == slot_delivers(old(self)@.transport_slot),
    {
        self.transport_slot.note_invocation(faulted)
    }

    /// Hands the handle over to a realtime context.
    ///
    /// The returned token owns the handle, so while it exists no
    /// application-path operation on the same handle can be written at all:
    /// the exclusivity of the two access paths is enforced by ownership at
    /// type-checking time, not by a runtime check. [`AudioLink::unbind`]
    /// returns the handle.
    pub fn bind_audio_thread(self) -> (a: AudioLink)
        ensures
            a@ == self@,
    {
        AudioLink { link: self }
    }
}

/// Transport round trip: scheduling a transport target on a snapshot and
/// committing the snapshot makes the committed session report exactly that
/// target and that instant.
pub proof fn lemma_transport_round_trip(
    l: LinkView,
    s: SessionView,
    st: TransportState,
    t0: int,
)
    ensures
        l.after_commit(s.with_transport(st, t0)).session.transport == st,
        l.after_commit(s.with_transport(st, t0)).session.transport_time == t0,
{
}

/// Solo quantized launch round trip: requesting a beat at an instant on a
/// snapshot captured without peers and committing the snapshot makes the
/// committed timeline report exactly that beat at that instant.
pub proof fn lemma_solo_request_round_trip(l: LinkView, s: SessionView, b: int, at: int, q: int)
    requires
        1 <= s.tempo,
        !s.peers_present,
    ensures
        l.after_commit(s.after_request(b, at, q)).session.beat_at(at) == b,
{
    crate::timeline::lemma_request_when_alone(s, b, at, q);
}

/// A realtime access token: the non-blocking subset of session operations.
///
/// The token owns the [`Link`] it was created from, so application-path
/// capture and commit are unreachable while it exists (the handle value is
/// inside the token). It exposes exactly the operations that are safe in a
/// realtime callback: snapshot capture and commit through the engine's
/// non-blocking entry points, the enable flags, and the peer count.
pub struct AudioLink {
    pub(crate) link: Link,
}

impl View for AudioLink {
    type V = LinkView;

    closed spec fn view(&self) -> LinkView {
        self.link@
    }
}

impl AudioLink {
    /// Ends realtime access and gives the session handle back unchanged.
    pub fn unbind(self) -> (l: Link)
        ensures
            l@ == self@,
    {
        self.link
    }

    /// Whether the handle is participating in synchronization.
    pub fn is_enabled(&self) -> (r: bool)
        ensures
            r == self@.enabled,
    {
        self.link.is_enabled()
    }

    /// The number of other participants in the session; zero means solo.
    pub fn num_peers(&self) -> (r: u64)
        ensures
            r as int == self@.num_peers,
    {
        self.link.num_peers()
    }

    /// Whether transport state is shared with peers.
    pub fn is_transport_sync_enabled(&self) -> (r: bool)
        ensures
            r == self@.transport_sync,
    {
        self.link.is_transport_sync_enabled()
    }

    /// Starts sharing transport state with peers.
    pub fn enable_transport_sync(&mut self)
        ensures
            final(self)@ == (LinkView { transport_sync: true, ..old(self)@ }),
    {
        self.link.enable_transport_sync();
    }

    /// Stops sharing transport state with peers.
    pub fn disable_transport_sync(&mut self)
        ensures
            final(self)@ == (LinkView { transport_sync: false, ..old(self)@ }),
    {
        self.link.disable_transport_sync();
    }

    /// Sets the transport-sync flag from a variable.
    pub fn set_transport_sync_enabled(&mut self, enabled: bool)
        ensures
            final(self)@ == (LinkView { transport_sync: enabled, ..old(self)@ }),
    {
        self.link.set_transport_sync_enabled(enabled);
    }

    /// Captures the committed session state through the engine's
    /// non-blocking entry point; same result as the application path.
    pub fn capture_session_state(&self) -> (r: Result<SessionState, LinkError>)
        ensures
            r matches Ok(s) && s@ == self@.session,
    {
        self.link.capture_app_session_state()
    }

    /// Commits a snapshot through the engine's non-blocking entry point;
    /// same result as the application path.
    pub fn commit_session_state(&mut self, state: &SessionState)
        requires
            old(self)@.wf(),
            state@.wf(),
        ensures
            final(self)@ == old(self)@.after_commit(state@),
            final(self)@.wf(),
    {
        self.link.commit_app_session_state(state);
    }
}

} // verus!
