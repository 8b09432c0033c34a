//! The decisions of one client session.
//!
//! A session owns one accepted connection. The code that owns the socket
//! reads packets, keeps a timer and runs builds; after each such event it asks
//! the session what to do next. The session itself performs no I/O.

use vstd::prelude::*;
use crate::admission::{AdmissionController, Permit};
use crate::build_context::BuildContext;
use crate::build_status::BuildStatus;
use crate::error::drop_errors_or_default;
use crate::packet::{Packet, QueueInfo};
use crate::tagged::Tagged;

verus! {

/// Seconds between two heartbeats that the session sends.
pub const HEARTBEAT_INTERVAL_SECS: u64 = 30;

/// Seconds of silence after which the peer counts as dead: one and a half
/// heartbeat intervals.
pub const HEARTBEAT_TIMEOUT_SECS: u64 = 45;

/// Milliseconds to wait before reading again when no packet was available.
pub const IDLE_POLL_MILLIS: u64 = 50;

/// Where a session stands in its life.
#[derive(Debug, Clone, Copy, PartialEq, Eq, Structural)]
pub enum SessionPhase {
    /// Accepted, not yet started.
    Open,
    /// Reading packets, sending heartbeats, running builds.
    Running,
    /// No longer reading or writing; builds that were started still run.
    Draining,
    /// Nothing is left to do.
    Closed,
}

/// The mathematical state of a session.
pub struct SessionState {
    pub phase: SessionPhase,
    /// The time, in seconds, at which the peer was last heard.
    pub last_heartbeat: u64,
    /// The time at which the session last sent a heartbeat of its own, if it
    /// has sent one.
    pub last_sent: Option<u64>,
    /// The identifiers of the builds that were started and have not finished.
    pub in_flight: Seq<u128>,
}

/// Seconds from `last` to `now`; zero if the clock went backwards.
pub open spec fn elapsed(last: u64, now: u64) -> int {
    if now >= last {
        now - last
    } else {
        0
    }
}

/// `ids` without the first occurrence of `id`.
pub open spec fn without_first(ids: Seq<u128>, id: u128) -> Seq<u128>
    decreases ids.len(),
{
    if ids.len() == 0 {
        ids
    } else if ids[0] == id {
        ids.drop_first()
    } else {
        seq![ids[0]] + without_first(ids.drop_first(), id)
    }
}

impl SessionState {
    /// A closed or unstarted session has no build in flight.
    pub open spec fn wf(self) -> bool {
        (self.phase == SessionPhase::Open || self.phase == SessionPhase::Closed)
            ==> self.in_flight.len() == 0
    }

    /// The session after it starts: an open session runs, with the peer last
    /// heard at `now`.
    pub open spec fn started(self, now: u64) -> SessionState {
        if self.phase == SessionPhase::Open {
            SessionState {
                phase: SessionPhase::Running,
                last_heartbeat: now,
                last_sent: None,
                in_flight: self.in_flight,
            }
        } else {
            self
        }
    }

    /// The session after it stops reading and writing: it drains while builds
    /// are in flight and is closed once none is.
    pub open spec fn stopped(self) -> SessionState {
        SessionState {
            phase: if self.in_flight.len() == 0 {
                SessionPhase::Closed
            } else {
                SessionPhase::Draining
            },
            last_heartbeat: self.last_heartbeat,
            last_sent: self.last_sent,
            in_flight: self.in_flight,
        }
    }

    /// The session after a heartbeat arrives at `now`: only the time at which
    /// the peer was last heard changes.
    pub open spec fn heard(self, now: u64) -> SessionState {
        if self.phase == SessionPhase::Running {
            SessionState {
                phase: self.phase,
                last_heartbeat: now,
                last_sent: self.last_sent,
                in_flight: self.in_flight,
            }
        } else {
            self
        }
    }

    /// The session after a request with identifier `id` arrives while
    /// `available` permits are free.
    pub open spec fn requested(self, id: u128, available: int) -> SessionState {
        if self.phase == SessionPhase::Running && available > 0 {
            SessionState {
                phase: self.phase,
                last_heartbeat: self.last_heartbeat,
                last_sent: self.last_sent,
                in_flight: self.in_flight.push(id),
            }
        } else {
            self
        }
    }

    /// The peer has been silent for too long at `now`.
    pub open spec fn timed_out(self, now: u64) -> bool {
        elapsed(self.last_heartbeat, now) > HEARTBEAT_TIMEOUT_SECS
    }

    /// A heartbeat of the session's own is due at `now`: none was sent yet,
    /// or the last one went out a whole interval ago.
    pub open spec fn send_due(self, now: u64) -> bool {
        match self.last_sent {
            None => true,
            Some(sent) => elapsed(sent, now) >= HEARTBEAT_INTERVAL_SECS,
        }
    }

    /// What the heartbeat timer does when it fires at `now`. The liveness
    /// check comes first: a peer that has been silent for too long is dead,
    /// whether or not a heartbeat is due.
    pub open spec fn tick_action(self, now: u64) -> TickAction {
        if self.phase != SessionPhase::Running {
            TickAction::Stop
        } else if self.timed_out(now) {
            TickAction::Expire
        } else if self.send_due(now) {
            TickAction::SendHeartbeat
        } else {
            TickAction::Wait
        }
    }

    /// The session after the heartbeat timer fires at `now`.
    pub open spec fn ticked(self, now: u64) -> SessionState {
        match self.tick_action(now) {
            TickAction::Expire => self.stopped(),
            TickAction::SendHeartbeat => SessionState {
                phase: self.phase,
                last_heartbeat: self.last_heartbeat,
                last_sent: Some(now),
                in_flight: self.in_flight,
            },
            _ => self,
        }
    }

    /// Seconds from `now` until the next heartbeat of the session's own is
    /// due.
    pub open spec fn send_delay(self, now: u64) -> int {
        match self.last_sent {
            None => 0,
            Some(sent) => if elapsed(sent, now) >= HEARTBEAT_INTERVAL_SECS {
                0
            } else {
                HEARTBEAT_INTERVAL_SECS - elapsed(sent, now)
            },
        }
    }

    /// Seconds from `now` until the peer, if it stays silent, counts as dead.
    pub open spec fn expiry_delay(self, now: u64) -> int {
        if self.timed_out(now) {
            0
        } else {
            HEARTBEAT_TIMEOUT_SECS + 1 - elapsed(self.last_heartbeat, now)
        }
    }

    /// Seconds from `now` until the heartbeat timer must fire again: when
    /// the next heartbeat is due or when the silent peer would count as
    /// dead, whichever comes first. A session that does not run is due at
    /// once, to stop its timer.
    pub open spec fn next_tick_in(self, now: u64) -> int {
        if self.phase != SessionPhase::Running {
            0
        } else if self.send_delay(now) <= self.expiry_delay(now) {
            self.send_delay(now)
        } else {
            self.expiry_delay(now)
        }
    }

    /// The session after the build with identifier `id` finishes.
    pub open spec fn finished(self, id: u128) -> SessionState {
        let rest = without_first(self.in_flight, id);
        SessionState {
            phase: if self.phase == SessionPhase::Draining && rest.len() == 0 {
                SessionPhase::Closed
            } else {
                self.phase
            },
            last_heartbeat: self.last_heartbeat,
            last_sent: self.last_sent,
            in_flight: rest,
        }
    }

    /// Whether the outcome of the build with identifier `id` is still sent to
    /// the peer: the session runs and has that build in flight.
    pub open spec fn answers(self, id: u128) -> bool {
        self.phase == SessionPhase::Running && self.in_flight.contains(id)
    }
}

/// Heartbeats change nothing but the time at which the peer was last heard:
/// after two in a row the session is what one heartbeat at the later time
/// would have made it, with the same phase and the same builds in flight.
pub proof fn lemma_heartbeats_move_only_the_clock(state: SessionState, first: u64, second: u64)
    ensures
        state.heard(first).heard(second) == state.heard(second),
        state.heard(first).phase == state.phase,
        state.heard(first).in_flight == state.in_flight,
        state.heard(first).heard(second).phase == state.phase,
        state.heard(first).heard(second).in_flight == state.in_flight,
{
}

/// No transition leaves builds in flight in a session that is closed or has
/// not started.
pub proof fn lemma_transitions_keep_sessions_well_formed(
    state: SessionState,
    now: u64,
    id: u128,
    available: int,
)
    requires
        state.wf(),
    ensures
        state.started(now).wf(),
        state.stopped().wf(),
        state.heard(now).wf(),
        state.requested(id, available).wf(),
        state.ticked(now).wf(),
        state.finished(id).wf(),
{
    lemma_without_first_shrinks(state.in_flight, id);
}

/// The liveness check is due in time. While the session runs and its clock
/// does not go back, the timer is asked to fire again no later than the
/// second at which a silent peer counts as dead, and at least every
/// heartbeat interval; it is asked to fire at once exactly when something is
/// due. From that second on, a peer that has stayed silent is expired
/// whenever the timer fires.
pub proof fn lemma_silent_peer_is_dropped_in_time(state: SessionState, now: u64, later: u64)
    requires
        state.phase == SessionPhase::Running,
        state.last_heartbeat <= now,
        later > state.last_heartbeat + HEARTBEAT_TIMEOUT_SECS,
    ensures
        now + state.next_tick_in(now) <= state.last_heartbeat + HEARTBEAT_TIMEOUT_SECS + 1 || state.timed_out(
            now,
        ),
        0 <= state.next_tick_in(now) <= HEARTBEAT_INTERVAL_SECS,
        state.next_tick_in(now) == 0 <==> state.tick_action(now) != TickAction::Wait,
        state.tick_action(later) == TickAction::Expire,
        state.ticked(later).phase != SessionPhase::Running,
{
}

/// The position of a phase in a session's life.
pub open spec fn stage_of(phase: SessionPhase) -> int {
    match phase {
        SessionPhase::Open => 0,
        SessionPhase::Running => 1,
        SessionPhase::Draining => 2,
        SessionPhase::Closed => 3,
    }
}

/// A session only moves forward: from open to running to draining to closed,
/// never back.
pub proof fn lemma_sessions_only_move_forward(
    state: SessionState,
    now: u64,
    id: u128,
    available: int,
)
    requires
        state.wf(),
    ensures
        stage_of(state.started(now).phase) >= stage_of(state.phase),
        stage_of(state.stopped().phase) >= stage_of(state.phase),
        stage_of(state.heard(now).phase) >= stage_of(state.phase),
        stage_of(state.requested(id, available).phase) >= stage_of(state.phase),
        stage_of(state.ticked(now).phase) >= stage_of(state.phase),
        stage_of(state.finished(id).phase) >= stage_of(state.phase),
{
}

/// A request that was turned away gets no response: unless a build with the
/// same identifier was already in flight, the session does not answer for it.
pub proof fn lemma_refused_request_gets_no_response(state: SessionState, id: u128)
    requires
        !state.in_flight.contains(id),
    ensures
        !state.requested(id, 0).answers(id),
{
}

/// Once the peer has timed out, the session sends no further response, for
/// any build.
pub proof fn lemma_no_response_after_timeout(state: SessionState, now: u64, id: u128)
    requires
        state.phase == SessionPhase::Running,
        state.timed_out(now),
    ensures
        state.ticked(now).phase != SessionPhase::Running,
        !state.ticked(now).answers(id),
        !state.ticked(now).finished(id).answers(id),
{
}

/// Removing an occurrence never adds an element.
proof fn lemma_without_first_shrinks(ids: Seq<u128>, id: u128)
    ensures
        without_first(ids, id).len() <= ids.len(),
    decreases ids.len(),
{
    if ids.len() > 0 && ids[0] != id {
        lemma_without_first_shrinks(ids.drop_first(), id);
    }
}

/// What to do after a packet was handled.
#[derive(Debug)]
pub enum Reaction {
    /// A heartbeat was noted. Nothing is sent.
    Noted,
    /// The request was admitted: send `ack`, then run the build on `request`
    /// and hand `permit` back when it has finished.
    Admitted { ack: Packet, request: Tagged<BuildContext>, permit: Permit },
    /// The request was turned away: send `ack`. No build runs and no response
    /// will follow; the client may submit again.
    Refused { ack: Packet },
    /// The packet has no place in a session: stop reading and close.
    Violation,
    /// The session is not running; the packet was dropped.
    Dropped,
}

/// What to do when the heartbeat timer fires.
#[derive(Debug, Clone, Copy, PartialEq, Eq, Structural)]
pub enum TickAction {
    /// Send a heartbeat packet.
    SendHeartbeat,
    /// The peer is dead: close the connection.
    Expire,
    /// Nothing is due yet: wait and ask again.
    Wait,
    /// The session is not running: stop the timer.
    Stop,
}

/// What to do after an attempt to read a packet.
#[derive(Debug)]
pub enum ReadOutcome {
    /// A packet arrived: handle it.
    Received(Packet),
    /// Nothing was available: wait [`IDLE_POLL_MILLIS`] and read again.
    Idle,
    /// The stream is broken or the bytes made no packet: stop reading.
    Failed,
}

/// Sorts the result of a read attempt into what the ingress loop does next.
pub fn classify_read<E>(read: Result<Option<Packet>, E>) -> (outcome: ReadOutcome)
    ensures
        match read {
            Ok(Some(packet)) => outcome == ReadOutcome::Received(packet),
            Ok(None) => outcome is Idle,
            Err(_) => outcome is Failed,
        },
{
    match read {
        Ok(Some(packet)) => ReadOutcome::Received(packet),
        Ok(None) => ReadOutcome::Idle,
        Err(_) => ReadOutcome::Failed,
    }
}

/// Seconds from `last` to `now`; zero if the clock went backwards.
fn seconds_between(last: u64, now: u64) -> (seconds: u64)
    ensures
        seconds == elapsed(last, now),
{
    if now >= last {
        now - last
    } else {
        0
    }
}

/// The acknowledgement of the request with identifier `id`.
pub open spec fn acknowledgement(id: u128, accepted: bool, available: int) -> Packet {
    Packet::Acknowledge(
        Tagged { uuid: id, inner: QueueInfo { accepted, slots_available: available as usize } },
    )
}

/// The server side of one accepted connection.
#[derive(Debug)]
pub struct Session {
    phase: SessionPhase,
    last_heartbeat: u64,
    last_sent: Option<u64>,
    in_flight: Vec<u128>,
}

impl View for Session {
    type V = SessionState;

    closed spec fn view(&self) -> SessionState {
        SessionState {
            phase: self.phase,
            last_heartbeat: self.last_heartbeat,
            last_sent: self.last_sent,
            in_flight: self.in_flight@,
        }
    }
}

impl Session {
    /// A session for a connection accepted at `now` (in seconds).
    pub fn new(now: u64) -> (session: Session)
        ensures
            session@ == (SessionState {
                phase: SessionPhase::Open,
                last_heartbeat: now,
                last_sent: None,
                in_flight: Seq::empty(),
            }),
    {
        Session {
            phase: SessionPhase::Open,
            last_heartbeat: now,
            last_sent: None,
            in_flight: Vec::new(),
        }
    }

    /// Where the session stands.
    pub fn phase(&self) -> (phase: SessionPhase)
        ensures
            phase == self@.phase,
    {
        self.phase
    }

    /// The number of builds that were started and have not finished.
    pub fn builds_in_flight(&self) -> (n: usize)
        ensures
            n == self@.in_flight.len(),
    {
        self.in_flight.len()
    }

    /// Starts the session's activities.
    pub fn start(&mut self, now: u64)
        ensures
            final(self)@ == old(self)@.started(now),
    {
        if self.phase == SessionPhase::Open {
            self.phase = SessionPhase::Running;
            self.last_heartbeat = now;
            self.last_sent = None;
        }
    }

    /// Stops reading and writing, as after a broken stream or a failed write.
    /// Builds in flight run on; their outcomes are discarded.
    pub fn stop(&mut self)
        ensures
            final(self)@ == old(self)@.stopped(),
    {
        if self.in_flight.len() == 0 {
            self.phase = SessionPhase::Closed;
        } else {
            self.phase = SessionPhase::Draining;
        }
    }

    /// Handles a packet that arrived at `now`.
    ///
    /// A request is always acknowledged at once, admitted or not; the
    /// acknowledgement carries the capacity that was free before the decision.
    /// A heartbeat only moves the time at which the peer was last heard. Any
    /// other packet is a protocol violation and ends the session.
    pub fn on_packet(
        &mut self,
        packet: Packet,
        now: u64,
        limiter: &mut AdmissionController,
    ) -> (reaction: Reaction)
        ensures
            old(self)@.phase != SessionPhase::Running ==> reaction is Dropped && final(self)@ == old(
                self,
            )@ && final(limiter)@ == old(limiter)@,
            old(self)@.phase == SessionPhase::Running ==> match packet {
                Packet::Request(request) => {
                    let available = old(limiter)@.available();
                    &&& final(limiter)@ == old(limiter)@.acquire()
                    &&& final(self)@ == old(self)@.requested(request.uuid, available)
                    &&& if available > 0 {
                        &&& reaction matches Reaction::Admitted { ack, request: admitted, .. }
                        &&& ack == acknowledgement(request.uuid, true, available)
                        &&& admitted == request
                    } else {
                        &&& reaction matches Reaction::Refused { ack }
                        &&& ack == acknowledgement(request.uuid, false, available)
                    }
                },
                Packet::Heartbeat => {
                    &&& reaction is Noted
                    &&& final(self)@ == old(self)@.heard(now)
                    &&& final(limiter)@ == old(limiter)@
                },
                _ => {
                    &&& reaction is Violation
                    &&& final(self)@ == old(self)@.stopped()
                    &&& final(limiter)@ == old(limiter)@
                },
            },
    {
        if self.phase != SessionPhase::Running {
            return Reaction::Dropped;
        }
        match packet {
            Packet::Request(request) => {
                let slots_available = limiter.available();
                let granted = limiter.try_acquire();
                match granted {
                    Some(permit) => {
                        let ack = Packet::Acknowledge(
                            request.fork(QueueInfo { accepted: true, slots_available }),
                        );
                        self.in_flight.push(request.uuid);
                        Reaction::Admitted { ack, request, permit }
                    },
                    None => {
                        let ack = Packet::Acknowledge(
                            request.fork(QueueInfo { accepted: false, slots_available }),
                        );
                        Reaction::Refused { ack }
                    },
                }
            },
            Packet::Heartbeat => {
                self.last_heartbeat = now;
                Reaction::Noted
            },
            _ => {
                self.stop();
                Reaction::Violation
            },
        }
    }

    /// Decides what the heartbeat timer does when it fires at `now`. A peer
    /// that has been silent for more than [`HEARTBEAT_TIMEOUT_SECS`] is dead
    /// and the session stops. Otherwise a heartbeat is sent if the last one
    /// went out a whole [`HEARTBEAT_INTERVAL_SECS`] ago, and nothing is done
    /// if the timer fired early.
    pub fn on_tick(&mut self, now: u64) -> (action: TickAction)
        ensures
            final(self)@ == old(self)@.ticked(now),
            action == old(self)@.tick_action(now),
    {
        if self.phase != SessionPhase::Running {
            return TickAction::Stop;
        }
        if seconds_between(self.last_heartbeat, now) > HEARTBEAT_TIMEOUT_SECS {
            self.stop();
            return TickAction::Expire;
        }
        let due = match self.last_sent {
            None => true,
            Some(sent) => seconds_between(sent, now) >= HEARTBEAT_INTERVAL_SECS,
        };
        if due {
            self.last_sent = Some(now);
            TickAction::SendHeartbeat
        } else {
            TickAction::Wait
        }
    }

    /// The number of seconds after which the heartbeat timer must fire again:
    /// when the next heartbeat is due or when a silent peer would count as
    /// dead, whichever comes first.
    pub fn next_tick_in(&self, now: u64) -> (delay: u64)
        ensures
            delay == self@.next_tick_in(now),
    {
        if self.phase != SessionPhase::Running {
            return 0;
        }
        let silent = seconds_between(self.last_heartbeat, now);
        let expiry: u64 = if silent > HEARTBEAT_TIMEOUT_SECS {
            0
        } else {
            HEARTBEAT_TIMEOUT_SECS + 1 - silent
        };
        let send: u64 = match self.last_sent {
            None => 0,
            Some(sent) => {
                let since = seconds_between(sent, now);
                if since >= HEARTBEAT_INTERVAL_SECS {
                    0
                } else {
                    HEARTBEAT_INTERVAL_SECS - since
                }
            },
        };
        if send <= expiry {
            send
        } else {
            expiry
        }
    }

    /// Takes the outcome of the build that was started for `request` and
    /// returns its permit. A failed build is reported as the default status,
    /// so that one fault never takes the session down.
    ///
    /// Returns the response to send, or `None` where the outcome is
    /// discarded: the session no longer runs, or it never started this build.
    pub fn on_build_finished<T, E: core::fmt::Debug>(
        &mut self,
        request: &Tagged<T>,
        outcome: Result<BuildStatus, E>,
        permit: Permit,
        limiter: &mut AdmissionController,
    ) -> (response: Option<Packet>)
        ensures
            final(limiter)@ == old(limiter)@.release(),
            final(self)@ == old(self)@.finished(request.uuid),
            response is Some <==> old(self)@.answers(request.uuid),
            response is Some ==> {
                &&& response->0 matches Packet::Response(tagged)
                &&& tagged.uuid == request.uuid
                &&& outcome matches Ok(status) ==> tagged.inner == status
                &&& outcome is Err ==> tagged.inner == BuildStatus::LowLevelError
            },
    {
        limiter.release(permit);
        let n = self.in_flight.len();
        let mut i: usize = 0;
        while i < n && self.in_flight[i] != request.uuid
            invariant
                n == self.in_flight@.len(),
                i <= n,
                *self == *old(self),
                forall|k: int| 0 <= k < i ==> self.in_flight@[k] != request.uuid,
            decreases n - i,
        {
            i = i + 1;
        }
        proof {
            lemma_without_first(self.in_flight@, request.uuid, i as int);
        }
        if i == n {
            if self.phase == SessionPhase::Draining && n == 0 {
                self.phase = SessionPhase::Closed;
            }
            return None;
        }
        self.in_flight.remove(i);
        if self.phase == SessionPhase::Running {
            Some(Packet::Response(request.fork(drop_errors_or_default(outcome))))
        } else {
            if self.phase == SessionPhase::Draining && self.in_flight.len() == 0 {
                self.phase = SessionPhase::Closed;
            }
            None
        }
    }
}

/// Removing the first occurrence of `id` removes the element at the first
/// position that holds it, and nothing if no position does.
proof fn lemma_without_first(ids: Seq<u128>, id: u128, i: int)
    requires
        0 <= i <= ids.len(),
        forall|k: int| 0 <= k < i ==> ids[k] != id,
        i < ids.len() ==> ids[i] == id,
    ensures
        without_first(ids, id) == if i < ids.len() {
            ids.remove(i)
        } else {
            ids
        },
        i == ids.len() ==> !ids.contains(id),
    decreases ids.len(),
{
    if ids.len() > 0 && i > 0 {
        lemma_without_first(ids.drop_first(), id, i - 1);
    }
}

} // verus!
