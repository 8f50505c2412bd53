//! The connectivity supervisor: a retrying state machine that keeps the
//! wireless station link alive.
//!
//! The supervisor runs forever, concurrently with and independent of the
//! LED subsystem.  Its loop body is pure decision logic and lives here;
//! the surrounding application performs the fallible radio calls and the
//! cooperative waits, and feeds the outcomes back in as plain booleans.
//! One iteration goes: poll the link status; when the link is up, settle
//! into `Connected` and wait one heartbeat interval; otherwise enter
//! `Connecting`, apply the station credentials and request a radio
//! start.  A start failure is non-fatal but ends the iteration: the
//! start is re-attempted right away on the next loop, with no backoff.
//! After a successful start the connection is requested — on failure
//! wait one backoff interval and retry, on success settle into
//! `Connected`.

use vstd::prelude::*;

verus! {

/// How long the supervisor rests between link checks once the link is
/// up, in microseconds: a steady-state heartbeat, not a tight spin.
pub const HEARTBEAT_INTERVAL_MICROS: u64 = 5_000_000;

/// How long the supervisor backs off after a failed connection attempt,
/// in microseconds.
pub const CONNECT_BACKOFF_MICROS: u64 = 2_000_000;

/// The connection state, owned exclusively by the supervisor and mutated
/// only by its own loop.
#[derive(Clone, Copy, PartialEq, Eq, Structural, Debug)]
pub enum ConnectionState {
    Disconnected,
    Connecting,
    Connected,
}

/// What the application must do next on the supervisor's behalf.
#[derive(Clone, Copy, PartialEq, Eq, Structural, Debug)]
pub enum SupervisorAction {
    /// The link is up: wait [`HEARTBEAT_INTERVAL_MICROS`], then poll again.
    Heartbeat,
    /// The link is down: apply the station credentials, request a radio
    /// start, and report its outcome back.
    Attempt,
    /// The radio start succeeded: request the connection and report its
    /// outcome back.
    Connect,
    /// The radio start failed: end this iteration and re-attempt the
    /// start right away on the next one, with no wait.
    Retry,
    /// A connection attempt failed: wait [`CONNECT_BACKOFF_MICROS`], then
    /// poll again.
    Backoff,
    /// A connection attempt succeeded: poll again right away.
    Proceed,
}

/// The state a link poll leads to: `Connected` when the link reports up,
/// otherwise `Connecting` (an attempt is about to start).
pub open spec fn spec_poll_state(link_up: bool) -> ConnectionState {
    if link_up {
        ConnectionState::Connected
    } else {
        ConnectionState::Connecting
    }
}

/// The state a connection attempt's outcome leads to: `Connected` on
/// success, otherwise back to `Connecting` for the next round.
pub open spec fn spec_connect_state(ok: bool) -> ConnectionState {
    if ok {
        ConnectionState::Connected
    } else {
        ConnectionState::Connecting
    }
}

/// One full loop iteration, starting from a link poll: when the link is
/// up the iteration ends in `Connected` without an attempt; when it is
/// down, the iteration runs an attempt.  A failed start ends the
/// iteration right there, still `Connecting`; after a successful start
/// the iteration ends in the state the connection outcome leads to.
pub open spec fn spec_cycle(link_up: bool, start_ok: bool, connect_ok: bool) -> ConnectionState {
    if link_up {
        spec_poll_state(true)
    } else if !start_ok {
        spec_poll_state(false)
    } else {
        spec_connect_state(connect_ok)
    }
}

/// Retry law: an iteration reaches `Connected` exactly when the link was
/// already up or the attempt went through whole — the start and then the
/// connection both succeeded.  With a link that stays down and attempts
/// that keep failing, every iteration ends in `Connecting` and asks only
/// for a finite wait (none at all after a failed start, one backoff
/// after a failed connection) — the supervisor never reaches `Connected`
/// and never stops retrying.
pub proof fn lemma_cycle_connects_iff_link_or_attempt(link_up: bool, start_ok: bool, connect_ok: bool)
    ensures
        spec_cycle(link_up, start_ok, connect_ok) is Connected <==> link_up || (start_ok
            && connect_ok),
        !link_up && !(start_ok && connect_ok) ==> spec_cycle(link_up, start_ok, connect_ok)
            is Connecting,
{
}

/// The retrying state machine itself.
pub struct ConnectivitySupervisor {
    /// The current connection state.
    pub state: ConnectionState,
}

impl ConnectivitySupervisor {
    /// A supervisor starts out disconnected.
    pub fn new() -> (s: Self)
        ensures
            s.state is Disconnected,
    {
        ConnectivitySupervisor { state: ConnectionState::Disconnected }
    }

    /// Start one loop iteration from the current link status.  When the
    /// link is up the supervisor settles into `Connected` and rests for a
    /// heartbeat; otherwise it enters `Connecting` and asks the
    /// application to begin a connection attempt.
    pub fn poll_link(&mut self, link_up: bool) -> (action: SupervisorAction)
        ensures
            final(self).state == spec_poll_state(link_up),
            link_up ==> action is Heartbeat,
            !link_up ==> action is Attempt,
    {
        if link_up {
            self.state = ConnectionState::Connected;
            SupervisorAction::Heartbeat
        } else {
            self.state = ConnectionState::Connecting;
            SupervisorAction::Attempt
        }
    }

    /// Record the outcome of the radio start request.  On success the
    /// iteration goes on to the connection request.  A start failure is
    /// non-fatal but ends the iteration: the supervisor stays in
    /// `Connecting` and the start is re-attempted right away on the next
    /// loop, with no backoff.
    pub fn on_start_result(&mut self, started: bool) -> (action: SupervisorAction)
        requires
            old(self).state is Connecting,
        ensures
            final(self).state == old(self).state,
            started ==> action is Connect,
            !started ==> action is Retry,
    {
        if started {
            SupervisorAction::Connect
        } else {
            SupervisorAction::Retry
        }
    }

    /// Record the outcome of the connection request.  On success the
    /// supervisor settles into `Connected` and polling resumes right
    /// away; on failure it stays in `Connecting` and asks for a backoff
    /// wait before the next iteration.
    pub fn on_connect_result(&mut self, connected: bool) -> (action: SupervisorAction)
        requires
            old(self).state is Connecting,
        ensures
            final(self).state == spec_connect_state(connected),
            connected ==> action is Proceed,
            !connected ==> action is Backoff,
    {
        if connected {
            self.state = ConnectionState::Connected;
            SupervisorAction::Proceed
        } else {
            SupervisorAction::Backoff
        }
    }
}

} // verus!
