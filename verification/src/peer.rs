//! Peer-side decisions: classifying inbound traffic, tracking the last
//! heartbeat, and the client's connect/announce/send state machine.

use crate::protocol::RETRY_BACKOFF_MS;
use crate::protocol::heartbeat_marker;
use crate::protocol::is_heartbeat;
use vstd::prelude::*;

verus! {

/// What the peer's receive loop does with one inbound message.
#[derive(Debug, PartialEq, Eq)]
pub enum PeerInbound {
    /// The heartbeat marker: record the arrival time, print nothing.
    Heartbeat,
    /// Anything else: an application message to show to the user.
    Application(String),
}

/// Classifies one inbound message on the peer's connection: exactly the
/// heartbeat marker is recognised as a heartbeat, everything else passes
/// through unchanged as application traffic.
pub fn classify_inbound(msg: String) -> (r: PeerInbound)
    ensures
        msg@ == heartbeat_marker() ==> r is Heartbeat,
        msg@ != heartbeat_marker() ==> (r matches PeerInbound::Application(m) && m == msg),
{
    if is_heartbeat(&msg) {
        PeerInbound::Heartbeat
    } else {
        PeerInbound::Application(msg)
    }
}

/// The peer-side record of when the last heartbeat arrived, in milliseconds
/// of the caller's monotonic clock.  The receive loop writes it, the
/// watchdog reads it.
pub struct HeartbeatClock {
    pub last_heartbeat_ms: u64,
}

/// Milliseconds elapsed from `last_ms` to `now_ms`, saturating at zero if
/// the clock reads earlier than the recorded heartbeat.
pub open spec fn elapsed_ms(last_ms: u64, now_ms: u64) -> int {
    if now_ms >= last_ms {
        now_ms - last_ms
    } else {
        0
    }
}

impl HeartbeatClock {
    /// Starts the clock as if a heartbeat had just arrived, as a peer does
    /// when it starts up.
    pub fn new(now_ms: u64) -> (c: HeartbeatClock)
        ensures
            c.last_heartbeat_ms == now_ms,
    {
        HeartbeatClock { last_heartbeat_ms: now_ms }
    }

    /// Records a heartbeat observed at `now_ms`.
    pub fn observe_heartbeat(&mut self, now_ms: u64)
        ensures
            final(self).last_heartbeat_ms == now_ms,
    {
        self.last_heartbeat_ms = now_ms;
    }
}

/// True while the supernode is considered alive: strictly less than the
/// timeout (two heartbeat cycles) has elapsed since the last heartbeat.
pub fn check_supernode_alive(clock: &HeartbeatClock, now_ms: u64) -> (alive: bool)
    ensures
        alive == (elapsed_ms(clock.last_heartbeat_ms, now_ms)
            < crate::protocol::HEARTBEAT_TIMEOUT_MS),
{
    if now_ms >= clock.last_heartbeat_ms {
        now_ms - clock.last_heartbeat_ms < crate::protocol::HEARTBEAT_TIMEOUT_MS
    } else {
        true
    }
}

/// The peer client's control state: trying to reach the supernode, or
/// connected and exchanging traffic.
#[derive(Clone, Copy, Debug, PartialEq, Eq)]
pub enum ClientState {
    Connecting,
    Active,
}

/// What the peer client observed.
#[derive(Debug, PartialEq, Eq)]
pub enum ClientEvent {
    /// The outbound connect succeeded; carries the local endpoint's own
    /// address, which the supernode will use as the registry key.
    ConnectSucceeded(String),
    /// The outbound connect failed.
    ConnectFailed,
    /// The send-loop period elapsed.
    SendTick,
    /// A write on the established connection failed.
    SendFailed,
    /// A read on the established connection failed.
    RecvFailed,
}

/// What the peer client must do next.
#[derive(Debug, PartialEq, Eq)]
pub enum ClientAction {
    /// Write the node's own address as the first message.
    Announce(String),
    /// Wait this many milliseconds, then attempt to connect again.
    RetryAfter(u64),
    /// Write the application payload to the connection.
    SendPayload,
    /// Stop the receive loop only; a receive failure alone never triggers a
    /// reconnect.
    StopReceiving,
    /// Nothing to do.
    Idle,
}

/// The transition function of the peer client.
///
/// A failed connect is retried indefinitely after a fixed backoff that never
/// grows; a successful connect announces the node's own address; a failed
/// send abandons the connection and goes back to connecting; a failed read
/// only ends the receive loop.
pub open spec fn client_step_spec(state: ClientState, event: ClientEvent) -> (ClientState,
    ClientAction) {
    match (state, event) {
        (ClientState::Connecting, ClientEvent::ConnectSucceeded(addr)) => (
            ClientState::Active,
            ClientAction::Announce(addr),
        ),
        (ClientState::Connecting, ClientEvent::ConnectFailed) => (
            ClientState::Connecting,
            ClientAction::RetryAfter(RETRY_BACKOFF_MS),
        ),
        (ClientState::Active, ClientEvent::SendTick) => (
            ClientState::Active,
            ClientAction::SendPayload,
        ),
        (ClientState::Active, ClientEvent::SendFailed) => (
            ClientState::Connecting,
            ClientAction::RetryAfter(RETRY_BACKOFF_MS),
        ),
        (ClientState::Active, ClientEvent::RecvFailed) => (
            ClientState::Active,
            ClientAction::StopReceiving,
        ),
        (s, _) => (s, ClientAction::Idle),
    }
}

/// Runs one transition of the peer client.
pub fn client_step(state: ClientState, event: ClientEvent) -> (r: (ClientState, ClientAction))
    ensures
        r == client_step_spec(state, event),
{
    match (state, event) {
        (ClientState::Connecting, ClientEvent::ConnectSucceeded(addr)) => (
            ClientState::Active,
            ClientAction::Announce(addr),
        ),
        (ClientState::Connecting, ClientEvent::ConnectFailed) => (
            ClientState::Connecting,
            ClientAction::RetryAfter(RETRY_BACKOFF_MS),
        ),
        (ClientState::Active, ClientEvent::SendTick) => (
            ClientState::Active,
            ClientAction::SendPayload,
        ),
        (ClientState::Active, ClientEvent::SendFailed) => (
            ClientState::Connecting,
            ClientAction::RetryAfter(RETRY_BACKOFF_MS),
        ),
        (ClientState::Active, ClientEvent::RecvFailed) => (
            ClientState::Active,
            ClientAction::StopReceiving,
        ),
        (s, _) => (s, ClientAction::Idle),
    }
}

/// The client state after consuming `events` from `state`, in order.
pub open spec fn client_run(state: ClientState, events: Seq<ClientEvent>) -> ClientState
    decreases events.len(),
{
    if events.len() == 0 {
        state
    } else {
        client_run(client_step_spec(state, events[0]).0, events.drop_first())
    }
}

/// Retry liveness: however many connect attempts fail in a row, the client
/// stays in `Connecting`, each failure scheduling exactly one more attempt
/// after the fixed backoff; the first successful connect then makes the
/// client `Active` and announces the node's own address.
pub proof fn lemma_retry_liveness(failures: Seq<ClientEvent>, local_addr: String)
    requires
        forall|i: int| 0 <= i < failures.len() ==> (#[trigger] failures[i]) is ConnectFailed,
    ensures
        client_run(ClientState::Connecting, failures) is Connecting,
        forall|i: int|
            0 <= i < failures.len() ==> client_step_spec(
                ClientState::Connecting,
                #[trigger] failures[i],
            ).1 == ClientAction::RetryAfter(RETRY_BACKOFF_MS),
        client_step_spec(
            client_run(ClientState::Connecting, failures),
            ClientEvent::ConnectSucceeded(local_addr),
        ) == (ClientState::Active, ClientAction::Announce(local_addr)),
    decreases failures.len(),
{
    if failures.len() > 0 {
        assert(failures[0] is ConnectFailed);
        assert forall|i: int|
            0 <= i < failures.drop_first().len() implies (#[trigger] failures.drop_first()[i]) is ConnectFailed by {
            assert(failures.drop_first()[i] == failures[i + 1]);
        }
        lemma_retry_liveness(failures.drop_first(), local_addr);
    }
}

} // verus!
