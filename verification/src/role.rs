//! Role selection: leader election by binding the rendezvous address, and
//! the failover watchdog that promotes a peer when the supernode goes quiet.

use crate::peer::HeartbeatClock;
use crate::peer::check_supernode_alive;
use crate::peer::elapsed_ms;
use crate::protocol::HEARTBEAT_TIMEOUT_MS;
use vstd::prelude::*;

verus! {

/// A node is in exactly one of these modes at any time.  A peer may be
/// promoted to supernode; a supernode never demotes.
#[derive(Clone, Copy, Debug, PartialEq, Eq)]
pub enum Role {
    Supernode,
    Peer,
}

/// The role a bind attempt on the rendezvous address decides.  Binding the
/// well-known address is the election: the one node the OS grants it to is
/// the leader.
pub open spec fn role_of_bind(bind_succeeded: bool) -> Role {
    if bind_succeeded {
        Role::Supernode
    } else {
        Role::Peer
    }
}

/// Decides the node's role from the outcome of binding the rendezvous
/// address: success elects this node supernode; failure means another node
/// already holds the address, and this node runs as a peer.  A failed
/// promotion bind comes through here too: the loser keeps the peer role
/// and may race again on a later watchdog tick.
pub fn choose_role(bind_succeeded: bool) -> (r: Role)
    ensures
        r == role_of_bind(bind_succeeded),
{
    if bind_succeeded {
        Role::Supernode
    } else {
        Role::Peer
    }
}

/// Leader election is deterministic: when two nodes race to bind the
/// rendezvous address the OS grants it to exactly one of them, and then
/// exactly one node becomes the supernode while the other becomes a peer.
pub proof fn lemma_leader_election(first_binds: bool, second_binds: bool)
    requires
        first_binds != second_binds,
    ensures
        (role_of_bind(first_binds) is Supernode) != (role_of_bind(second_binds) is Supernode),
        role_of_bind(first_binds) is Supernode <==> first_binds,
        role_of_bind(first_binds) is Peer <==> !first_binds,
{
}

/// True when the watchdog must attempt promotion: at least the timeout
/// (two missed heartbeat cycles) has elapsed since the last heartbeat.
pub open spec fn should_promote(last_heartbeat_ms: u64, now_ms: u64) -> bool {
    elapsed_ms(last_heartbeat_ms, now_ms) >= HEARTBEAT_TIMEOUT_MS
}

/// The watchdog's decision on one tick.
#[derive(Clone, Copy, Debug, PartialEq, Eq)]
pub enum WatchdogDecision {
    /// The supernode is alive; keep running as a peer.
    StayPeer,
    /// The supernode is quiet; try to bind the rendezvous address.
    AttemptPromotion,
}

/// One tick of the failover watchdog: attempt promotion exactly when the
/// supernode is no longer considered alive.
pub fn watchdog_step(clock: &HeartbeatClock, now_ms: u64) -> (d: WatchdogDecision)
    ensures
        d is AttemptPromotion <==> should_promote(clock.last_heartbeat_ms, now_ms),
{
    if check_supernode_alive(clock, now_ms) {
        WatchdogDecision::StayPeer
    } else {
        WatchdogDecision::AttemptPromotion
    }
}

/// A heartbeat observed at `t` suppresses promotion at every tick strictly
/// inside the timeout window after it, and promotion is due at any tick at
/// or past `t` plus the timeout.
pub proof fn lemma_failover_trigger(t: u64, now_ms: u64)
    ensures
        now_ms < t + HEARTBEAT_TIMEOUT_MS ==> !should_promote(t, now_ms),
        now_ms >= t + HEARTBEAT_TIMEOUT_MS ==> should_promote(t, now_ms),
{
}

} // verus!
