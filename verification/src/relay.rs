//! Supernode-side decisions: the per-peer relay loop and the heartbeat
//! broadcaster.

use crate::protocol::heartbeat_marker;
use crate::protocol::heartbeat_string;
use crate::protocol::is_heartbeat;
use crate::registry::Registry;
use crate::registry::lists_registry;
use crate::registry::lists_registry_except;
use vstd::prelude::*;

verus! {

/// What a relay loop observed on its own peer's connection.
pub enum RelayEvent {
    /// A read returned this text (byte streams are decoded lossily at the
    /// transport edge; a zero-length read arrives as the empty string).
    Received(String),
    /// A read failed: the peer is treated as departed.
    ReadError,
}

/// What the relay loop must do next.
#[derive(Debug, PartialEq, Eq)]
pub enum RelayAction {
    /// Nothing: an empty read, or the heartbeat marker, which a peer is not
    /// expected to send upstream and which is discarded defensively.
    Ignore,
    /// Write the payload verbatim to every listed `(address, connection)`
    /// pair, in order; a failed write to one target must not stop the rest.
    Forward(Vec<(String, u64)>, String),
    /// Stop this relay loop; its peer has been removed from the registry.
    Disconnect,
}

/// One step of the relay loop that the supernode runs for the peer at
/// `sender`.
///
/// A non-empty message other than the heartbeat marker is fanned out
/// verbatim to exactly the registered peers other than `sender`, and never
/// echoed to `sender` itself.  The heartbeat marker and empty reads are
/// discarded.  A read error removes `sender` from the registry — the sole
/// removal path — and ends the loop.
pub fn relay_step(reg: &mut Registry, sender: &String, event: RelayEvent) -> (act: RelayAction)
    requires
        old(reg).wf(),
    ensures
        final(reg).wf(),
        match event {
            RelayEvent::Received(msg) => {
                &&& final(reg)@ == old(reg)@
                &&& if msg@.len() == 0 || msg@ == heartbeat_marker() {
                    act is Ignore
                } else {
                    act matches RelayAction::Forward(targets, payload) && payload == msg
                        && lists_registry_except(targets@, old(reg)@, sender@)
                }
            },
            RelayEvent::ReadError => {
                &&& final(reg)@ == old(reg)@.remove(sender@)
                &&& act is Disconnect
            },
        },
{
    match event {
        RelayEvent::Received(msg) => {
            if msg.as_str().is_empty() {
                RelayAction::Ignore
            } else if is_heartbeat(&msg) {
                RelayAction::Ignore
            } else {
                let targets = reg.targets_excluding(sender);
                RelayAction::Forward(targets, msg)
            }
        },
        RelayEvent::ReadError => {
            reg.remove(sender);
            RelayAction::Disconnect
        },
    }
}

/// One tick of the heartbeat broadcaster: the marker, and a copy of every
/// registered `(address, connection)` pair to write it to.  A failed write
/// to one peer must not stop the broadcast to the others, so the caller
/// walks the whole list regardless of failures.
pub fn heartbeat_tick(reg: &Registry) -> (r: (Vec<(String, u64)>, String))
    requires
        reg.wf(),
    ensures
        lists_registry(r.0@, reg@),
        r.1@ == heartbeat_marker(),
{
    (reg.snapshot_for_broadcast(), heartbeat_string())
}

/// Registry consistency after a departure: once the peer at `failed` has
/// been dropped, its address is absent from the registry, and any later
/// fan-out computed from that registry never targets it.
pub proof fn lemma_registry_consistency(
    reg: Map<Seq<char>, u64>,
    failed: Seq<char>,
    targets: Seq<(String, u64)>,
    sender: Seq<char>,
)
    requires
        lists_registry_except(targets, reg.remove(failed), sender),
    ensures
        !reg.remove(failed).contains_key(failed),
        forall|i: int| 0 <= i < targets.len() ==> (#[trigger] targets[i]).0@ != failed,
{
    assert forall|i: int| 0 <= i < targets.len() implies (#[trigger] targets[i]).0@ != failed by {
        assert(reg.remove(failed).contains_key(targets[i].0@));
    }
}

} // verus!
