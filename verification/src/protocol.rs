//! Protocol constants and the reserved heartbeat payload.

use vstd::prelude::*;

verus! {

/// Interval between heartbeat broadcasts from the supernode, in milliseconds.
pub const HEARTBEAT_INTERVAL_MS: u64 = 10_000;

/// A peer treats the supernode as dead once this much time has passed without
/// a heartbeat: two missed heartbeat cycles.
pub const HEARTBEAT_TIMEOUT_MS: u64 = 20_000;

/// Fixed backoff between reconnect attempts of the peer client, in
/// milliseconds.  The backoff never grows.
pub const RETRY_BACKOFF_MS: u64 = 2_000;

/// Period of the peer client's send loop, in milliseconds.
pub const SEND_PERIOD_MS: u64 = 2_000;

/// Period of the supernode's registry reporter, in milliseconds.
pub const REPORT_PERIOD_MS: u64 = 2_000;

/// The reserved payload by which the supernode signals liveness.
pub open spec fn heartbeat_marker() -> Seq<char> {
    "HEARTBEAT"@
}

/// The heartbeat marker as an owned string, ready to be written to a
/// connection.
pub fn heartbeat_string() -> (r: String)
    ensures
        r@ == heartbeat_marker(),
{
    "HEARTBEAT".to_owned()
}

/// True exactly when `m` is the reserved heartbeat payload.
pub fn is_heartbeat(m: &String) -> (r: bool)
    ensures
        r == (m@ == heartbeat_marker()),
{
    let hb: String = heartbeat_string();
    *m == hb
}

} // verus!
