//! The background poller's cache: the last successfully observed device
//! state, written by a refresh loop and read by synchronous accessors.
//!
//! The thread, the lock and the network session live outside the library.
//! The refresh loop consults [`poll_tick`] at the top of every iteration and
//! stops exactly when cancellation was requested; a successful refresh calls
//! [`apply_refresh`]; the accessors read the cache through
//! [`cached_state`] and [`cached_power`].

use vstd::prelude::*;

verus! {

/// The last successfully observed socket attributes. `last_received_pwr`
/// is `None` until the first successful refresh, so "never observed" is
/// distinguishable from "observed as zero"; the cached on/off state defaults
/// to off until then.
#[derive(Debug, PartialEq, Eq, Structural, Clone, Copy)]
pub struct SocketData {
    pub last_received_state: bool,
    pub last_received_pwr: Option<u32>,
}

/// A snapshot that recorded at least one successful refresh.
pub open spec fn ever_updated(d: SocketData) -> bool {
    d.last_received_pwr is Some
}

/// The snapshot after one successful refresh observed `state` and `power_wt`.
pub open spec fn refreshed(state: bool, power_wt: u32) -> SocketData {
    SocketData { last_received_state: state, last_received_pwr: Some(power_wt) }
}

impl SocketData {
    /// The empty snapshot: nothing observed yet.
    pub fn new() -> (d: SocketData)
        ensures
            d == (SocketData { last_received_state: false, last_received_pwr: None::<u32> }),
            !ever_updated(d),
    {
        SocketData { last_received_state: false, last_received_pwr: None }
    }
}

impl Default for SocketData {
    fn default() -> (d: SocketData)
        ensures
            d == (SocketData { last_received_state: false, last_received_pwr: None::<u32> }),
    {
        SocketData::new()
    }
}

/// Overwrites the snapshot with what one successful refresh observed and
/// marks it as updated.
pub fn apply_refresh(data: &mut SocketData, state: bool, power_wt: u32)
    ensures
        *final(data) == refreshed(state, power_wt),
        ever_updated(*final(data)),
{
    data.last_received_state = state;
    data.last_received_pwr = Some(power_wt);
}

/// The cached on/off state; off until the first successful refresh.
pub fn cached_state(data: &SocketData) -> (state: bool)
    ensures
        state == data.last_received_state,
{
    data.last_received_state
}

/// The cached power reading in watts; `None` means never observed.
pub fn cached_power(data: &SocketData) -> (power: Option<u32>)
    ensures
        power == data.last_received_pwr,
{
    data.last_received_pwr
}

/// What the refresh loop does at the top of one iteration.
#[derive(Debug, PartialEq, Eq, Structural)]
pub enum PollDecision {
    /// Issue the read-only requests and refresh the snapshot.
    Refresh,
    /// Exit the loop without touching the snapshot again.
    Stop,
}

/// The loop-top decision: stop exactly when cancellation was requested, so
/// once the flag is set no further snapshot write follows the next loop top.
pub fn poll_tick(cancelled: bool) -> (d: PollDecision)
    ensures
        d == PollDecision::Stop <==> cancelled,
{
    if cancelled {
        PollDecision::Stop
    } else {
        PollDecision::Refresh
    }
}

/// Cache freshness: right after a refresh that observed `state` and
/// `power_wt`, the accessors report exactly those values.
pub proof fn lemma_refresh_visible(state: bool, power_wt: u32)
    ensures
        refreshed(state, power_wt).last_received_state == state,
        refreshed(state, power_wt).last_received_pwr == Some(power_wt),
{
}

/// Once a snapshot was ever updated, no refresh reverts it to "never
/// observed"; the value may still change.
pub proof fn lemma_updated_monotone(d: SocketData, state: bool, power_wt: u32)
    ensures
        ever_updated(refreshed(state, power_wt)),
        ever_updated(d) ==> ever_updated(refreshed(state, power_wt)),
{
}

} // verus!
