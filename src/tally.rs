use vstd::prelude::*;
use crate::eligibility::Candidate;
use crate::relay::Relay;

verus! {

/// The integer diagnostics of a candidate's score: seconds since the last
/// successful connection, connection attempts, and successes.
#[derive(Debug, Clone, Copy, PartialEq, Eq, Structural)]
pub struct Tally {
    pub ago: i64,
    pub attempts: u64,
    pub success: u64,
}

/// The last successful connection; a relay without one counts as last seen
/// at the epoch.
pub open spec fn last_connected(relay: Relay) -> int {
    match relay.last_connected_at {
        Some(t) => t as int,
        None => 0,
    }
}

/// Seconds from the last successful connection to `now`; negative when the
/// record lies in the future.
pub open spec fn age_of(relay: Relay, now: int) -> int {
    now - last_connected(relay)
}

/// Every connection attempt, successful or not.
pub open spec fn attempts_of(relay: Relay) -> int {
    relay.success_count + relay.failure_count
}

/// The age fits an `i64` and the attempts a `u64`.
pub open spec fn tally_fits(relay: Relay, now: int) -> bool {
    &&& attempts_of(relay) <= u64::MAX
    &&& i64::MIN <= age_of(relay, now) <= i64::MAX
}

/// The integer diagnostics of a candidate at time `now` (seconds since the
/// epoch); `None` where the age or the count of attempts overflows.
pub fn tally(candidate: &Candidate, now: i64) -> (r: Option<Tally>)
    ensures
        r is Some <==> tally_fits(candidate.relay_view(), now as int),
        r matches Some(t) ==> {
            &&& t.ago == age_of(candidate.relay_view(), now as int)
            &&& t.attempts == attempts_of(candidate.relay_view())
            &&& t.success == candidate.relay_view().success_count
            &&& 0 < t.success <= t.attempts
        },
{
    let relay = candidate.relay();
    let last: u64 = match relay.last_connected_at {
        Some(t) => t,
        None => 0,
    };
    let age: i128 = now as i128 - last as i128;
    if age < i64::MIN as i128 || age > i64::MAX as i128 {
        return None;
    }
    if relay.success_count > u64::MAX - relay.failure_count {
        return None;
    }
    Some(
        Tally {
            ago: age as i64,
            attempts: relay.success_count + relay.failure_count,
            success: relay.success_count,
        },
    )
}

} // verus!
