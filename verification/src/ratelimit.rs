//! How long to hold back before a GitHub request.
use vstd::prelude::*;

verus! {

/// The caller's quota as `GET /rate_limit` reports it for the core API.
#[derive(Debug, Clone, Copy)]
pub struct RateLimitData {
    pub limit: u32,
    pub remaining: u32,
    /// When the quota is renewed, in seconds since the Unix epoch.
    pub reset: u64,
}

/// At or below this many remaining requests, a caller with an API key waits
/// for the quota to be renewed.
pub const NEAR_LIMIT: u32 = 5;

/// The least time between two requests made without an API key, in
/// nanoseconds (one second).
pub const UNAUTHENTICATED_DELAY_NANOS: u128 = 1_000_000_000;

/// Seconds to wait before a request with an API key: until one second after
/// the quota's renewal, when at most `NEAR_LIMIT` requests remain and the
/// renewal lies ahead of `now`; no wait otherwise.
pub open spec fn quota_wait_spec(quota: RateLimitData, now: u64) -> Option<int> {
    if quota.remaining <= NEAR_LIMIT && quota.reset > now {
        Some(quota.reset - now + 1)
    } else {
        None
    }
}

/// The wait before a request with an API key, `now` being the current time
/// in seconds since the Unix epoch.
pub fn quota_wait_secs(quota: &RateLimitData, now: u64) -> (wait: Option<u64>)
    requires
        quota.remaining <= NEAR_LIMIT && quota.reset > now ==> quota.reset - now < u64::MAX,
    ensures
        match wait {
            Some(w) => quota_wait_spec(*quota, now) == Some(w as int),
            None => quota_wait_spec(*quota, now) is None,
        },
{
    if quota.remaining <= NEAR_LIMIT && quota.reset > now {
        Some(quota.reset - now + 1)
    } else {
        None
    }
}

/// The time at which a request without an API key may go out, in
/// nanoseconds since a fixed origin, given the time reserved for the previous
/// such request, if any, and the current time: one second after the previous
/// one, or now if that is already past.
pub open spec fn next_slot(last: Option<int>, now: int) -> int {
    match last {
        Some(l) => if l + UNAUTHENTICATED_DELAY_NANOS > now { l + UNAUTHENTICATED_DELAY_NANOS } else { now },
        None => now,
    }
}

/// An optional time as a mathematical integer.
pub open spec fn opt_time(t: Option<u128>) -> Option<int> {
    match t {
        Some(v) => Some(v as int),
        None => None,
    }
}

/// Reserves the time of the next request made without an API key, to be
/// called while holding the shared record of the previous reservation `last`;
/// `now` is the current time. Returns how long to wait from now and the
/// reserved time, which becomes the new record.
pub fn reserve_slot(last: Option<u128>, now: u128) -> (r: (u128, u128))
    requires
        last matches Some(l) ==> l + UNAUTHENTICATED_DELAY_NANOS <= u128::MAX,
    ensures
        r.1 == next_slot(opt_time(last), now as int),
        r.0 == r.1 - now,
{
    match last {
        Some(l) => if l + UNAUTHENTICATED_DELAY_NANOS > now {
            let slot = l + UNAUTHENTICATED_DELAY_NANOS;
            (slot - now, slot)
        } else {
            (0, now)
        },
        None => (0, now),
    }
}

/// A caller with an API key that waits as told resumes exactly one second
/// after its quota is renewed, and only waits when few requests remain.
pub proof fn lemma_quota_wait_ends_after_reset(quota: RateLimitData, now: u64)
    ensures
        quota_wait_spec(quota, now) matches Some(w) ==> {
            &&& now + w == quota.reset + 1
            &&& w >= 2
            &&& quota.remaining <= NEAR_LIMIT
        },
        quota.remaining > NEAR_LIMIT ==> quota_wait_spec(quota, now) is None,
        quota.reset <= now ==> quota_wait_spec(quota, now) is None,
{
}

/// A reservation never lies in the past, a first one is immediate, and each
/// lies at least one second after the one before it.
pub proof fn lemma_slot_after_previous(last: Option<int>, now: int)
    ensures
        next_slot(last, now) >= now,
        last is None ==> next_slot(last, now) == now,
        last matches Some(l) ==> next_slot(last, now) >= l + UNAUTHENTICATED_DELAY_NANOS,
        last matches Some(l) && now >= l + UNAUTHENTICATED_DELAY_NANOS ==> next_slot(last, now) == now,
{
}

/// The times reserved for a run of requests without an API key, the `k`-th
/// asked for at time `nows[k]`, each reservation made on the record that the
/// previous one left (none before the first).
pub open spec fn run_slots(nows: Seq<int>) -> Seq<int>
    decreases nows.len(),
{
    if nows.len() == 0 {
        Seq::empty()
    } else {
        let prev = run_slots(nows.drop_last());
        prev.push(next_slot(if prev.len() == 0 { None } else { Some(prev.last()) }, nows.last()))
    }
}

proof fn lemma_run_slots_len(nows: Seq<int>)
    ensures
        run_slots(nows).len() == nows.len(),
    decreases nows.len(),
{
    if nows.len() > 0 {
        lemma_run_slots_len(nows.drop_last());
    }
}

/// Requests made without an API key, however they overlap, go out at least
/// one second apart when each waits for the time it reserved: any later
/// reservation lies at least one second after any earlier one, and none lies
/// before the moment it was asked for.
pub proof fn lemma_reserved_requests_apart(nows: Seq<int>, i: int, j: int)
    requires
        0 <= i < j < nows.len(),
    ensures
        run_slots(nows).len() == nows.len(),
        run_slots(nows)[j] >= run_slots(nows)[i] + UNAUTHENTICATED_DELAY_NANOS,
        run_slots(nows)[j] >= nows[j],
    decreases nows.len(),
{
    lemma_run_slots_len(nows);
    let prev = run_slots(nows.drop_last());
    lemma_run_slots_len(nows.drop_last());
    let n = nows.len() - 1;
    assert(run_slots(nows) == prev.push(next_slot(if prev.len() == 0 { None } else { Some(prev.last()) }, nows.last())));
    if j < n {
        lemma_reserved_requests_apart(nows.drop_last(), i, j);
        assert(run_slots(nows)[i] == prev[i]);
        assert(run_slots(nows)[j] == prev[j]);
    } else {
        assert(prev.len() == n && n >= 1);
        lemma_slot_after_previous(Some(prev.last()), nows.last());
        if i < n - 1 {
            lemma_reserved_requests_apart(nows.drop_last(), i, n - 1);
        }
        assert(run_slots(nows)[i] == prev[i]);
    }
}

} // verus!
