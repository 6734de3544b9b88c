//! The timing rule: when one close request confirms the one before it.
//!
//! Times are readings of a monotonic clock, in nanoseconds since an origin
//! that stays the same for all readings.

use vstd::prelude::*;

verus! {

/// Length of the confirmation window, in nanoseconds: two seconds.
pub const CONFIRM_WINDOW_NANOS: u128 = 2_000_000_000;

/// Whether a close request at `now` confirms the previous one: there is a
/// previous request, and `now` lies at most two seconds after it. A reading
/// that lies before the previous one is taken as no time passed, so it
/// confirms too.
pub open spec fn confirms(last: Option<u128>, now: u128) -> bool {
    match last {
        Some(t) => now - t <= CONFIRM_WINDOW_NANOS,
        None => false,
    }
}

/// What is remembered after the request at `now`: that request, whatever was
/// remembered before and whatever was decided.
pub open spec fn remembered_after(last: Option<u128>, now: u128) -> Option<u128> {
    Some(now)
}

/// Decides whether a close request at `now` falls into the window that the
/// request at `last` opened. Both ends of the window belong to it.
pub fn within_window(last: u128, now: u128) -> (inside: bool)
    ensures
        inside == confirms(Some(last), now),
{
    if now >= last {
        now - last <= CONFIRM_WINDOW_NANOS
    } else {
        true
    }
}

/// With nothing remembered, a close request never confirms: the first
/// request of a run is always suppressed.
pub proof fn first_attempt_is_suppressed(now: u128)
    ensures
        !confirms(None, now),
{
}

/// Two requests in a row, the first on a fresh state: the first is
/// suppressed, and the second confirms exactly when it comes at most two
/// seconds after the first. Exactly two seconds still confirm; a
/// nanosecond more does not.
pub proof fn window_boundary_is_inclusive(first: u128, second: u128)
    ensures
        !confirms(None, first),
        confirms(remembered_after(None, first), second) <==> second - first
            <= CONFIRM_WINDOW_NANOS,
        second == first + CONFIRM_WINDOW_NANOS ==> confirms(remembered_after(None, first), second),
        second > first + CONFIRM_WINDOW_NANOS ==> !confirms(remembered_after(None, first), second),
{
}

/// Only the request just before counts. Whatever was remembered before the
/// request at `previous`, the request at `now` is judged against `previous`
/// alone: older requests neither help nor hinder.
pub proof fn only_previous_attempt_counts(
    before: Option<u128>,
    other: Option<u128>,
    previous: u128,
    now: u128,
)
    ensures
        confirms(remembered_after(before, previous), now) == confirms(
            remembered_after(other, previous),
            now,
        ),
        confirms(remembered_after(before, previous), now) <==> now - previous
            <= CONFIRM_WINDOW_NANOS,
{
}

/// What is remembered after the requests at `times`, taken one after
/// another in this order, when `start` was remembered before the first.
pub open spec fn remembered_after_all(start: Option<u128>, times: Seq<u128>) -> Option<u128>
    decreases times.len(),
{
    if times.len() == 0 {
        start
    } else {
        remembered_after(remembered_after_all(start, times.drop_last()), times.last())
    }
}

/// The decision on request number `i` of `times`, the requests taken one
/// after another from `start`.
pub open spec fn decision_at(start: Option<u128>, times: Seq<u128>, i: int) -> bool
    recommends
        0 <= i < times.len(),
{
    confirms(remembered_after_all(start, times.take(i)), times[i])
}

/// In a run of requests of any length, each request but the first is judged
/// against the one just before it and against nothing else; the first is
/// judged against what was remembered at the start.
pub proof fn each_attempt_is_judged_against_its_predecessor(
    start: Option<u128>,
    times: Seq<u128>,
    i: int,
)
    requires
        0 <= i < times.len(),
    ensures
        i == 0 ==> decision_at(start, times, i) == confirms(start, times[0]),
        i > 0 ==> decision_at(start, times, i) == confirms(Some(times[i - 1]), times[i]),
        i > 0 ==> (decision_at(start, times, i) <==> times[i] - times[i - 1]
            <= CONFIRM_WINDOW_NANOS),
{
    let seen = times.take(i);
    if i > 0 {
        assert(seen.last() == times[i - 1]);
    }
}

} // verus!
