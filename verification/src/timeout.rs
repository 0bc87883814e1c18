//! How long an actor may sleep.

use vstd::prelude::*;

use crate::number::difference;

verus! {

/// The shorter of two waits, where an absent one never ends.
pub open spec fn shorter(left: Option<u64>, right: Option<u64>) -> Option<u64> {
    match (left, right) {
        (Some(left), Some(right)) => Some(
            if left <= right {
                left
            } else {
                right
            },
        ),
        (Some(timeout), None) => Some(timeout),
        (None, other) => other,
    }
}

/// The shorter of two waits, in microseconds.
pub fn minimum_timeout(left: Option<u64>, right: Option<u64>) -> (r: Option<u64>)
    ensures
        r == shorter(left, right),
{
    match (left, right) {
        (Some(left), Some(right)) => if left <= right {
            Some(left)
        } else {
            Some(right)
        },
        (Some(timeout), None) => Some(timeout),
        (None, other) => other,
    }
}

/// How long an actor may sleep before one of its responsibilities is due, in microseconds. Without
/// any it sleeps until a message arrives.
pub fn select_actor_wait_timeout(
    pending_timeout: Option<u64>,
    lease_timeout: Option<u64>,
    renewal_timeout: Option<u64>,
) -> (r: Option<u64>)
    ensures
        r == shorter(shorter(pending_timeout, lease_timeout), renewal_timeout),
{
    minimum_timeout(minimum_timeout(pending_timeout, lease_timeout), renewal_timeout)
}

/// How long until a deadline.
pub open spec fn until(deadline_us: Option<u64>, now_us: u64) -> Option<u64> {
    match deadline_us {
        Some(deadline_us) => Some(
            if deadline_us <= now_us {
                0
            } else {
                (deadline_us - now_us) as u64
            },
        ),
        None => None,
    }
}

/// How long until a deadline.
pub fn remaining(deadline_us: Option<u64>, now_us: u64) -> (r: Option<u64>)
    ensures
        r == until(deadline_us, now_us),
{
    match deadline_us {
        Some(deadline_us) => Some(difference(deadline_us, now_us)),
        None => None,
    }
}

/// When an input grant wants to be renewed: half of its watchdog before the watchdog ends.
pub open spec fn renewal_due(watchdog: Option<(u64, u64)>) -> Option<u64> {
    match watchdog {
        Some((deadline_us, timeout_us)) => if timeout_us / 2 <= deadline_us {
            Some((deadline_us - timeout_us / 2) as u64)
        } else {
            None
        },
        None => None,
    }
}

/// How long a session's actor may sleep, from how long its outstanding operations may wait, when
/// its file drops and leases time out, and the deadline and length of its input watchdog.
pub fn actor_wait_timeout(
    pending_timeout: Option<u64>,
    file_drop_deadline_us: Option<u64>,
    lease_deadline_us: Option<u64>,
    watchdog: Option<(u64, u64)>,
    now_us: u64,
) -> (r: Option<u64>)
    ensures
        r == shorter(
            shorter(
                shorter(pending_timeout, until(file_drop_deadline_us, now_us)),
                until(lease_deadline_us, now_us),
            ),
            until(renewal_due(watchdog), now_us),
        ),
{
    let pending = minimum_timeout(pending_timeout, remaining(file_drop_deadline_us, now_us));
    let renewal = match watchdog {
        Some((deadline_us, timeout_us)) => deadline_us.checked_sub(timeout_us / 2),
        None => None,
    };
    select_actor_wait_timeout(pending, remaining(lease_deadline_us, now_us), remaining(renewal, now_us))
}

/// An actor never sleeps past a responsibility, and sleeps for ever only without one.
pub proof fn no_responsibility_is_slept_through(first: Option<u64>, second: Option<u64>)
    ensures
        first matches Some(timeout) ==> shorter(first, second) matches Some(sleep) && sleep <= timeout,
        second matches Some(timeout) ==> shorter(first, second) matches Some(sleep) && sleep
            <= timeout,
        shorter(first, second) is None ==> first is None && second is None,
        shorter(first, second) == shorter(second, first),
{
}

/// A sleep ends with the first of the things that are waited for, not before and not after: it is
/// no longer than any of them, and as long as one.
pub proof fn a_sleep_ends_with_the_first_deadline(
    pending_timeout: Option<u64>,
    file_drop_deadline_us: Option<u64>,
    lease_deadline_us: Option<u64>,
    watchdog: Option<(u64, u64)>,
    now_us: u64,
    r: Option<u64>,
)
    requires
        call_ensures(
            actor_wait_timeout,
            (pending_timeout, file_drop_deadline_us, lease_deadline_us, watchdog, now_us),
            r,
        ),
    ensures
        pending_timeout matches Some(timeout) ==> (r matches Some(sleep) && sleep <= timeout),
        file_drop_deadline_us matches Some(deadline) ==> (r matches Some(sleep) && (now_us + sleep
            <= deadline || sleep == 0)),
        lease_deadline_us matches Some(deadline) ==> (r matches Some(sleep) && (now_us + sleep
            <= deadline || sleep == 0)),
        watchdog matches Some((deadline, timeout)) ==> (timeout / 2 <= deadline ==> (r matches Some(
            sleep,
        ) && (now_us + sleep + timeout / 2 <= deadline || sleep == 0))),
        r is None <==> pending_timeout is None && file_drop_deadline_us is None
            && lease_deadline_us is None && (watchdog is None || (watchdog matches Some((deadline, timeout))
            && timeout / 2 > deadline)),
        r matches Some(sleep) && sleep > 0 ==> (r == pending_timeout || file_drop_deadline_us
            == Some((now_us + r->0) as u64) || lease_deadline_us == Some((now_us + r->0) as u64) || (
        watchdog matches Some((deadline, timeout)) && deadline - timeout / 2 == now_us + r->0)),
{
}

/// The three things that an actor waits for by itself: the first of them ends the wait.
pub proof fn the_first_of_three_ends_the_wait(
    pending_timeout: Option<u64>,
    lease_timeout: Option<u64>,
    renewal_timeout: Option<u64>,
    r: Option<u64>,
)
    requires
        call_ensures(select_actor_wait_timeout, (pending_timeout, lease_timeout, renewal_timeout), r),
    ensures
        r == pending_timeout || r == lease_timeout || r == renewal_timeout,
        r is None ==> pending_timeout is None && lease_timeout is None && renewal_timeout is None,
        pending_timeout matches Some(timeout) ==> (r matches Some(sleep) && sleep <= timeout),
        lease_timeout matches Some(timeout) ==> (r matches Some(sleep) && sleep <= timeout),
        renewal_timeout matches Some(timeout) ==> (r matches Some(sleep) && sleep <= timeout),
{
}

/// What remains until a deadline is the time to it, and nothing once it has passed.
pub proof fn what_remains_reaches_the_deadline(deadline_us: Option<u64>, now_us: u64, r: Option<u64>)
    requires
        call_ensures(remaining, (deadline_us, now_us), r),
    ensures
        r is None <==> deadline_us is None,
        deadline_us matches Some(deadline) ==> {
            &&& now_us <= deadline ==> now_us + r->0 == deadline
            &&& now_us >= deadline ==> r->0 == 0
        },
{
}

} // verus!
