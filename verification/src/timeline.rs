//! The idle wait against a timeline of published states: when it resolves.
//!
//! Time is counted in ticks of any unit. The waiter is taken to react at
//! once: it observes each publication at the tick it is made, and its timer
//! fires at its deadline unless a publication came strictly before.

use crate::idle::{wait_action, wait_step, State, WaitAction, WaitEvent, WaitStep};
use vstd::prelude::*;

verus! {

/// A state published at a tick.
pub struct Publication {
    pub at: nat,
    pub state: State,
}

/// Whether the publications stand in the order of their ticks.
pub open spec fn in_order(pubs: Seq<Publication>) -> bool {
    forall|i: int, j: int| 0 <= i <= j < pubs.len() ==> pubs[i].at <= pubs[j].at
}

/// What ends the round that starts at tick `now` on the observed state
/// `current`, with `pubs[from..]` still to come: the next publication, the
/// timer, or nothing ever.
pub open spec fn round_event(
    pubs: Seq<Publication>,
    from: int,
    now: nat,
    current: State,
    timeout: nat,
) -> Option<WaitEvent> {
    let action = wait_action(current);
    if 0 <= from < pubs.len() && (action == WaitAction::AwaitChange || pubs[from].at < now
        + timeout) {
        Some(WaitEvent::Changed)
    } else if action == WaitAction::AwaitChangeOrTimer {
        Some(WaitEvent::TimerElapsed)
    } else {
        None
    }
}

/// The tick at which the wait ends with success, when its current round
/// starts at `now` on the observed state `current` with `pubs[from..]` still
/// to come; `None` where it waits forever.
pub open spec fn wait_resolves_at(
    pubs: Seq<Publication>,
    from: int,
    now: nat,
    current: State,
    timeout: nat,
) -> Option<nat>
    decreases pubs.len() - from,
{
    match round_event(pubs, from, now, current, timeout) {
        None => None,
        Some(event) => match wait_step(wait_action(current), event) {
            Some(WaitStep::Observe) => if 0 <= from < pubs.len() {
                wait_resolves_at(pubs, from + 1, pubs[from].at, pubs[from].state, timeout)
            } else {
                None
            },
            Some(WaitStep::Finish(Ok(_))) => Some(now + timeout),
            _ => None,
        },
    }
}

/// The tick at which a wait that starts with the tracker, at tick zero,
/// ends with success.
pub open spec fn idle_deadline(pubs: Seq<Publication>, timeout: nat) -> Option<nat> {
    wait_resolves_at(pubs, 0, 0, State::Idle, timeout)
}

/// Whether nothing is published in the `span` ticks before tick `until`, and
/// the state in force all that time is `Idle`: `k` is the number of
/// publications made before that span.
pub open spec fn idle_before(pubs: Seq<Publication>, k: int, until: nat, span: nat) -> bool {
    &&& 0 <= k <= pubs.len()
    &&& until >= span
    &&& k > 0 ==> pubs[k - 1].state == State::Idle && pubs[k - 1].at <= until - span
    &&& k < pubs.len() ==> pubs[k].at >= until
}

proof fn lemma_resolves_after_idle_span(
    pubs: Seq<Publication>,
    from: int,
    now: nat,
    current: State,
    timeout: nat,
)
    requires
        in_order(pubs),
        0 <= from <= pubs.len(),
        from == 0 ==> current == State::Idle,
        from > 0 ==> pubs[from - 1].at <= now && pubs[from - 1].state == current,
        from < pubs.len() ==> now <= pubs[from].at,
        wait_resolves_at(pubs, from, now, current, timeout) is Some,
    ensures
        ({
            let end = wait_resolves_at(pubs, from, now, current, timeout).unwrap();
            &&& end >= now + timeout
            &&& exists|k: int| idle_before(pubs, k, end, timeout)
        }),
    decreases pubs.len() - from,
{
    let end = wait_resolves_at(pubs, from, now, current, timeout).unwrap();
    match round_event(pubs, from, now, current, timeout) {
        Some(WaitEvent::Changed) => {
            lemma_resolves_after_idle_span(
                pubs,
                from + 1,
                pubs[from].at,
                pubs[from].state,
                timeout,
            );
            if from + 1 < pubs.len() {
                assert(pubs[from].at <= pubs[from + 1].at);
            }
        },
        _ => {
            assert(idle_before(pubs, from, end, timeout));
        },
    }
}

proof fn lemma_resolves_after_last_idle(
    pubs: Seq<Publication>,
    from: int,
    now: nat,
    current: State,
    timeout: nat,
)
    requires
        in_order(pubs),
        0 <= from <= pubs.len(),
        from < pubs.len() ==> pubs.last().state == State::Idle,
        from == pubs.len() ==> current == State::Idle,
    ensures
        wait_resolves_at(pubs, from, now, current, timeout) is Some,
        wait_resolves_at(pubs, from, now, current, timeout).unwrap() <= timeout + if from
            < pubs.len() {
            pubs.last().at
        } else {
            now
        },
    decreases pubs.len() - from,
{
    if from < pubs.len() {
        if round_event(pubs, from, now, current, timeout) == Some(WaitEvent::Changed) {
            lemma_resolves_after_last_idle(
                pubs,
                from + 1,
                pubs[from].at,
                pubs[from].state,
                timeout,
            );
        } else {
            assert(pubs[from].at <= pubs.last().at);
        }
    }
}

/// The wait ends with success only after the tracker has been idle for the
/// whole timeout: in the `timeout` ticks before it ends nothing is published,
/// and the state in force all that time is `Idle`. A publication during a
/// countdown restarts it.
pub proof fn law_wait_needs_idle_span(pubs: Seq<Publication>, timeout: nat)
    requires
        in_order(pubs),
        idle_deadline(pubs, timeout) is Some,
    ensures
        idle_deadline(pubs, timeout).unwrap() >= timeout,
        exists|k: int| idle_before(pubs, k, idle_deadline(pubs, timeout).unwrap(), timeout),
{
    lemma_resolves_after_idle_span(pubs, 0, 0, State::Idle, timeout);
}

/// Once the last publication is `Idle`, the wait ends with success no later
/// than `timeout` ticks after it. With no publication at all it ends at
/// exactly `timeout` ticks from the start.
pub proof fn law_wait_ends_after_last_release(pubs: Seq<Publication>, timeout: nat)
    requires
        in_order(pubs),
        pubs.len() > 0 ==> pubs.last().state == State::Idle,
    ensures
        idle_deadline(pubs, timeout) is Some,
        pubs.len() > 0 ==> idle_deadline(pubs, timeout).unwrap() <= pubs.last().at + timeout,
        pubs.len() == 0 ==> idle_deadline(pubs, timeout) == Some(timeout),
{
    lemma_resolves_after_last_idle(pubs, 0, 0, State::Idle, timeout);
}

} // verus!
