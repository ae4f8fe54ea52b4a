//! The activity count as a mathematical value, and what holds of every run of
//! acquires and releases.
//!
//! The tracker of `idle` keeps its count in an atomic and publishes through a
//! channel. Here the same rules are applied to a plain value, so that what
//! they imply can be stated and proved.

use crate::idle::{
    acquire_signal, release_signal, wait_action, wait_step, Error, State, WaitAction, WaitEvent,
    WaitStep,
};
use vstd::prelude::*;

verus! {

/// One operation on the count of live guards.
pub enum GuardOp {
    /// A connection begins: a guard is made.
    Acquire,
    /// A connection ends: its guard is dropped.
    Release,
}

/// The tracker as a value: the number of live guards, the state last
/// published, and every publication so far, oldest first.
pub struct Tracker {
    pub count: nat,
    pub state: State,
    pub signals: Seq<State>,
}

/// The tracker as `new_pair` makes it.
pub open spec fn fresh_tracker() -> Tracker {
    Tracker { count: 0, state: State::Idle, signals: Seq::empty() }
}

/// The tracker after its count became `count` and `signal`, if any, was
/// published.
pub open spec fn after_signal(t: Tracker, count: nat, signal: Option<State>) -> Tracker {
    match signal {
        Some(s) => Tracker { count, state: s, signals: t.signals.push(s) },
        None => Tracker { count, state: t.state, signals: t.signals },
    }
}

/// The tracker after one operation. A release with no live guard cannot
/// occur, since only a guard releases: it has no result.
pub open spec fn apply_op(t: Tracker, op: GuardOp) -> Option<Tracker> {
    match op {
        GuardOp::Acquire => Some(after_signal(t, t.count + 1, acquire_signal(t.count))),
        GuardOp::Release => if t.count == 0 {
            None
        } else {
            Some(after_signal(t, (t.count - 1) as nat, release_signal(t.count)))
        },
    }
}

/// The tracker after a run of operations on a fresh one, or `None` where the
/// run releases a guard that was never acquired.
pub open spec fn run_ops(ops: Seq<GuardOp>) -> Option<Tracker>
    decreases ops.len(),
{
    if ops.len() == 0 {
        Some(fresh_tracker())
    } else {
        match run_ops(ops.drop_last()) {
            Some(t) => apply_op(t, ops.last()),
            None => None,
        }
    }
}

/// The published state follows the count, and publications alternate,
/// beginning with `Active`.
pub open spec fn consistent(t: Tracker) -> bool {
    &&& (t.state == State::Idle) == (t.count == 0)
    &&& (t.signals.len() % 2 == 0) == (t.count == 0)
    &&& forall|i: int|
        0 <= i < t.signals.len() ==> #[trigger] t.signals[i] == if i % 2 == 0 {
            State::Active
        } else {
            State::Idle
        }
}

/// Whether some guard is alive after every proper, non-empty prefix of a run.
pub open spec fn busy_throughout(ops: Seq<GuardOp>) -> bool {
    forall|k: int|
        0 < k < ops.len() ==> match #[trigger] run_ops(ops.take(k)) {
            Some(t) => t.count > 0,
            None => false,
        }
}

/// `n` acquires, then `n` releases.
pub open spec fn acquires_then_releases(n: nat) -> Seq<GuardOp> {
    Seq::new(
        2 * n,
        |i: int|
            if i < n {
                GuardOp::Acquire
            } else {
                GuardOp::Release
            },
    )
}

/// One operation keeps the published state in step with the count.
pub proof fn lemma_step_keeps_consistent(t: Tracker, op: GuardOp)
    requires
        consistent(t),
        apply_op(t, op) is Some,
    ensures
        consistent(apply_op(t, op).unwrap()),
{
}

/// After every run of acquires and releases, the published state is `Idle`
/// exactly when no guard is alive, and the publications made so far alternate
/// between `Active` and `Idle`: none is missing and none is doubled.
pub proof fn law_state_follows_count(ops: Seq<GuardOp>)
    requires
        run_ops(ops) is Some,
    ensures
        consistent(run_ops(ops).unwrap()),
    decreases ops.len(),
{
    if ops.len() > 0 {
        law_state_follows_count(ops.drop_last());
        lemma_step_keeps_consistent(run_ops(ops.drop_last()).unwrap(), ops.last());
    }
}

proof fn lemma_busy_prefix_published_once(ops: Seq<GuardOp>, k: int)
    requires
        busy_throughout(ops),
        0 < k < ops.len(),
    ensures
        run_ops(ops.take(k)) is Some,
        run_ops(ops.take(k)).unwrap().count > 0,
        run_ops(ops.take(k)).unwrap().signals == seq![State::Active],
    decreases k,
{
    let prefix = ops.take(k);
    assert(prefix.drop_last() =~= ops.take(k - 1));
    if k == 1 {
        assert(ops.take(0) =~= Seq::<GuardOp>::empty());
        assert(run_ops(prefix).unwrap().signals =~= seq![State::Active]);
    } else {
        lemma_busy_prefix_published_once(ops, k - 1);
    }
}

/// Balance: in a run that begins and ends with no guard alive and keeps some
/// guard alive in between, however its acquires and releases interleave,
/// exactly two states are published: `Active` by the first acquire and `Idle`
/// by the last release.
pub proof fn law_one_active_one_idle(ops: Seq<GuardOp>)
    requires
        ops.len() > 0,
        busy_throughout(ops),
        run_ops(ops) is Some,
        run_ops(ops).unwrap().count == 0,
    ensures
        run_ops(ops).unwrap().signals == seq![State::Active, State::Idle],
{
    let n = ops.len() as int;
    assert(ops.drop_last() =~= ops.take(n - 1));
    if n == 1 {
        assert(ops.take(0) =~= Seq::<GuardOp>::empty());
    } else {
        lemma_busy_prefix_published_once(ops, n - 1);
        assert(run_ops(ops).unwrap().signals =~= seq![State::Active, State::Idle]);
    }
}

proof fn lemma_count_in_balanced_run(n: nat, k: int)
    requires
        0 <= k <= 2 * n,
    ensures
        run_ops(acquires_then_releases(n).take(k)) is Some,
        run_ops(acquires_then_releases(n).take(k)).unwrap().count == if k <= n {
            k
        } else {
            2 * n - k
        },
    decreases k,
{
    let ops = acquires_then_releases(n);
    if k == 0 {
        assert(ops.take(0) =~= Seq::<GuardOp>::empty());
    } else {
        assert(ops.take(k).drop_last() =~= ops.take(k - 1));
        lemma_count_in_balanced_run(n, k - 1);
    }
}

/// Balance, for guards acquired together: `n` acquires followed by their `n`
/// releases publish `Active` once and `Idle` once, and leave no guard alive.
pub proof fn law_balanced_guards(n: nat)
    requires
        n >= 1,
    ensures
        run_ops(acquires_then_releases(n)) is Some,
        run_ops(acquires_then_releases(n)).unwrap().count == 0,
        run_ops(acquires_then_releases(n)).unwrap().signals == seq![State::Active, State::Idle],
{
    let ops = acquires_then_releases(n);
    let all: int = (2 * n) as int;
    assert(ops.take(all) =~= ops);
    lemma_count_in_balanced_run(n, all);
    assert forall|k: int| 0 < k < ops.len() implies match #[trigger] run_ops(ops.take(k)) {
        Some(t) => t.count > 0,
        None => false,
    } by {
        lemma_count_in_balanced_run(n, k);
    }
    law_one_active_one_idle(ops);
}

/// While a guard is alive, no event ends the idle wait with success: a round
/// that starts then arms no timer, and an armed timer is discarded by the
/// change that the first acquire publishes.
pub proof fn law_wait_pending_while_active(ops: Seq<GuardOp>, event: WaitEvent)
    requires
        run_ops(ops) is Some,
        run_ops(ops).unwrap().count > 0,
    ensures
        wait_action(run_ops(ops).unwrap().state) == WaitAction::AwaitChange,
        wait_step(wait_action(run_ops(ops).unwrap().state), event) != Some(
            WaitStep::Finish(Ok::<(), Error>(())),
        ),
        wait_step(WaitAction::AwaitChangeOrTimer, WaitEvent::Changed) == Some(WaitStep::Observe),
{
    law_state_follows_count(ops);
}

/// Once no guard is alive, a round of the idle wait arms its timer, and the
/// wait ends with success when that timer fires before another state is
/// published.
pub proof fn law_wait_resolves_when_idle(ops: Seq<GuardOp>)
    requires
        run_ops(ops) is Some,
        run_ops(ops).unwrap().count == 0,
    ensures
        wait_action(run_ops(ops).unwrap().state) == WaitAction::AwaitChangeOrTimer,
        wait_step(wait_action(run_ops(ops).unwrap().state), WaitEvent::TimerElapsed) == Some(
            WaitStep::Finish(Ok::<(), Error>(())),
        ),
{
    law_state_follows_count(ops);
}

} // verus!
