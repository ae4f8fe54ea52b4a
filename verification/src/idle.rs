//! Idle tracking: a shared count of open control connections, the two-valued
//! state derived from it, and the decisions of the idle wait.

use std::sync::atomic::{AtomicUsize, Ordering};
use std::sync::Arc;
use std::time::Duration;
use tokio::sync::watch::{Receiver, Sender};
use vstd::prelude::*;

verus! {

/// The sending half of tokio's watch channel, carried as an opaque value.
#[verifier::external_type_specification]
#[verifier::external_body]
#[verifier::reject_recursive_types(T)]
pub struct ExWatchSender<T>(Sender<T>);

/// The receiving half of tokio's watch channel, carried as an opaque value.
#[verifier::external_type_specification]
#[verifier::external_body]
#[verifier::reject_recursive_types(T)]
pub struct ExWatchReceiver<T>(Receiver<T>);

/// Whether any control connection is open.
#[derive(Clone, Copy, Debug, PartialEq, Eq, Structural)]
pub enum State {
    Active,
    Idle,
}

/// Why an idle wait ended without its timer firing.
#[derive(Clone, Copy, Debug, PartialEq, Eq, Structural)]
pub enum Error {
    /// Every handle that could publish a state is gone.
    Disconnected,
}

impl Error {
    /// The text shown for this error.
    pub fn message(&self) -> (s: String)
        ensures
            s@ == "the paired 'Observed' is dropped. "@,
    {
        "the paired 'Observed' is dropped. ".to_owned()
    }
}

/// The state to publish after an acquire that found `prev` guards alive.
pub open spec fn acquire_signal(prev: nat) -> Option<State> {
    if prev == 0 {
        Some(State::Active)
    } else {
        None
    }
}

/// The state to publish after a release that found `prev` guards alive.
pub open spec fn release_signal(prev: nat) -> Option<State> {
    if prev == 1 {
        Some(State::Idle)
    } else {
        None
    }
}

/// Decides what an acquire publishes, given the count it replaced.
pub fn acquire_transition(prev_count: usize) -> (signal: Option<State>)
    ensures
        signal == acquire_signal(prev_count as nat),
{
    if prev_count == 0 {
        Some(State::Active)
    } else {
        None
    }
}

/// Decides what a release publishes, given the count it replaced.
pub fn release_transition(prev_count: usize) -> (signal: Option<State>)
    ensures
        signal == release_signal(prev_count as nat),
    opens_invariants none
    no_unwind
{
    if prev_count == 1 {
        Some(State::Idle)
    } else {
        None
    }
}

/// What one round of the idle wait suspends on.
#[derive(Clone, Copy, Debug, PartialEq, Eq, Structural)]
pub enum WaitAction {
    /// The next change of state, and nothing else.
    AwaitChange,
    /// The next change of state, or a timer of the configured duration that
    /// starts now, whichever comes first.
    AwaitChangeOrTimer,
}

/// What ended a round of the idle wait.
#[derive(Clone, Copy, Debug, PartialEq, Eq, Structural)]
pub enum WaitEvent {
    /// A state was published since the last observation.
    Changed,
    /// Every handle that could publish is gone.
    Closed,
    /// The timer fired first.
    TimerElapsed,
}

/// How the idle wait goes on after a round.
#[derive(Clone, Copy, Debug, PartialEq, Eq)]
pub enum WaitStep {
    /// Observe the state again and start another round; a timer that ran is
    /// discarded.
    Observe,
    /// The wait is over, with this result.
    Finish(Result<(), Error>),
}

/// What a round suspends on, given the state observed at its start.
pub open spec fn wait_action(state: State) -> WaitAction {
    match state {
        State::Active => WaitAction::AwaitChange,
        State::Idle => WaitAction::AwaitChangeOrTimer,
    }
}

/// How the wait goes on after `event` ended a round that suspended on
/// `action`, or `None` where that event cannot end such a round.
pub open spec fn wait_step(action: WaitAction, event: WaitEvent) -> Option<WaitStep> {
    match (action, event) {
        (_, WaitEvent::Changed) => Some(WaitStep::Observe),
        (_, WaitEvent::Closed) => Some(WaitStep::Finish(Err(Error::Disconnected))),
        (WaitAction::AwaitChangeOrTimer, WaitEvent::TimerElapsed) => Some(
            WaitStep::Finish(Ok(())),
        ),
        (WaitAction::AwaitChange, WaitEvent::TimerElapsed) => None,
    }
}

/// Decides what a round suspends on.
pub fn next_wait(state: State) -> (action: WaitAction)
    ensures
        action == wait_action(state),
{
    match state {
        State::Active => WaitAction::AwaitChange,
        State::Idle => WaitAction::AwaitChangeOrTimer,
    }
}

/// Decides how the wait goes on after a round.
pub fn resume_wait(action: WaitAction, event: WaitEvent) -> (step: Option<WaitStep>)
    ensures
        step == wait_step(action, event),
{
    match event {
        WaitEvent::Changed => Some(WaitStep::Observe),
        WaitEvent::Closed => Some(WaitStep::Finish(Err(Error::Disconnected))),
        WaitEvent::TimerElapsed => match action {
            WaitAction::AwaitChangeOrTimer => Some(WaitStep::Finish(Ok(()))),
            WaitAction::AwaitChange => None,
        },
    }
}

/// Calls `Sender::send_replace` of tokio's watch channel, which stores the
/// value and wakes the receivers. The value it hands back, the one replaced,
/// is dropped; nothing is claimed of it.
#[verifier::external_body]
fn publish(tx: &Sender<State>, state: State)
    opens_invariants none
    no_unwind
{
    tx.send_replace(state);
}

/// Calls `AtomicUsize::fetch_sub` with sequentially consistent ordering. It
/// wraps on underflow and never unwinds. The count it hands back is the one
/// it replaced, which other handles may have changed at any time: nothing is
/// claimed of it.
#[verifier::external_body]
fn lower_count(count: &Arc<AtomicUsize>) -> (prev: usize)
    opens_invariants none
    no_unwind
{
    count.fetch_sub(1, Ordering::SeqCst)
}

/// Calls `Clone::clone` of tokio's watch `Sender`: another handle to the same
/// channel.
#[verifier::external_body]
fn clone_sender(tx: &Sender<State>) -> (r: Sender<State>) {
    tx.clone()
}

/// Calls `Clone::clone` of `Arc`: another handle to the same counter.
#[verifier::external_body]
fn clone_counter(c: &Arc<AtomicUsize>) -> (r: Arc<AtomicUsize>) {
    c.clone()
}

/// The value that a receiver's channel held at the version which the
/// receiver has marked as seen. A channel gets a new version with every value
/// sent, so a receiver's channel and version fix that value; which version a
/// receiver comes to see depends on what the senders did.
pub uninterp spec fn seen_value(rx: Receiver<State>) -> State;

/// Calls `tokio::sync::watch::channel`, which makes a channel that holds
/// `init` until something else is sent, and a receiver that has marked that
/// first version as seen.
#[verifier::external_body]
fn state_channel(init: State) -> (r: (Sender<State>, Receiver<State>))
    ensures
        seen_value(r.1) == init,
{
    tokio::sync::watch::channel(init)
}

/// Calls `Receiver::borrow_and_update` of tokio's watch channel and copies the
/// value out. Under the channel's lock it reads the value and marks the
/// version of that value as seen, so what it returns is the value at the
/// version that the receiver has seen afterwards. Which version that is
/// depends on what the senders did.
#[verifier::external_body]
fn latest(rx: &mut Receiver<State>) -> (r: State)
    ensures
        r == seen_value(*final(rx)),
{
    *rx.borrow_and_update()
}

/// One decision of the tracker: the count that an acquire or a release found,
/// and the state it published on that account, if any.
pub type Decision = (usize, Option<State>);

/// The count that an operation found, as a number.
pub open spec fn count_found(prev_count: usize) -> nat {
    prev_count as nat
}

/// The side that connections register with.
pub struct Observed {
    active_count: Arc<AtomicUsize>,
    state: Sender<State>,
    initial_count: Ghost<nat>,
    decisions: Ghost<Seq<Decision>>,
}

/// One open connection's share of the active count.
pub struct ActiveGuard {
    active_count: Arc<AtomicUsize>,
    state: Sender<State>,
    released: Ghost<Option<Decision>>,
}

/// The side that waits for the tracker to stay idle.
pub struct Idle {
    pub timeout: Duration,
    pub state: Receiver<State>,
}

impl Observed {
    /// The count that was handed to the counter when the tracker was made.
    /// This is a record kept beside the counter, which is itself opaque.
    pub closed spec fn initial_count(&self) -> nat {
        self.initial_count@
    }

    /// A record of every acquire made through this handle so far, oldest
    /// first: the count that it found, and the state that it decided to
    /// publish on that account.
    pub closed spec fn decisions(&self) -> Seq<Decision> {
        self.decisions@
    }

    /// Registers one more open connection and returns its guard, which has
    /// not released its share.
    ///
    /// The contract records the decision made on the count found: one entry
    /// is added to `decisions`, and what it publishes for the count it found
    /// is what `acquire_signal` says, so `Active` exactly when it found none.
    /// The counter and the channel are shared with the guards and opaque:
    /// that the count itself is raised by one, and that the decision is sent,
    /// is what the body does and no clause states.
    pub fn get_active(&mut self) -> (guard: ActiveGuard)
        ensures
            final(self).initial_count() == old(self).initial_count(),
            final(self).decisions().len() == old(self).decisions().len() + 1,
            final(self).decisions().drop_last() == old(self).decisions(),
            final(self).decisions().last().1 == acquire_signal(
                count_found(final(self).decisions().last().0),
            ),
            guard.released() is None,
    {
        let prev_count: usize = self.active_count.fetch_add(1, Ordering::SeqCst);
        let signal = acquire_transition(prev_count);
        match signal {
            Some(s) => publish(&self.state, s),
            None => {},
        }
        let ghost before = self.decisions@;
        self.decisions = Ghost(before.push((prev_count, signal)));
        assert(before.push((prev_count, signal)).drop_last() =~= before);
        ActiveGuard {
            active_count: clone_counter(&self.active_count),
            state: clone_sender(&self.state),
            released: Ghost(None),
        }
    }
}

impl ActiveGuard {
    /// A record of the decision that the release of this guard made: `None`
    /// while it holds its share.
    pub closed spec fn released(&self) -> Option<Decision> {
        self.released@
    }
}

impl Drop for ActiveGuard {
    /// Gives the share back.
    ///
    /// The contract records the decision made on the count found: what it
    /// publishes for that count is what `release_signal` says, so `Idle`
    /// exactly when it found this guard to be the last. That the shared count
    /// itself is lowered by one, and that the decision is sent, is what the
    /// body does and no clause states.
    fn drop(&mut self)
        ensures
            final(self).released() matches Some(decision) && decision.1 == release_signal(
                count_found(decision.0),
            ),
        opens_invariants none
        no_unwind
    {
        let prev_count: usize = lower_count(&self.active_count);
        let signal = release_transition(prev_count);
        match signal {
            Some(s) => publish(&self.state, s),
            None => {},
        }
        self.released = Ghost(Some((prev_count, signal)));
    }
}

impl Idle {
    /// Reads the latest published state and marks it as seen, so that only a
    /// later publication counts as a change. The state returned is the one
    /// that the channel held at the version now seen; which version that is
    /// depends on the guards made and dropped so far.
    pub fn observe(&mut self) -> (state: State)
        ensures
            final(self).timeout == old(self).timeout,
            state == seen_value(final(self).state),
    {
        latest(&mut self.state)
    }

    /// Starts one round of the idle wait: observes the state and decides on
    /// it what to suspend on. The round's end is then handed to
    /// `resume_wait`.
    pub fn wait(&mut self) -> (action: WaitAction)
        ensures
            final(self).timeout == old(self).timeout,
            action == wait_action(seen_value(final(self).state)),
    {
        let state = self.observe();
        next_wait(state)
    }
}

/// The count that a tracker starts with: no connection is open.
pub const INITIAL_COUNT: usize = 0;

/// Makes the two halves of a tracker over one counter, which starts at
/// `count`, and one channel, which starts on `initial`.
fn pair_from(count: usize, initial: State, timeout: Duration) -> (pair: (Observed, Idle))
    ensures
        pair.0.initial_count() == count_found(count),
        pair.0.decisions() == Seq::<Decision>::empty(),
        pair.1.timeout == timeout,
        seen_value(pair.1.state) == initial,
{
    let counter = Arc::new(AtomicUsize::new(count));
    let (tx, rx) = state_channel(initial);
    (
        Observed {
            active_count: counter,
            state: tx,
            initial_count: Ghost(count_found(count)),
            decisions: Ghost(Seq::empty()),
        },
        Idle { timeout, state: rx },
    )
}

/// Makes a tracker with no open connection, and the waiter paired with it.
/// The channel starts on `Idle`, which is what the waiter sees until a state
/// is published; the waiter has the timeout given. Zero is handed to the
/// counter and no acquire has been made: of these the contract holds a
/// record, the counter itself being opaque.
pub fn new_pair(timeout: Duration) -> (pair: (Observed, Idle))
    ensures
        seen_value(pair.1.state) == State::Idle,
        pair.1.timeout == timeout,
        pair.0.initial_count() == 0,
        pair.0.decisions() == Seq::<Decision>::empty(),
{
    pair_from(INITIAL_COUNT, State::Idle, timeout)
}

} // verus!
