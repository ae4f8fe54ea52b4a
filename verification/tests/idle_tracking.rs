use ctrl_oem3::idle::{
    acquire_transition, new_pair, next_wait, release_transition, resume_wait, Error, State,
    WaitAction, WaitEvent, WaitStep,
};
use std::time::Duration;

#[test]
fn new_pair_starts_idle_with_its_timeout() {
    let (_obs, mut idle) = new_pair(Duration::from_secs(6));
    assert_eq!(idle.timeout, Duration::from_secs(6));
    assert_eq!(idle.observe(), State::Idle);
    assert_eq!(idle.wait(), WaitAction::AwaitChangeOrTimer);
}

#[test]
fn first_guard_makes_the_tracker_active() {
    let (mut obs, mut idle) = new_pair(Duration::from_millis(10));
    let guard = obs.get_active();
    assert_eq!(idle.observe(), State::Active);
    assert_eq!(idle.wait(), WaitAction::AwaitChange);
    drop(guard);
    assert_eq!(idle.observe(), State::Idle);
}

#[test]
fn tracker_stays_active_until_the_last_guard_is_dropped() {
    let (mut obs, mut idle) = new_pair(Duration::from_millis(10));
    let a = obs.get_active();
    let b = obs.get_active();
    let c = obs.get_active();
    assert_eq!(idle.observe(), State::Active);
    drop(b);
    assert_eq!(idle.observe(), State::Active);
    drop(a);
    assert_eq!(idle.observe(), State::Active);
    drop(c);
    assert_eq!(idle.observe(), State::Idle);
}

#[test]
fn balanced_guards_publish_one_active_and_one_idle() {
    let (mut obs, idle) = new_pair(Duration::from_millis(10));
    let rx = idle.state;
    let mut guards = Vec::new();
    for _ in 0..5 {
        guards.push(obs.get_active());
    }
    // Exactly one publication so far: the receiver sees one change.
    assert!(rx.has_changed().unwrap());
    let mut rx = rx;
    assert_eq!(*rx.borrow_and_update(), State::Active);
    guards.swap(0, 3);
    while guards.len() > 1 {
        guards.pop();
        assert!(!rx.has_changed().unwrap());
    }
    guards.pop();
    assert!(rx.has_changed().unwrap());
    assert_eq!(*rx.borrow_and_update(), State::Idle);
    assert!(!rx.has_changed().unwrap());
}

#[test]
fn tracker_can_become_active_again() {
    let (mut obs, mut idle) = new_pair(Duration::from_millis(10));
    drop(obs.get_active());
    assert_eq!(idle.observe(), State::Idle);
    let g = obs.get_active();
    assert_eq!(idle.observe(), State::Active);
    drop(g);
    assert_eq!(idle.observe(), State::Idle);
}

#[test]
fn guard_outlives_the_observed_side() {
    let (mut obs, mut idle) = new_pair(Duration::from_millis(10));
    let g = obs.get_active();
    drop(obs);
    assert_eq!(idle.observe(), State::Active);
    drop(g);
    assert_eq!(idle.observe(), State::Idle);
}

#[test]
fn transitions_signal_only_at_the_edges() {
    assert_eq!(acquire_transition(0), Some(State::Active));
    assert_eq!(acquire_transition(1), None);
    assert_eq!(acquire_transition(7), None);
    assert_eq!(release_transition(1), Some(State::Idle));
    assert_eq!(release_transition(2), None);
    assert_eq!(release_transition(0), None);
}

#[test]
fn wait_suspends_on_change_alone_while_active() {
    assert_eq!(next_wait(State::Active), WaitAction::AwaitChange);
    assert_eq!(next_wait(State::Idle), WaitAction::AwaitChangeOrTimer);
}

#[test]
fn wait_finishes_only_by_timer_or_disconnection() {
    assert_eq!(
        resume_wait(WaitAction::AwaitChangeOrTimer, WaitEvent::TimerElapsed),
        Some(WaitStep::Finish(Ok(())))
    );
    assert_eq!(resume_wait(WaitAction::AwaitChange, WaitEvent::TimerElapsed), None);
    assert_eq!(
        resume_wait(WaitAction::AwaitChangeOrTimer, WaitEvent::Changed),
        Some(WaitStep::Observe)
    );
    assert_eq!(resume_wait(WaitAction::AwaitChange, WaitEvent::Changed), Some(WaitStep::Observe));
    assert_eq!(
        resume_wait(WaitAction::AwaitChange, WaitEvent::Closed),
        Some(WaitStep::Finish(Err(Error::Disconnected)))
    );
    assert_eq!(
        resume_wait(WaitAction::AwaitChangeOrTimer, WaitEvent::Closed),
        Some(WaitStep::Finish(Err(Error::Disconnected)))
    );
}

#[test]
fn disconnected_error_has_its_message() {
    assert_eq!(Error::Disconnected.message(), "the paired 'Observed' is dropped. ");
}
