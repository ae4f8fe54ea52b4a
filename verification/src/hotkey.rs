//! The shortcut forwarder: the life of the thread that owns the shortcut, what
//! it does with each message it retrieves, and how it is asked to stop.
//!
//! The native calls are the driver's work. It reports what they returned, and
//! the functions here decide what follows.

use crate::pattern::{pattern_accepts, WindowMatcher};
use vstd::prelude::*;
use vstd::slice::slice_subrange;

verus! {

/// Message: a registered shortcut was pressed.
pub const WM_HOTKEY: u32 = 0x0312;

/// Message: a key went down.
pub const WM_KEYDOWN: u32 = 0x0100;

/// Message: a key went up.
pub const WM_KEYUP: u32 = 0x0101;

/// Message: the forwarder is asked to leave its loop.
pub const WM_SHUTDOWN: u32 = 0x8002;

/// The identifier under which the shortcut is registered.
pub const ID_HOTKEY_CTRLOEM3: usize = 2333;

/// The modifier of the shortcut: the control key.
pub const MOD_CONTROL: u32 = 0x0002;

/// The base key of the shortcut.
pub const VK_OEM_3: u16 = 0xC0;

/// The number of UTF-16 units that the title buffer holds; a longer title is
/// cut off there.
pub const TITLE_CAPACITY: usize = 512;

/// Where the forwarder's thread stands.
#[derive(Clone, Copy, Debug, PartialEq, Eq, Structural)]
pub enum HotkeyState {
    /// The thread has a message queue; the shortcut is not registered yet.
    Created,
    /// The shortcut is registered; no message was retrieved yet.
    Registered,
    /// In the message loop.
    Running,
    /// The loop is left; the shortcut is being unregistered.
    Unregistering,
    /// The thread ends.
    Stopped,
}

/// What the driver reports of the forwarder's thread.
#[derive(Clone, Copy, Debug, PartialEq, Eq, Structural)]
pub enum HotkeyEvent {
    /// The shortcut was registered.
    RegisterDone,
    /// Registering the shortcut failed.
    RegisterFailed,
    /// The blocking retrieval returned `status`, with this message.
    Retrieved { status: i32, message: u32, wparam: usize },
    /// The shortcut was unregistered.
    UnregisterDone,
    /// Unregistering the shortcut failed.
    UnregisterFailed,
}

/// What follows the dispatch of a retrieved message.
#[derive(Clone, Copy, Debug, PartialEq, Eq, Structural)]
pub enum FollowUp {
    /// Nothing.
    Nothing,
    /// Run the trigger handler.
    Trigger,
    /// Ask the loop to end with its next retrieval.
    PostQuit,
}

/// Which native call failed.
#[derive(Clone, Copy, Debug, PartialEq, Eq, Structural)]
pub enum HotkeyError {
    Register,
    Unregister,
}

/// What the driver does next on the forwarder's thread.
#[derive(Clone, Copy, Debug, PartialEq, Eq)]
pub enum HotkeyAction {
    /// Register the shortcut.
    Register,
    /// Block until the next message.
    Retrieve,
    /// Translate and dispatch the message, do what follows, then retrieve.
    Dispatch(FollowUp),
    /// Unregister the shortcut.
    Unregister,
    /// End the thread with this result: success on `None`.
    Finish(Option<HotkeyError>),
}

/// The answer to one event of the forwarder's thread.
#[derive(Clone, Copy, Debug, PartialEq, Eq)]
pub struct HotkeyStep {
    pub next: HotkeyState,
    pub action: HotkeyAction,
}

/// Whether a retrieval's status ends the loop: a quit message, or a failure.
pub open spec fn ends_loop(status: i32) -> bool {
    status == 0 || status == -1
}

/// What follows the dispatch of a message.
pub open spec fn follow_up(message: u32, wparam: usize) -> FollowUp {
    if message == WM_HOTKEY && wparam == ID_HOTKEY_CTRLOEM3 {
        FollowUp::Trigger
    } else if message == WM_SHUTDOWN {
        FollowUp::PostQuit
    } else {
        FollowUp::Nothing
    }
}

/// The forwarder's thread: the answer to `event` in `state`, or `None` where
/// that event cannot occur in that state.
pub open spec fn hotkey_step(state: HotkeyState, event: HotkeyEvent) -> Option<HotkeyStep> {
    match (state, event) {
        (HotkeyState::Created, HotkeyEvent::RegisterDone) => Some(
            HotkeyStep { next: HotkeyState::Registered, action: HotkeyAction::Retrieve },
        ),
        (HotkeyState::Created, HotkeyEvent::RegisterFailed) => Some(
            HotkeyStep {
                next: HotkeyState::Stopped,
                action: HotkeyAction::Finish(Some(HotkeyError::Register)),
            },
        ),
        (HotkeyState::Registered, HotkeyEvent::Retrieved { status, message, wparam })
        | (HotkeyState::Running, HotkeyEvent::Retrieved { status, message, wparam }) => Some(
            if ends_loop(status) {
                HotkeyStep { next: HotkeyState::Unregistering, action: HotkeyAction::Unregister }
            } else {
                HotkeyStep {
                    next: HotkeyState::Running,
                    action: HotkeyAction::Dispatch(follow_up(message, wparam)),
                }
            },
        ),
        (HotkeyState::Unregistering, HotkeyEvent::UnregisterDone) => Some(
            HotkeyStep { next: HotkeyState::Stopped, action: HotkeyAction::Finish(None) },
        ),
        (HotkeyState::Unregistering, HotkeyEvent::UnregisterFailed) => Some(
            HotkeyStep {
                next: HotkeyState::Stopped,
                action: HotkeyAction::Finish(Some(HotkeyError::Unregister)),
            },
        ),
        _ => None,
    }
}

/// The state in which the forwarder's thread begins, and its first action.
pub fn forward_hotkey() -> (step: HotkeyStep)
    ensures
        step == (HotkeyStep { next: HotkeyState::Created, action: HotkeyAction::Register }),
{
    HotkeyStep { next: HotkeyState::Created, action: HotkeyAction::Register }
}

/// Decides what follows the dispatch of a retrieved message.
pub fn classify_message(message: u32, wparam: usize) -> (follow: FollowUp)
    ensures
        follow == follow_up(message, wparam),
{
    if message == WM_HOTKEY && wparam == ID_HOTKEY_CTRLOEM3 {
        FollowUp::Trigger
    } else if message == WM_SHUTDOWN {
        FollowUp::PostQuit
    } else {
        FollowUp::Nothing
    }
}

/// Answers one event of the forwarder's thread.
pub fn forward_hotkey_sync(state: HotkeyState, event: HotkeyEvent) -> (step: Option<HotkeyStep>)
    ensures
        step == hotkey_step(state, event),
{
    match state {
        HotkeyState::Created => match event {
            HotkeyEvent::RegisterDone => Some(
                HotkeyStep { next: HotkeyState::Registered, action: HotkeyAction::Retrieve },
            ),
            HotkeyEvent::RegisterFailed => Some(
                HotkeyStep {
                    next: HotkeyState::Stopped,
                    action: HotkeyAction::Finish(Some(HotkeyError::Register)),
                },
            ),
            _ => None,
        },
        HotkeyState::Registered | HotkeyState::Running => match event {
            HotkeyEvent::Retrieved { status, message, wparam } => {
                if status == 0 || status == -1 {
                    Some(
                        HotkeyStep {
                            next: HotkeyState::Unregistering,
                            action: HotkeyAction::Unregister,
                        },
                    )
                } else {
                    Some(
                        HotkeyStep {
                            next: HotkeyState::Running,
                            action: HotkeyAction::Dispatch(classify_message(message, wparam)),
                        },
                    )
                }
            },
            _ => None,
        },
        HotkeyState::Unregistering => match event {
            HotkeyEvent::UnregisterDone => Some(
                HotkeyStep { next: HotkeyState::Stopped, action: HotkeyAction::Finish(None) },
            ),
            HotkeyEvent::UnregisterFailed => Some(
                HotkeyStep {
                    next: HotkeyState::Stopped,
                    action: HotkeyAction::Finish(Some(HotkeyError::Unregister)),
                },
            ),
            _ => None,
        },
        HotkeyState::Stopped => None,
    }
}

/// What a run of the forwarder's thread has done so far.
pub struct ForwarderRun {
    pub state: HotkeyState,
    /// How often the shortcut was registered.
    pub registrations: nat,
    /// How often unregistering it was attempted.
    pub unregistrations: nat,
}

/// The forwarder's thread after a run of events from its start, or `None`
/// where one of them cannot occur.
pub open spec fn run_forwarder(events: Seq<HotkeyEvent>) -> Option<ForwarderRun>
    decreases events.len(),
{
    if events.len() == 0 {
        Some(ForwarderRun { state: HotkeyState::Created, registrations: 0, unregistrations: 0 })
    } else {
        match run_forwarder(events.drop_last()) {
            Some(run) => match hotkey_step(run.state, events.last()) {
                Some(step) => Some(
                    ForwarderRun {
                        state: step.next,
                        registrations: if events.last() == HotkeyEvent::RegisterDone {
                            run.registrations + 1
                        } else {
                            run.registrations
                        },
                        unregistrations: if step.action == HotkeyAction::Unregister {
                            run.unregistrations + 1
                        } else {
                            run.unregistrations
                        },
                    },
                ),
                None => None,
            },
            None => None,
        }
    }
}

/// The place of a state in the life of the forwarder's thread.
pub open spec fn stage(state: HotkeyState) -> nat {
    match state {
        HotkeyState::Created => 0,
        HotkeyState::Registered => 1,
        HotkeyState::Running => 2,
        HotkeyState::Unregistering => 3,
        HotkeyState::Stopped => 4,
    }
}

/// The forwarder's thread only moves forward through its states, ends
/// exactly when it reports its result, and leaves the message loop only to
/// unregister the shortcut.
pub proof fn law_forwarder_moves_forward(state: HotkeyState, event: HotkeyEvent)
    requires
        hotkey_step(state, event) is Some,
    ensures
        stage(hotkey_step(state, event).unwrap().next) >= stage(state),
        (hotkey_step(state, event).unwrap().next == HotkeyState::Stopped) == (hotkey_step(
            state,
            event,
        ).unwrap().action is Finish),
        (hotkey_step(state, event).unwrap().next == HotkeyState::Unregistering) == (hotkey_step(
            state,
            event,
        ).unwrap().action == HotkeyAction::Unregister),
        state == HotkeyState::Registered || state == HotkeyState::Running ==> hotkey_step(
            state,
            event,
        ).unwrap().next == HotkeyState::Running || hotkey_step(state, event).unwrap().next
            == HotkeyState::Unregistering,
{
}

/// The shortcut is registered at most once, and a thread that has ended has
/// attempted to unregister it exactly as often as it registered it, whatever
/// messages it retrieved in between.
pub proof fn law_registration_is_undone(events: Seq<HotkeyEvent>)
    requires
        run_forwarder(events) is Some,
    ensures
        run_forwarder(events).unwrap().registrations <= 1,
        run_forwarder(events).unwrap().unregistrations <= run_forwarder(
            events,
        ).unwrap().registrations,
        run_forwarder(events).unwrap().state == HotkeyState::Stopped ==> run_forwarder(
            events,
        ).unwrap().unregistrations == run_forwarder(events).unwrap().registrations,
        run_forwarder(events).unwrap().state == HotkeyState::Registered || run_forwarder(
            events,
        ).unwrap().state == HotkeyState::Running ==> run_forwarder(events).unwrap().registrations
            == 1 && run_forwarder(events).unwrap().unregistrations == 0,
{
    lemma_forwarder_run(events);
}

proof fn lemma_forwarder_run(events: Seq<HotkeyEvent>)
    requires
        run_forwarder(events) is Some,
    ensures
        ({
            let run = run_forwarder(events).unwrap();
            match run.state {
                HotkeyState::Created => run.registrations == 0 && run.unregistrations == 0,
                HotkeyState::Registered | HotkeyState::Running => run.registrations == 1
                    && run.unregistrations == 0,
                HotkeyState::Unregistering => run.registrations == 1 && run.unregistrations == 1,
                HotkeyState::Stopped => run.registrations == run.unregistrations
                    && run.registrations <= 1,
            }
        }),
    decreases events.len(),
{
    if events.len() > 0 {
        lemma_forwarder_run(events.drop_last());
    }
}

/// A message to post to a thread's queue.
#[derive(Clone, Copy, Debug, PartialEq, Eq, Structural)]
pub struct ThreadMessage {
    pub thread: u32,
    pub message: u32,
}

/// The stop request for the forwarder's thread, given the identifier that the
/// lookup returned: none where the lookup failed and returned zero.
pub fn notify_quit(thread_id: u32) -> (request: Option<ThreadMessage>)
    ensures
        request == if thread_id == 0 {
            None
        } else {
            Some(ThreadMessage { thread: thread_id, message: WM_SHUTDOWN })
        },
{
    if thread_id == 0 {
        None
    } else {
        Some(ThreadMessage { thread: thread_id, message: WM_SHUTDOWN })
    }
}

/// A key message to post to a window.
#[derive(Clone, Copy, Debug, PartialEq, Eq, Structural)]
pub struct KeyMessage {
    pub window: isize,
    pub message: u32,
    pub wparam: usize,
    pub lparam: isize,
}

/// The text that a run of UTF-16 units decodes to, with the replacement
/// character for each unpaired surrogate, as `String::from_utf16_lossy`
/// decodes it.
pub uninterp spec fn utf16_lossy_text(units: Seq<u16>) -> Seq<char>;

/// Calls `String::from_utf16_lossy`, which decodes every input and puts the
/// replacement character where a surrogate is unpaired.
#[verifier::external_body]
fn decode_utf16_lossy(units: &[u16]) -> (text: String)
    ensures
        text@ == utf16_lossy_text(units@),
{
    String::from_utf16_lossy(units)
}

/// The title held in the first `used` units of a title buffer.
pub open spec fn title_of(buffer: Seq<u16>, used: int) -> Seq<char> {
    utf16_lossy_text(buffer.subrange(0, used))
}

/// The key messages that re-send the shortcut's base key to a window: down,
/// then up.
pub open spec fn key_press(window: isize) -> Seq<KeyMessage> {
    seq![
        KeyMessage { window, message: WM_KEYDOWN, wparam: VK_OEM_3 as usize, lparam: 1 },
        KeyMessage { window, message: WM_KEYUP, wparam: VK_OEM_3 as usize, lparam: 1 },
    ]
}

/// What the trigger handler posts, given the foreground window and its title.
pub open spec fn mimic_plan(pattern: Seq<char>, window: isize, title: Seq<char>) -> Seq<
    KeyMessage,
> {
    if window != 0 && pattern_accepts(pattern, title) {
        key_press(window)
    } else {
        Seq::empty()
    }
}

/// Whether a foreground window was found, so that its title is worth reading.
pub fn has_foreground(window: isize) -> (found: bool)
    ensures
        found == (window != 0),
{
    window != 0
}

/// Decodes the title that the first `used` units of `buffer` hold.
pub fn read_title(buffer: &[u16], used: usize) -> (title: String)
    requires
        used <= buffer@.len(),
    ensures
        title@ == title_of(buffer@, used as int),
{
    decode_utf16_lossy(slice_subrange(buffer, 0, used))
}

/// The messages to post for a window with this title, once the pattern's
/// answer is known.
pub fn plan_key_press(window: isize, accepted: bool) -> (plan: Vec<KeyMessage>)
    ensures
        plan@ == if window != 0 && accepted {
            key_press(window)
        } else {
            Seq::empty()
        },
{
    let mut plan: Vec<KeyMessage> = Vec::new();
    if window != 0 && accepted {
        let key: usize = VK_OEM_3 as usize;
        plan.push(KeyMessage { window, message: WM_KEYDOWN, wparam: key, lparam: 1 });
        plan.push(KeyMessage { window, message: WM_KEYUP, wparam: key, lparam: 1 });
    }
    assert(plan@ =~= if window != 0 && accepted {
        key_press(window)
    } else {
        Seq::empty()
    });
    plan
}

/// The trigger handler: decides what to post when the shortcut was pressed
/// while `window` was in the foreground, with its title in the first `used`
/// units of `buffer`. Nothing is posted where there is no window or the
/// pattern rejects the title.
pub fn try_mimic_ctrl_oem3(matcher: &WindowMatcher, window: isize, buffer: &[u16], used: usize) -> (plan:
    Vec<KeyMessage>)
    requires
        used <= buffer@.len(),
    ensures
        plan@ == mimic_plan(matcher.pattern(), window, title_of(buffer@, used as int)),
{
    if !has_foreground(window) {
        return Vec::new();
    }
    let title = read_title(buffer, used);
    let accepted = matcher.matches(title.as_str());
    plan_key_press(window, accepted)
}

} // verus!
