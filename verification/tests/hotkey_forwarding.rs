use ctrl_oem3::hotkey::{
    classify_message, forward_hotkey, forward_hotkey_sync, has_foreground, notify_quit,
    plan_key_press, read_title, try_mimic_ctrl_oem3, FollowUp, HotkeyAction, HotkeyError,
    HotkeyEvent, HotkeyState, HotkeyStep, KeyMessage, ThreadMessage, ID_HOTKEY_CTRLOEM3,
    MOD_CONTROL, TITLE_CAPACITY, VK_OEM_3, WM_HOTKEY, WM_KEYDOWN, WM_KEYUP, WM_SHUTDOWN,
};
use ctrl_oem3::pattern::WindowMatcher;

fn step(next: HotkeyState, action: HotkeyAction) -> Option<HotkeyStep> {
    Some(HotkeyStep { next, action })
}

fn retrieved(status: i32, message: u32, wparam: usize) -> HotkeyEvent {
    HotkeyEvent::Retrieved { status, message, wparam }
}

fn title_buffer(title: &str) -> (Vec<u16>, usize) {
    let units: Vec<u16> = title.encode_utf16().collect();
    let used = units.len().min(TITLE_CAPACITY);
    let mut buffer = vec![0u16; TITLE_CAPACITY];
    buffer[..used].copy_from_slice(&units[..used]);
    (buffer, used)
}

#[test]
fn native_constants_have_their_values() {
    assert_eq!(WM_HOTKEY, 0x0312);
    assert_eq!(WM_KEYDOWN, 0x0100);
    assert_eq!(WM_KEYUP, 0x0101);
    assert_eq!(WM_SHUTDOWN, 0x8000 + 2);
    assert_eq!(ID_HOTKEY_CTRLOEM3, 2333);
    assert_eq!(MOD_CONTROL, 2);
    assert_eq!(VK_OEM_3, 0xC0);
    assert_eq!(TITLE_CAPACITY, 512);
}

#[test]
fn forwarder_begins_by_registering() {
    assert_eq!(
        forward_hotkey(),
        HotkeyStep { next: HotkeyState::Created, action: HotkeyAction::Register }
    );
}

#[test]
fn registration_leads_into_the_loop() {
    assert_eq!(
        forward_hotkey_sync(HotkeyState::Created, HotkeyEvent::RegisterDone),
        step(HotkeyState::Registered, HotkeyAction::Retrieve)
    );
    assert_eq!(
        forward_hotkey_sync(HotkeyState::Created, HotkeyEvent::RegisterFailed),
        step(HotkeyState::Stopped, HotkeyAction::Finish(Some(HotkeyError::Register)))
    );
}

#[test]
fn shortcut_message_runs_the_trigger() {
    for state in [HotkeyState::Registered, HotkeyState::Running] {
        assert_eq!(
            forward_hotkey_sync(state, retrieved(1, WM_HOTKEY, 2333)),
            step(HotkeyState::Running, HotkeyAction::Dispatch(FollowUp::Trigger))
        );
    }
}

#[test]
fn other_shortcut_is_only_dispatched() {
    assert_eq!(
        forward_hotkey_sync(HotkeyState::Running, retrieved(1, WM_HOTKEY, 2334)),
        step(HotkeyState::Running, HotkeyAction::Dispatch(FollowUp::Nothing))
    );
    assert_eq!(classify_message(WM_KEYDOWN, 2333), FollowUp::Nothing);
    assert_eq!(classify_message(WM_HOTKEY, 0), FollowUp::Nothing);
}

#[test]
fn shutdown_message_posts_quit() {
    assert_eq!(
        forward_hotkey_sync(HotkeyState::Running, retrieved(1, WM_SHUTDOWN, 0)),
        step(HotkeyState::Running, HotkeyAction::Dispatch(FollowUp::PostQuit))
    );
    assert_eq!(classify_message(0x8002, 2333), FollowUp::PostQuit);
}

#[test]
fn quit_or_failed_retrieval_leaves_the_loop() {
    for status in [0, -1] {
        for state in [HotkeyState::Registered, HotkeyState::Running] {
            assert_eq!(
                forward_hotkey_sync(state, retrieved(status, WM_HOTKEY, 2333)),
                step(HotkeyState::Unregistering, HotkeyAction::Unregister)
            );
        }
    }
    assert_eq!(
        forward_hotkey_sync(HotkeyState::Running, retrieved(-2, 0, 0)),
        step(HotkeyState::Running, HotkeyAction::Dispatch(FollowUp::Nothing))
    );
}

#[test]
fn unregistration_ends_the_thread() {
    assert_eq!(
        forward_hotkey_sync(HotkeyState::Unregistering, HotkeyEvent::UnregisterDone),
        step(HotkeyState::Stopped, HotkeyAction::Finish(None))
    );
    assert_eq!(
        forward_hotkey_sync(HotkeyState::Unregistering, HotkeyEvent::UnregisterFailed),
        step(HotkeyState::Stopped, HotkeyAction::Finish(Some(HotkeyError::Unregister)))
    );
}

#[test]
fn forwarder_events_out_of_place_have_no_answer() {
    assert_eq!(forward_hotkey_sync(HotkeyState::Created, retrieved(1, 0, 0)), None);
    assert_eq!(forward_hotkey_sync(HotkeyState::Running, HotkeyEvent::RegisterDone), None);
    assert_eq!(forward_hotkey_sync(HotkeyState::Running, HotkeyEvent::UnregisterDone), None);
    assert_eq!(forward_hotkey_sync(HotkeyState::Unregistering, retrieved(1, 0, 0)), None);
    assert_eq!(forward_hotkey_sync(HotkeyState::Stopped, HotkeyEvent::UnregisterDone), None);
    assert_eq!(forward_hotkey_sync(HotkeyState::Stopped, HotkeyEvent::RegisterDone), None);
}

#[test]
fn stop_request_needs_a_thread_identifier() {
    assert_eq!(notify_quit(0), None);
    assert_eq!(notify_quit(4242), Some(ThreadMessage { thread: 4242, message: 0x8002 }));
}

#[test]
fn no_foreground_window_means_no_key_press() {
    let m = WindowMatcher::new("x", ".*").unwrap();
    assert!(!has_foreground(0));
    assert!(has_foreground(-1));
    assert!(has_foreground(77));
    let (buffer, used) = title_buffer("anything");
    assert_eq!(try_mimic_ctrl_oem3(&m, 0, &buffer, used), vec![]);
    assert_eq!(plan_key_press(0, true), vec![]);
}

#[test]
fn accepted_title_gets_key_down_then_key_up() {
    let m = WindowMatcher::new("x", "Code$").unwrap();
    let (buffer, used) = title_buffer("main.rs - Code");
    assert_eq!(
        try_mimic_ctrl_oem3(&m, 77, &buffer, used),
        vec![
            KeyMessage { window: 77, message: 0x0100, wparam: 0xC0, lparam: 1 },
            KeyMessage { window: 77, message: 0x0101, wparam: 0xC0, lparam: 1 },
        ]
    );
    assert_eq!(plan_key_press(77, false), vec![]);
}

#[test]
fn rejected_title_gets_nothing() {
    let m = WindowMatcher::new("x", "Code$").unwrap();
    let (buffer, used) = title_buffer("main.rs - Notes");
    assert_eq!(try_mimic_ctrl_oem3(&m, 77, &buffer, used), vec![]);
}

#[test]
fn only_the_used_part_of_the_buffer_is_the_title() {
    let m = WindowMatcher::new("x", "^Code$").unwrap();
    let (buffer, _) = title_buffer("Codex");
    assert_eq!(try_mimic_ctrl_oem3(&m, 5, &buffer, 4).len(), 2);
    assert_eq!(try_mimic_ctrl_oem3(&m, 5, &buffer, 5).len(), 0);
    assert_eq!(read_title(&buffer, 4), "Code");
    assert_eq!(read_title(&buffer, 0), "");
}

#[test]
fn empty_title_is_matched_as_empty() {
    let m = WindowMatcher::new("x", "^$").unwrap();
    let buffer = [0u16; 512];
    assert_eq!(try_mimic_ctrl_oem3(&m, 5, &buffer, 0).len(), 2);
    assert_eq!(try_mimic_ctrl_oem3(&m, 5, &buffer, 1).len(), 0);
}

#[test]
fn title_is_decoded_from_utf16_with_replacement() {
    let units: Vec<u16> = vec![0x0048, 0x00E9, 0xD83D, 0xDE00, 0xD800, 0x0021];
    assert_eq!(read_title(&units, 6), "H\u{e9}\u{1f600}\u{fffd}!");
    // A title cut in the middle of a surrogate pair still decodes.
    assert_eq!(read_title(&units, 3), "H\u{e9}\u{fffd}");
}

#[test]
fn full_buffer_title_is_read_whole() {
    let long = "a".repeat(600);
    let (buffer, used) = title_buffer(&long);
    assert_eq!(used, 512);
    assert_eq!(read_title(&buffer, used), "a".repeat(512));
    let m = WindowMatcher::new("x", "^a{512}$").unwrap();
    assert_eq!(try_mimic_ctrl_oem3(&m, 1, &buffer, used).len(), 2);
}
