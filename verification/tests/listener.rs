use pvp_macro::find_custom_slot;
use pvp_macro::KeyBindings;
use pvp_macro::KeyCode;
use pvp_macro::Listener;
use pvp_macro::ListenerAction;
use pvp_macro::ListenerEvent;
use pvp_macro::MacroError;

fn key(code: u32) -> KeyCode {
    KeyCode { code }
}

fn enabled_listener() -> Listener {
    let mut l = Listener::new();
    l.start().unwrap();
    l
}

#[test]
fn listener_start_stop_errors() {
    let mut l = Listener::new();
    assert!(!l.is_running());
    assert_eq!(l.stop(), Err(MacroError::NotRunning));
    assert_eq!(l.start(), Ok(()));
    assert!(l.is_running());
    assert_eq!(l.start(), Err(MacroError::AlreadyRunning));
    assert_eq!(l.stop(), Ok(()));
    assert!(!l.is_running());
}

#[test]
fn begin_listening_sets_flag() {
    let mut l = Listener::new();
    assert!(!l.is_listening());
    l.begin_listening();
    assert!(l.is_listening());
}

#[test]
fn start_key_press_starts_service() {
    let mut l = enabled_listener();
    let kb = KeyBindings::default();
    let (captured, action) = l.dispatch(&kb, ListenerEvent::KeyPress(kb.start));
    assert_eq!(captured, None);
    assert_eq!(action, ListenerAction::StartService);
}

#[test]
fn start_key_release_pauses_service() {
    let mut l = enabled_listener();
    let kb = KeyBindings::default();
    let (captured, action) = l.dispatch(&kb, ListenerEvent::KeyRelease(kb.start));
    assert_eq!(captured, None);
    assert_eq!(action, ListenerAction::PauseService);
}

#[test]
fn custom_hotkey_fires_bound_slot() {
    let mut l = enabled_listener();
    let kb = KeyBindings::default();
    let (_, action) = l.dispatch(&kb, ListenerEvent::KeyPress(key(45)));
    assert_eq!(action, ListenerAction::UseSlot(key(4)));
    let (_, action) = l.dispatch(&kb, ListenerEvent::KeyPress(key(33)));
    assert_eq!(action, ListenerAction::UseSlot(key(7)));
}

#[test]
fn unbound_key_does_nothing() {
    let mut l = enabled_listener();
    let kb = KeyBindings::default();
    let (_, action) = l.dispatch(&kb, ListenerEvent::KeyPress(key(99)));
    assert_eq!(action, ListenerAction::Nothing);
    let (_, action) = l.dispatch(&kb, ListenerEvent::KeyRelease(key(99)));
    assert_eq!(action, ListenerAction::Nothing);
}

#[test]
fn disabled_macro_ignores_hotkeys() {
    let mut l = Listener::new();
    let kb = KeyBindings::default();
    let (_, action) = l.dispatch(&kb, ListenerEvent::KeyPress(kb.start));
    assert_eq!(action, ListenerAction::Nothing);
    let (_, action) = l.dispatch(&kb, ListenerEvent::KeyRelease(kb.start));
    assert_eq!(action, ListenerAction::Nothing);
}

#[test]
fn first_matching_custom_pair_wins() {
    let pairs = vec![
        (key(45), key(4)),
        (key(45), key(5)),
        (key(46), key(6)),
    ];
    assert_eq!(find_custom_slot(&pairs, key(45)), Some(key(4)));
    assert_eq!(find_custom_slot(&pairs, key(46)), Some(key(6)));
    assert_eq!(find_custom_slot(&pairs, key(47)), None);
    assert_eq!(find_custom_slot(&Vec::new(), key(45)), None);
}

#[test]
fn key_capture_takes_next_key_press() {
    let mut l = enabled_listener();
    let kb = KeyBindings::default();
    assert!(l.begin_key_capture());
    assert!(l.is_listening_key_event());
    // A second capture cannot start while one is pending.
    assert!(!l.begin_key_capture());
    let (captured, action) = l.dispatch(&kb, ListenerEvent::KeyPress(key(45)));
    assert_eq!(captured, Some(Some(key(45))));
    assert!(!l.is_listening_key_event());
    // The captured press still acts as a hotkey, as the hook reports it
    // to everyone.
    assert_eq!(action, ListenerAction::UseSlot(key(4)));
}

#[test]
fn button_press_cancels_key_capture() {
    let mut l = enabled_listener();
    let kb = KeyBindings::default();
    assert!(l.begin_key_capture());
    let (captured, action) = l.dispatch(&kb, ListenerEvent::ButtonPress);
    assert_eq!(captured, Some(None));
    assert_eq!(action, ListenerAction::Nothing);
    assert!(!l.is_listening_key_event());
}

#[test]
fn key_release_leaves_capture_pending() {
    let mut l = enabled_listener();
    let kb = KeyBindings::default();
    assert!(l.begin_key_capture());
    let (captured, _) = l.dispatch(&kb, ListenerEvent::KeyRelease(key(45)));
    assert_eq!(captured, None);
    assert!(l.is_listening_key_event());
}
