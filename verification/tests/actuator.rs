use pvp_macro::ActionKind;
use pvp_macro::ActionRequest;
use pvp_macro::HeldState;
use pvp_macro::KeyBindings;
use pvp_macro::KeyCode;
use pvp_macro::Minecraft;
use pvp_macro::MouseButton;
use pvp_macro::Strength;
use pvp_macro::SyntheticEvent;

fn key(code: u32) -> KeyCode {
    KeyCode { code }
}

#[test]
fn default_bindings_values() {
    let kb = KeyBindings::default();
    assert_eq!(kb.start, key(29));
    assert_eq!(kb.sword, key(2));
    assert_eq!(kb.fishing_rod, key(3));
    assert_eq!(
        kb.custom,
        vec![
            (key(45), key(4)),
            (key(46), key(5)),
            (key(47), key(6)),
            (key(33), key(7)),
        ]
    );
}

#[test]
fn strong_request_emits_full_sequence() {
    let mut m = Minecraft::new();
    let req = m.use_item(key(10));
    assert_eq!(req.strength, Strength::Strong);
    let (events, pending) = m.handle_request(req, None);
    assert_eq!(
        events,
        vec![
            SyntheticEvent::KeyPress(key(10)),
            SyntheticEvent::ButtonPress(MouseButton::Right),
            SyntheticEvent::KeyRelease(key(10)),
            SyntheticEvent::ButtonRelease(MouseButton::Right),
        ]
    );
    assert_eq!(pending, None);
    assert!(!m.busy);
    assert_eq!(m.held, HeldState { key: None, button: None });
}

#[test]
fn sword_request_uses_left_button() {
    let mut m = Minecraft::new();
    let req = m.use_sword();
    assert_eq!(req.slot, key(2));
    assert_eq!(req.kind, ActionKind::Punch);
    assert_eq!(req.strength, Strength::Weak);
    let (events, _) = m.handle_request(req, None);
    assert_eq!(
        events,
        vec![
            SyntheticEvent::KeyPress(key(2)),
            SyntheticEvent::ButtonPress(MouseButton::Left),
            SyntheticEvent::KeyRelease(key(2)),
            SyntheticEvent::ButtonRelease(MouseButton::Left),
        ]
    );
}

#[test]
fn fishing_rod_request_uses_bound_slot() {
    let m = Minecraft::new();
    let req = m.use_fishing_rod();
    assert_eq!(req.slot, key(3));
    assert_eq!(req.kind, ActionKind::UseItem);
    assert_eq!(req.strength, Strength::Weak);
}

#[test]
fn weak_request_dropped_while_busy() {
    let mut m = Minecraft {
        busy: true,
        held: HeldState { key: None, button: None },
        keybindings: KeyBindings::default(),
    };
    let weak = ActionRequest {
        slot: key(2),
        kind: ActionKind::Punch,
        strength: Strength::Weak,
    };
    let (events, pending) = m.handle_request(weak, None);
    assert!(events.is_empty());
    assert_eq!(pending, None);
    assert!(m.busy);
    assert_eq!(m.held, HeldState { key: None, button: None });
}

#[test]
fn strong_poll_preempts_and_releases_everything() {
    let mut m = Minecraft::new();
    let first = m.use_item(key(10));
    let second = m.use_item(key(11));
    let (events, pending) = m.handle_request(first, Some(second));
    // The press batch fired, then everything held was released before the
    // newcomer takes over; nothing stays held.
    assert_eq!(
        events,
        vec![
            SyntheticEvent::KeyPress(key(10)),
            SyntheticEvent::ButtonPress(MouseButton::Right),
            SyntheticEvent::KeyRelease(key(10)),
            SyntheticEvent::ButtonRelease(MouseButton::Right),
        ]
    );
    assert_eq!(pending, Some(second));
    assert_eq!(m.held, HeldState { key: None, button: None });
    // The preempted strong action is still mid-flight: busy stays set
    // until the newcomer completes.
    assert!(m.busy);
    let (events2, pending2) = m.handle_request(second, None);
    assert_eq!(events2.len(), 4);
    assert_eq!(pending2, None);
    assert!(!m.busy);
    assert_eq!(m.held, HeldState { key: None, button: None });
}

#[test]
fn weak_poll_does_not_preempt() {
    let mut m = Minecraft::new();
    let strong = m.use_item(key(10));
    let weak = m.use_sword();
    let (events, pending) = m.handle_request(strong, Some(weak));
    assert_eq!(events.len(), 4);
    assert_eq!(pending, None);
    assert!(!m.busy);
}

#[test]
fn release_all_lets_go_of_held_items() {
    let mut held = HeldState {
        key: Some(key(10)),
        button: Some(MouseButton::Right),
    };
    let events = held.release_all();
    assert_eq!(
        events,
        vec![
            SyntheticEvent::KeyRelease(key(10)),
            SyntheticEvent::ButtonRelease(MouseButton::Right),
        ]
    );
    assert_eq!(held, HeldState { key: None, button: None });

    let mut key_only = HeldState { key: Some(key(9)), button: None };
    assert_eq!(
        key_only.release_all(),
        vec![SyntheticEvent::KeyRelease(key(9))]
    );

    let mut empty = HeldState { key: None, button: None };
    assert!(empty.release_all().is_empty());
}

#[test]
fn load_keybindings_replaces_bindings() {
    let mut m = Minecraft::new();
    let kb = KeyBindings {
        start: key(1),
        sword: key(20),
        fishing_rod: key(21),
        custom: vec![(key(30), key(31))],
    };
    m.load_keybindings(kb.clone());
    assert_eq!(m.keybindings, kb);
    assert_eq!(m.use_sword().slot, key(20));
    assert_eq!(m.use_fishing_rod().slot, key(21));
}
