//! The hotkey listener's decisions: which observed input event triggers
//! which scheduler or actuator operation.
//!
//! The platform hook that observes global input lives in the surrounding
//! application; it forwards each event here. A `Listener` value holds the
//! listener's own flags — whether the hook is installed, whether the macro
//! is enabled, and whether a key-capture dialog is waiting for the next
//! key — and `dispatch` decides, from the current bindings, what the event
//! means.

use vstd::prelude::*;
use crate::keys::KeyCode;
use crate::minecraft::KeyBindings;

verus! {

/// An observed input event, as the global hook reports it. Button presses
/// matter only as a way to cancel a key capture, so the button identity is
/// not kept.
#[derive(Clone, Copy, PartialEq, Eq, Structural, Debug)]
pub enum ListenerEvent {
    KeyPress(KeyCode),
    KeyRelease(KeyCode),
    ButtonPress,
}

/// What an observed event asks the application to do.
#[derive(Clone, Copy, PartialEq, Eq, Structural, Debug)]
pub enum ListenerAction {
    /// Start the scheduler's phase loop.
    StartService,
    /// Park the scheduler's phase loop.
    PauseService,
    /// Fire an ad-hoc strong action for this slot.
    UseSlot(KeyCode),
    /// Ignore the event.
    Nothing,
}

/// The listener's own flags.
#[derive(Clone, Copy, PartialEq, Eq, Structural, Debug)]
pub struct Listener {
    /// The global hook is installed.
    pub listening: bool,
    /// The macro is enabled: hotkeys act on the scheduler.
    pub running: bool,
    /// A key capture is waiting for the next key press.
    pub capturing: bool,
}

/// The slot bound to the first custom pair whose hotkey is `key`, if any.
pub open spec fn custom_slot(pairs: Seq<(KeyCode, KeyCode)>, key: KeyCode) -> Option<KeyCode>
    decreases pairs.len(),
{
    if pairs.len() == 0 {
        None
    } else if pairs[0].0 == key {
        Some(pairs[0].1)
    } else {
        custom_slot(pairs.skip(1), key)
    }
}

/// What a key press asks for: the start key toggles the scheduler on,
/// custom hotkeys fire their bound slot, and everything is inert while the
/// macro is disabled.
pub open spec fn spec_key_press_action(kb: KeyBindings, running: bool, key: KeyCode)
    -> ListenerAction {
    if !running {
        ListenerAction::Nothing
    } else if key == kb.start {
        ListenerAction::StartService
    } else {
        match custom_slot(kb.custom@, key) {
            Some(slot) => ListenerAction::UseSlot(slot),
            None => ListenerAction::Nothing,
        }
    }
}

/// What a key release asks for: releasing the start key parks the
/// scheduler while the macro is enabled.
pub open spec fn spec_key_release_action(kb: KeyBindings, running: bool, key: KeyCode)
    -> ListenerAction {
    if running && key == kb.start {
        ListenerAction::PauseService
    } else {
        ListenerAction::Nothing
    }
}

/// A completed key capture: `Some(Some(k))` when a key press ended it,
/// `Some(None)` when a button press cancelled it, `None` when no capture
/// was pending or the event cannot end one.
pub open spec fn spec_capture_outcome(capturing: bool, event: ListenerEvent) -> Option<
    Option<KeyCode>,
> {
    match event {
        ListenerEvent::KeyPress(k) => if capturing {
            Some(Some(k))
        } else {
            None
        },
        ListenerEvent::KeyRelease(_) => None,
        ListenerEvent::ButtonPress => if capturing {
            Some(None)
        } else {
            None
        },
    }
}

/// If no pair among the first `i` matches, the first match over the whole
/// list is the first match past them.
proof fn lemma_custom_slot_skip(pairs: Seq<(KeyCode, KeyCode)>, key: KeyCode, i: int)
    requires
        0 <= i <= pairs.len(),
        forall|j: int| 0 <= j < i ==> (#[trigger] pairs[j]).0 != key,
    ensures
        custom_slot(pairs, key) == custom_slot(pairs.skip(i), key),
    decreases i,
{
    if i == 0 {
        assert(pairs.skip(0) =~= pairs);
    } else {
        assert(pairs[0].0 != key);
        assert forall|j: int| 0 <= j < i - 1 implies (#[trigger] pairs.skip(1)[j]).0 != key by {
            assert(pairs.skip(1)[j] == pairs[j + 1]);
        }
        lemma_custom_slot_skip(pairs.skip(1), key, i - 1);
        assert(pairs.skip(1).skip(i - 1) =~= pairs.skip(i));
    }
}

/// Looks `key` up among the custom `(hotkey, slot)` pairs; first match
/// wins.
pub fn find_custom_slot(pairs: &Vec<(KeyCode, KeyCode)>, key: KeyCode) -> (r: Option<KeyCode>)
    ensures
        r == custom_slot(pairs@, key),
{
    let mut i: usize = 0;
    while i < pairs.len()
        invariant
            0 <= i <= pairs@.len(),
            forall|j: int| 0 <= j < i ==> (#[trigger] pairs@[j]).0 != key,
        decreases pairs@.len() - i,
    {
        if pairs[i].0 == key {
            proof {
                lemma_custom_slot_skip(pairs@, key, i as int);
                assert(pairs@.skip(i as int)[0] == pairs@[i as int]);
            }
            return Some(pairs[i].1);
        }
        i = i + 1;
    }
    proof {
        lemma_custom_slot_skip(pairs@, key, i as int);
    }
    None
}

impl Listener {
    /// A fresh listener: hook not installed, macro disabled, no capture
    /// pending.
    pub fn new() -> (l: Listener)
        ensures
            !l.listening,
            !l.running,
            !l.capturing,
    {
        Listener { listening: false, running: false, capturing: false }
    }

    /// Records that the global hook is installed.
    pub fn begin_listening(&mut self)
        ensures
            *final(self) == (Listener { listening: true, ..*old(self) }),
    {
        self.listening = true;
    }

    /// Enables the macro; fails if it is already enabled.
    pub fn start(&mut self) -> (r: Result<(), crate::run::MacroError>)
        ensures
            old(self).running ==> r == Err::<(), crate::run::MacroError>(
                crate::run::MacroError::AlreadyRunning,
            ) && *final(self) == *old(self),
            !old(self).running ==> r == Ok::<(), crate::run::MacroError>(()) && *final(self)
                == (Listener { running: true, ..*old(self) }),
    {
        if self.running {
            return Err(crate::run::MacroError::AlreadyRunning);
        }
        self.running = true;
        Ok(())
    }

    /// Disables the macro; fails if it is not enabled.
    pub fn stop(&mut self) -> (r: Result<(), crate::run::MacroError>)
        ensures
            !old(self).running ==> r == Err::<(), crate::run::MacroError>(
                crate::run::MacroError::NotRunning,
            ) && *final(self) == *old(self),
            old(self).running ==> r == Ok::<(), crate::run::MacroError>(()) && *final(self)
                == (Listener { running: false, ..*old(self) }),
    {
        if !self.running {
            return Err(crate::run::MacroError::NotRunning);
        }
        self.running = false;
        Ok(())
    }

    /// Whether the macro is enabled.
    pub fn is_running(&self) -> (r: bool)
        ensures
            r == self.running,
    {
        self.running
    }

    /// Whether the global hook is installed.
    pub fn is_listening(&self) -> (r: bool)
        ensures
            r == self.listening,
    {
        self.listening
    }

    /// Whether a key capture is waiting for the next key.
    pub fn is_listening_key_event(&self) -> (r: bool)
        ensures
            r == self.capturing,
    {
        self.capturing
    }

    /// Begins waiting for the next key press; fails (returns false) when a
    /// capture is already pending.
    pub fn begin_key_capture(&mut self) -> (started: bool)
        ensures
            old(self).capturing ==> !started && *final(self) == *old(self),
            !old(self).capturing ==> started && *final(self) == (Listener {
                capturing: true,
                ..*old(self)
            }),
    {
        if self.capturing {
            return false;
        }
        self.capturing = true;
        true
    }

    /// Decides what an observed event means under the given bindings:
    /// whether it ends a pending key capture, and which operation it asks
    /// for. Only the capture flag can change.
    pub fn dispatch(&mut self, kb: &KeyBindings, event: ListenerEvent) -> (r: (
        Option<Option<KeyCode>>,
        ListenerAction,
    ))
        ensures
            final(self).listening == old(self).listening,
            final(self).running == old(self).running,
            final(self).capturing == (old(self).capturing && event matches
                ListenerEvent::KeyRelease(_)),
            r.0 == spec_capture_outcome(old(self).capturing, event),
            r.1 == (match event {
                ListenerEvent::KeyPress(k) => spec_key_press_action(*kb, old(self).running, k),
                ListenerEvent::KeyRelease(k) => spec_key_release_action(*kb, old(self).running, k),
                ListenerEvent::ButtonPress => ListenerAction::Nothing,
            }),
    {
        match event {
            ListenerEvent::KeyPress(k) => {
                let captured: Option<Option<KeyCode>> = if self.capturing {
                    self.capturing = false;
                    Some(Some(k))
                } else {
                    None
                };
                let action = if !self.running {
                    ListenerAction::Nothing
                } else if k == kb.start {
                    ListenerAction::StartService
                } else {
                    match find_custom_slot(&kb.custom, k) {
                        Some(slot) => ListenerAction::UseSlot(slot),
                        None => ListenerAction::Nothing,
                    }
                };
                (captured, action)
            },
            ListenerEvent::KeyRelease(k) => {
                let action = if self.running && k == kb.start {
                    ListenerAction::PauseService
                } else {
                    ListenerAction::Nothing
                };
                (None, action)
            },
            ListenerEvent::ButtonPress => {
                let captured: Option<Option<KeyCode>> = if self.capturing {
                    self.capturing = false;
                    Some(None)
                } else {
                    None
                };
                (captured, ListenerAction::Nothing)
            },
        }
    }
}

} // verus!
