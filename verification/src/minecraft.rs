//! The actuator: turns action requests into ordered sequences of synthetic
//! input events, tracks what is held so it can always be released, and
//! serializes strong actions through a busy flag.
//!
//! The worker that owns a value of this type runs one request at a time:
//! it emits the press batch, pauses briefly while polling its queue, and
//! then either completes the releases or — when a strong request arrived in
//! the meantime — releases whatever is held and starts the newcomer. The
//! polling and the actual event injection belong to the surrounding
//! application; every decision and every event sequence is computed here.

use vstd::prelude::*;
use crate::events::ActionKind;
use crate::events::ActionRequest;
use crate::events::Strength;
use crate::events::SyntheticEvent;
use crate::keys::KeyCode;
use crate::keys::MouseButton;
use crate::keys::KEY_C;
use crate::keys::KEY_CONTROL_LEFT;
use crate::keys::KEY_F;
use crate::keys::KEY_NUM1;
use crate::keys::KEY_NUM2;
use crate::keys::KEY_NUM3;
use crate::keys::KEY_NUM4;
use crate::keys::KEY_NUM5;
use crate::keys::KEY_NUM6;
use crate::keys::KEY_V;
use crate::keys::KEY_X;

verus! {

/// The hotkey bindings: the key that toggles the scheduler, the slots of
/// the two phase actions, and custom `(hotkey, slot)` pairs for one-off
/// strong actions.
#[derive(Clone, PartialEq, Debug)]
pub struct KeyBindings {
    pub start: KeyCode,
    pub sword: KeyCode,
    pub fishing_rod: KeyCode,
    pub custom: Vec<(KeyCode, KeyCode)>,
}

/// The stock bindings that `KeyBindings::default` hands out.
pub open spec fn is_default_bindings(kb: KeyBindings) -> bool {
    &&& kb.start.code == KEY_CONTROL_LEFT
    &&& kb.sword.code == KEY_NUM1
    &&& kb.fishing_rod.code == KEY_NUM2
    &&& kb.custom@.len() == 4
    &&& kb.custom@[0].0.code == KEY_X && kb.custom@[0].1.code == KEY_NUM3
    &&& kb.custom@[1].0.code == KEY_C && kb.custom@[1].1.code == KEY_NUM4
    &&& kb.custom@[2].0.code == KEY_V && kb.custom@[2].1.code == KEY_NUM5
    &&& kb.custom@[3].0.code == KEY_F && kb.custom@[3].1.code == KEY_NUM6
}

impl Default for KeyBindings {
    fn default() -> (kb: KeyBindings)
        ensures
            is_default_bindings(kb),
    {
        KeyBindings {
            start: KeyCode { code: KEY_CONTROL_LEFT },
            sword: KeyCode { code: KEY_NUM1 },
            fishing_rod: KeyCode { code: KEY_NUM2 },
            custom: vec![
                (KeyCode { code: KEY_X }, KeyCode { code: KEY_NUM3 }),
                (KeyCode { code: KEY_C }, KeyCode { code: KEY_NUM4 }),
                (KeyCode { code: KEY_V }, KeyCode { code: KEY_NUM5 }),
                (KeyCode { code: KEY_F }, KeyCode { code: KEY_NUM6 }),
            ],
        }
    }
}

/// What the actuator currently believes is pressed: at most one key and
/// one button at a time.
#[derive(Clone, Copy, PartialEq, Eq, Debug)]
pub struct HeldState {
    pub key: Option<KeyCode>,
    pub button: Option<MouseButton>,
}

/// The release events that let go of everything in `h`, key first.
pub open spec fn release_seq(h: HeldState) -> Seq<SyntheticEvent> {
    (match h.key {
        Some(k) => seq![SyntheticEvent::KeyRelease(k)],
        None => Seq::empty(),
    }) + (match h.button {
        Some(b) => seq![SyntheticEvent::ButtonRelease(b)],
        None => Seq::empty(),
    })
}

impl HeldState {
    /// Nothing is held.
    pub open spec fn is_clear(self) -> bool {
        self.key is None && self.button is None
    }

    /// A fresh, empty held-state.
    pub fn new() -> (h: HeldState)
        ensures
            h.is_clear(),
    {
        HeldState { key: None, button: None }
    }

    /// Emits a release for everything held, key first, and forgets it.
    /// Whatever state the actuator was in, nothing is held afterwards.
    pub fn release_all(&mut self) -> (ev: Vec<SyntheticEvent>)
        ensures
            final(self).is_clear(),
            ev@ == release_seq(*old(self)),
    {
        let mut ev: Vec<SyntheticEvent> = Vec::new();
        match self.key {
            Some(k) => {
                ev.push(SyntheticEvent::KeyRelease(k));
            },
            None => {},
        }
        match self.button {
            Some(b) => {
                ev.push(SyntheticEvent::ButtonRelease(b));
            },
            None => {},
        }
        self.key = None;
        self.button = None;
        ev
    }
}

/// The press batch of a request: select the slot, press the gesture's
/// button.
pub open spec fn press_seq(req: ActionRequest) -> Seq<SyntheticEvent> {
    seq![
        SyntheticEvent::KeyPress(req.slot),
        SyntheticEvent::ButtonPress(req.kind.spec_button()),
    ]
}

/// The full, unpreempted event sequence of a request.
pub open spec fn full_seq(req: ActionRequest) -> Seq<SyntheticEvent> {
    seq![
        SyntheticEvent::KeyPress(req.slot),
        SyntheticEvent::ButtonPress(req.kind.spec_button()),
        SyntheticEvent::KeyRelease(req.slot),
        SyntheticEvent::ButtonRelease(req.kind.spec_button()),
    ]
}

/// The actuator's state: the busy flag that serializes strong actions, the
/// held-key bookkeeping, and the current bindings.
#[derive(Clone, PartialEq, Debug)]
pub struct Minecraft {
    pub busy: bool,
    pub held: HeldState,
    pub keybindings: KeyBindings,
}

/// Starting a request: a weak request is dropped while a strong action is
/// mid-flight; otherwise the press batch fires and is recorded as held.
/// Returns the next state, whether the request was accepted, and the
/// emitted events.
pub open spec fn spec_begin(m: Minecraft, req: ActionRequest) -> (Minecraft, bool, Seq<
    SyntheticEvent,
>) {
    if req.strength is Weak && m.busy {
        (m, false, Seq::empty())
    } else {
        (
            Minecraft {
                busy: m.busy || req.strength is Strong,
                held: HeldState {
                    key: Some(req.slot),
                    button: Some(req.kind.spec_button()),
                },
                ..m
            },
            true,
            press_seq(req),
        )
    }
}

/// Finishing a request without preemption: release what is held; a
/// completed strong action clears the busy flag.
pub open spec fn spec_complete(m: Minecraft, req: ActionRequest) -> (Minecraft, Seq<
    SyntheticEvent,
>) {
    (
        Minecraft {
            busy: if req.strength is Strong { false } else { m.busy },
            held: HeldState { key: None, button: None },
            ..m
        },
        release_seq(m.held),
    )
}

/// Preemption: release what is held and abandon the rest of the sequence.
/// The busy flag stays as it is — the preempting strong request is about
/// to run.
pub open spec fn spec_preempt(m: Minecraft) -> (Minecraft, Seq<SyntheticEvent>) {
    (Minecraft { held: HeldState { key: None, button: None }, ..m }, release_seq(m.held))
}

/// One whole worker iteration: begin the request, then — depending on what
/// the mid-sequence poll returned — complete it or hand over to a
/// preempting strong request. Returns the next state, every event emitted,
/// and the request to run next, if any.
pub open spec fn spec_handle(
    m: Minecraft,
    req: ActionRequest,
    poll: Option<ActionRequest>,
) -> (Minecraft, Seq<SyntheticEvent>, Option<ActionRequest>) {
    let (m1, accepted, pressed) = spec_begin(m, req);
    if !accepted {
        (m, Seq::empty(), None)
    } else if poll matches Some(p) && p.strength is Strong {
        let (m2, rel) = spec_preempt(m1);
        (m2, pressed + rel, poll)
    } else {
        let (m2, rel) = spec_complete(m1, req);
        (m2, pressed + rel, None)
    }
}

impl Minecraft {
    /// A fresh actuator: idle, nothing held, stock bindings.
    pub fn new() -> (m: Minecraft)
        ensures
            !m.busy,
            m.held.is_clear(),
            is_default_bindings(m.keybindings),
    {
        Minecraft { busy: false, held: HeldState::new(), keybindings: KeyBindings::default() }
    }

    /// The strong, must-run request for the item in `slot`.
    pub fn use_item(&self, slot: KeyCode) -> (req: ActionRequest)
        ensures
            req == (ActionRequest { slot, kind: ActionKind::UseItem, strength: Strength::Strong }),
    {
        ActionRequest { slot, kind: ActionKind::UseItem, strength: Strength::Strong }
    }

    /// The best-effort periodic request of the secondary phase: use the
    /// bound ranged item.
    pub fn use_fishing_rod(&self) -> (req: ActionRequest)
        ensures
            req == (ActionRequest {
                slot: self.keybindings.fishing_rod,
                kind: ActionKind::UseItem,
                strength: Strength::Weak,
            }),
    {
        ActionRequest {
            slot: self.keybindings.fishing_rod,
            kind: ActionKind::UseItem,
            strength: Strength::Weak,
        }
    }

    /// The best-effort periodic request of the primary phase: punch with
    /// the bound melee item.
    pub fn use_sword(&self) -> (req: ActionRequest)
        ensures
            req == (ActionRequest {
                slot: self.keybindings.sword,
                kind: ActionKind::Punch,
                strength: Strength::Weak,
            }),
    {
        ActionRequest {
            slot: self.keybindings.sword,
            kind: ActionKind::Punch,
            strength: Strength::Weak,
        }
    }

    /// Replaces the bindings; the actuator's flags are untouched.
    pub fn load_keybindings(&mut self, keybindings: KeyBindings)
        ensures
            final(self).keybindings == keybindings,
            final(self).busy == old(self).busy,
            final(self).held == old(self).held,
    {
        self.keybindings = keybindings;
    }

    /// Begins a request: drops a weak one while busy, otherwise presses
    /// the slot key and the gesture button and records them as held.
    pub fn begin_action(&mut self, req: ActionRequest) -> (r: Option<Vec<SyntheticEvent>>)
        requires
            old(self).held.is_clear(),
        ensures
            *final(self) == spec_begin(*old(self), req).0,
            (r is Some) == spec_begin(*old(self), req).1,
            (match r {
                Some(ev) => ev@ == spec_begin(*old(self), req).2,
                None => true,
            }),
    {
        if req.strength == Strength::Weak && self.busy {
            return None;
        }
        if req.strength == Strength::Strong {
            self.busy = true;
        }
        let button = req.kind.button();
        self.held.key = Some(req.slot);
        self.held.button = Some(button);
        let mut ev: Vec<SyntheticEvent> = Vec::new();
        ev.push(SyntheticEvent::KeyPress(req.slot));
        ev.push(SyntheticEvent::ButtonPress(button));
        Some(ev)
    }

    /// Completes a begun request: releases what is held, key first, and —
    /// for a strong request — clears the busy flag.
    pub fn complete_action(&mut self, req: ActionRequest) -> (ev: Vec<SyntheticEvent>)
        ensures
            *final(self) == spec_complete(*old(self), req).0,
            ev@ == spec_complete(*old(self), req).1,
    {
        let ev = self.held.release_all();
        if req.strength == Strength::Strong {
            self.busy = false;
        }
        ev
    }

    /// Abandons a begun request in favour of a newly arrived strong one:
    /// releases what is held so nothing stays stuck, and leaves the busy
    /// flag alone for the newcomer.
    pub fn preempt_action(&mut self) -> (ev: Vec<SyntheticEvent>)
        ensures
            *final(self) == spec_preempt(*old(self)).0,
            ev@ == spec_preempt(*old(self)).1,
    {
        self.held.release_all()
    }

    /// One whole worker iteration over a dequeued request, with `poll`
    /// standing for whatever the mid-sequence queue poll returned. Returns
    /// the emitted events in order and the preempting request to run next,
    /// if any.
    pub fn handle_request(&mut self, req: ActionRequest, poll: Option<ActionRequest>) -> (r: (
        Vec<SyntheticEvent>,
        Option<ActionRequest>,
    ))
        requires
            old(self).held.is_clear(),
        ensures
            *final(self) == spec_handle(*old(self), req, poll).0,
            r.0@ == spec_handle(*old(self), req, poll).1,
            r.1 == spec_handle(*old(self), req, poll).2,
    {
        match self.begin_action(req) {
            None => (Vec::new(), None),
            Some(mut ev) => {
                let preempted = match poll {
                    Some(p) => p.strength == Strength::Strong,
                    None => false,
                };
                if preempted {
                    let mut rel = self.preempt_action();
                    ev.append(&mut rel);
                    (ev, poll)
                } else {
                    let mut rel = self.complete_action(req);
                    ev.append(&mut rel);
                    (ev, None)
                }
            },
        }
    }
}

/// No-stuck-key invariant: whatever request the worker handles and
/// whatever the mid-sequence poll returned, nothing is held once the
/// iteration is over.
pub proof fn lemma_no_stuck_key(m: Minecraft, req: ActionRequest, poll: Option<ActionRequest>)
    requires
        m.held.is_clear(),
    ensures
        spec_handle(m, req, poll).0.held.is_clear(),
        spec_preempt(m).0.held.is_clear(),
        spec_complete(m, req).0.held.is_clear(),
{
}

/// Weak-drop invariant: a weak request handled while a strong action is
/// mid-flight emits no events, changes nothing and queues nothing.
pub proof fn lemma_weak_dropped(m: Minecraft, req: ActionRequest, poll: Option<ActionRequest>)
    requires
        m.busy,
        req.strength is Weak,
    ensures
        spec_handle(m, req, poll).0 == m,
        spec_handle(m, req, poll).1 == Seq::<SyntheticEvent>::empty(),
        spec_handle(m, req, poll).2 is None,
{
}

/// An unpreempted, accepted request emits exactly the four-event sequence:
/// press slot, press button, release slot, release button.
pub proof fn lemma_full_sequence(m: Minecraft, req: ActionRequest)
    requires
        m.held.is_clear(),
        !(m.busy && req.strength is Weak),
    ensures
        spec_handle(m, req, None).1 =~= full_seq(req),
        spec_handle(m, req, None).2 is None,
{
}

} // verus!
