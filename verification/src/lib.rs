//! A verified macro-scheduling and input-actuation core.
//!
//! The library models the engine of an input-automation tool: a scheduler
//! that drives a timed, interruptible two-phase loop under an explicit
//! state machine, and an actuator that turns action requests into ordered
//! sequences of synthetic input events while tracking which keys are held.
//! All timing, preemption and state-machine decisions live here; threads,
//! channels and platform input injection are left to the surrounding
//! application.

mod events;
mod jitter;
mod keys;
mod listener;
mod minecraft;
mod run;
mod settings;

pub use events::ActionKind;
pub use events::ActionRequest;
pub use events::Strength;
pub use events::SyntheticEvent;
pub use jitter::jittered_micros;
pub use jitter::lemma_jitter_within_bounds;
pub use keys::KeyCode;
pub use keys::MouseButton;
pub use listener::Listener;
pub use listener::ListenerAction;
pub use listener::ListenerEvent;
pub use listener::find_custom_slot;
pub use minecraft::HeldState;
pub use minecraft::KeyBindings;
pub use minecraft::Minecraft;
pub use minecraft::lemma_full_sequence;
pub use minecraft::lemma_no_stuck_key;
pub use minecraft::lemma_weak_dropped;
pub use run::MacroError;
pub use run::MacroService;
pub use run::SchedulerState;
pub use run::lemma_abort_terminal;
pub use run::lemma_skip_advances_one_phase;
pub use run::lemma_start_while_running;
pub use run::lemma_stop_start_restarts;
pub use settings::Settings;
pub use settings::MAX_INTERVAL_MICROS;
