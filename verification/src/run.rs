//! The scheduler: an explicit state machine over a timed, interruptible
//! two-phase loop.
//!
//! A `MacroService` value is the whole control state of the scheduler. The
//! caller-facing operations (`init`, `start`, `pause`, `abort`, `use_item`)
//! validate the current state and apply the transition; the worker-facing
//! operations (`begin_repeat`, `on_timeout`) drive the phase loop, one
//! randomized sleep and one best-effort action per repeat. The surrounding
//! application owns the worker thread, the mailbox that wakes it, and the
//! actual sleeping; every decision about what happens next is made here.

use vstd::prelude::*;
use crate::events::ActionKind;
use crate::events::ActionRequest;
use crate::events::Strength;
use crate::jitter::draw_permille;
use crate::jitter::jittered_micros;
use crate::jitter::jittered_spec;
use crate::jitter::lemma_jitter_within_bounds;
use crate::keys::KeyCode;
use crate::settings::Settings;
use crate::settings::MAX_INTERVAL_MICROS;

verus! {

/// Where the scheduler stands. `Aborted` is terminal: only a freshly
/// constructed service can be initialized again.
#[derive(Clone, Copy, PartialEq, Eq, Structural, Debug)]
pub enum SchedulerState {
    Uninitialized,
    Idle,
    Running,
    Aborted,
}

/// The closed set of caller-visible failures. Every operation invoked in a
/// state that does not support it reports one of these and leaves the
/// state unchanged.
#[derive(Clone, Copy, PartialEq, Eq, Structural, Debug)]
pub enum MacroError {
    AlreadyInitialized,
    NotInitialized,
    AlreadyRunning,
    NotRunning,
}

/// The stock timing configuration that `Settings::default` hands out.
pub open spec fn is_default_settings(s: Settings) -> bool {
    &&& s.sleep_micros[0] == 66_666
    &&& s.sleep_micros[1] == 50_000
    &&& s.count[0] == 7
    &&& s.count[1] == 5
    &&& s.jitter_permille == 200
}

/// The scheduler's whole control state: the state machine, the live
/// configuration, and the position inside the phase loop. The phase's base
/// interval is captured once at the top of each phase, so a configuration
/// edit takes effect with at most one phase of latency and never
/// mid-sleep.
#[derive(Clone, Copy, PartialEq, Debug)]
pub struct MacroService {
    pub state: SchedulerState,
    pub settings: Settings,
    /// Index of the phase the loop is in: 0 or 1.
    pub phase: u64,
    /// Repeats left in the current phase, the one about to sleep included.
    pub remaining: u64,
    /// The current phase's base interval, captured at the top of the phase.
    pub cur_interval: u64,
}

impl MacroService {
    /// Validity: the configuration is well formed, the phase index is 0 or
    /// 1, and the captured interval leaves room for jitter.
    pub open spec fn wf(self) -> bool {
        &&& self.settings.wf()
        &&& self.phase < 2
        &&& self.cur_interval <= MAX_INTERVAL_MICROS
    }
}

/// Entering phase `i`: the repeat budget and the base interval are read
/// from the live configuration once, at the top of the phase.
pub open spec fn spec_begin_phase(s: MacroService, i: u64) -> MacroService {
    MacroService {
        phase: i,
        remaining: s.settings.count[i as int],
        cur_interval: s.settings.sleep_micros[i as int],
        ..s
    }
}

/// `init`: spawn-time transition out of `Uninitialized`; anything else is
/// a second initialization.
pub open spec fn spec_init(s: MacroService) -> (MacroService, Result<(), MacroError>) {
    match s.state {
        SchedulerState::Uninitialized => (
            MacroService { state: SchedulerState::Idle, ..s },
            Ok(()),
        ),
        _ => (s, Err(MacroError::AlreadyInitialized)),
    }
}

/// `start`: from `Idle` the phase loop begins at phase 0 with fresh
/// counts; while `Running` the call fails and changes nothing.
pub open spec fn spec_start(s: MacroService) -> (MacroService, Result<(), MacroError>) {
    match s.state {
        SchedulerState::Uninitialized | SchedulerState::Aborted => (
            s,
            Err(MacroError::NotInitialized),
        ),
        SchedulerState::Running => (s, Err(MacroError::AlreadyRunning)),
        SchedulerState::Idle => (
            spec_begin_phase(MacroService { state: SchedulerState::Running, ..s }, 0),
            Ok(()),
        ),
    }
}

/// `pause`/`stop`: abandon the remaining repeats and phases of the cycle
/// and park.
pub open spec fn spec_pause(s: MacroService) -> (MacroService, Result<(), MacroError>) {
    match s.state {
        SchedulerState::Uninitialized | SchedulerState::Aborted => (
            s,
            Err(MacroError::NotInitialized),
        ),
        SchedulerState::Idle => (s, Err(MacroError::NotRunning)),
        SchedulerState::Running => (MacroService { state: SchedulerState::Idle, ..s }, Ok(())),
    }
}

/// `abort`: terminal from `Idle` or `Running`; afterwards every operation
/// reports `NotInitialized`.
pub open spec fn spec_abort(s: MacroService) -> (MacroService, Result<(), MacroError>) {
    match s.state {
        SchedulerState::Uninitialized | SchedulerState::Aborted => (
            s,
            Err(MacroError::NotInitialized),
        ),
        _ => (MacroService { state: SchedulerState::Aborted, ..s }, Ok(())),
    }
}

/// A skip: abandon the remaining repeats of the current phase and enter
/// the next one (phase 1 wraps around to phase 0).
pub open spec fn spec_skip(s: MacroService) -> MacroService {
    spec_begin_phase(s, if s.phase == 0 { 1u64 } else { 0u64 })
}

/// `use_item`: an ad-hoc strong action. While `Running` it also skips the
/// current sleep, advancing one phase without leaving `Running`.
pub open spec fn spec_use_item(s: MacroService, slot: KeyCode) -> (
    MacroService,
    Result<ActionRequest, MacroError>,
) {
    let req = ActionRequest { slot, kind: ActionKind::UseItem, strength: Strength::Strong };
    match s.state {
        SchedulerState::Uninitialized | SchedulerState::Aborted => (
            s,
            Err(MacroError::NotInitialized),
        ),
        SchedulerState::Idle => (s, Ok(req)),
        SchedulerState::Running => (spec_skip(s), Ok(req)),
    }
}

/// A sleep of the current repeat elapsed with no message: one repeat is
/// spent; the phase's action fires.
pub open spec fn spec_on_timeout(s: MacroService) -> MacroService
    recommends
        s.remaining > 0,
{
    MacroService { remaining: (s.remaining - 1) as u64, ..s }
}

impl MacroService {
    /// A fresh, uninitialized scheduler with stock settings.
    pub fn new() -> (s: MacroService)
        ensures
            s.state is Uninitialized,
            is_default_settings(s.settings),
            s.wf(),
    {
        MacroService {
            state: SchedulerState::Uninitialized,
            settings: Settings::default(),
            phase: 0,
            remaining: 0,
            cur_interval: 0,
        }
    }

    /// Whether the phase loop is live.
    pub fn is_running(&self) -> (r: bool)
        ensures
            r == (self.state is Running),
    {
        match self.state {
            SchedulerState::Running => true,
            _ => false,
        }
    }

    /// Whether the worker exists: true between `init` and `abort`.
    pub fn is_initialized(&self) -> (r: bool)
        ensures
            r == (self.state is Idle || self.state is Running),
    {
        match self.state {
            SchedulerState::Idle | SchedulerState::Running => true,
            _ => false,
        }
    }

    /// Initializes the scheduler; fails with `AlreadyInitialized` on any
    /// second call, aborted schedulers included.
    pub fn init(&mut self) -> (r: Result<(), MacroError>)
        requires
            old(self).wf(),
        ensures
            *final(self) == spec_init(*old(self)).0,
            r == spec_init(*old(self)).1,
            final(self).wf(),
    {
        match self.state {
            SchedulerState::Uninitialized => {
                self.state = SchedulerState::Idle;
                Ok(())
            },
            _ => Err(MacroError::AlreadyInitialized),
        }
    }

    /// Starts the phase loop at phase 0 with fresh repeat counts.
    pub fn start(&mut self) -> (r: Result<(), MacroError>)
        requires
            old(self).wf(),
        ensures
            *final(self) == spec_start(*old(self)).0,
            r == spec_start(*old(self)).1,
            final(self).wf(),
    {
        match self.state {
            SchedulerState::Uninitialized | SchedulerState::Aborted => Err(
                MacroError::NotInitialized,
            ),
            SchedulerState::Running => Err(MacroError::AlreadyRunning),
            SchedulerState::Idle => {
                self.state = SchedulerState::Running;
                self.begin_phase(0);
                Ok(())
            },
        }
    }

    /// Parks the phase loop, abandoning the rest of the cycle.
    pub fn pause(&mut self) -> (r: Result<(), MacroError>)
        requires
            old(self).wf(),
        ensures
            *final(self) == spec_pause(*old(self)).0,
            r == spec_pause(*old(self)).1,
            final(self).wf(),
    {
        match self.state {
            SchedulerState::Uninitialized | SchedulerState::Aborted => Err(
                MacroError::NotInitialized,
            ),
            SchedulerState::Idle => Err(MacroError::NotRunning),
            SchedulerState::Running => {
                self.state = SchedulerState::Idle;
                Ok(())
            },
        }
    }

    /// Stops the scheduler for good.
    pub fn abort(&mut self) -> (r: Result<(), MacroError>)
        requires
            old(self).wf(),
        ensures
            *final(self) == spec_abort(*old(self)).0,
            r == spec_abort(*old(self)).1,
            final(self).wf(),
    {
        match self.state {
            SchedulerState::Uninitialized | SchedulerState::Aborted => Err(
                MacroError::NotInitialized,
            ),
            _ => {
                self.state = SchedulerState::Aborted;
                Ok(())
            },
        }
    }

    /// Requests an ad-hoc strong action for `slot`. While running, the
    /// current sleep is skipped and the loop advances one phase; the
    /// returned request is handed to the actuator either way.
    pub fn use_item(&mut self, slot: KeyCode) -> (r: Result<ActionRequest, MacroError>)
        requires
            old(self).wf(),
        ensures
            *final(self) == spec_use_item(*old(self), slot).0,
            r == spec_use_item(*old(self), slot).1,
            final(self).wf(),
    {
        let req = ActionRequest { slot, kind: ActionKind::UseItem, strength: Strength::Strong };
        match self.state {
            SchedulerState::Uninitialized | SchedulerState::Aborted => Err(
                MacroError::NotInitialized,
            ),
            SchedulerState::Idle => Ok(req),
            SchedulerState::Running => {
                let next: u64 = if self.phase == 0 { 1 } else { 0 };
                self.begin_phase(next);
                Ok(req)
            },
        }
    }

    /// Replaces the configuration. The phase the loop is in keeps its
    /// captured interval and repeat budget; the new values take effect at
    /// the next phase boundary.
    pub fn load_settings(&mut self, settings: Settings)
        requires
            old(self).wf(),
            settings.wf(),
        ensures
            *final(self) == (MacroService { settings, ..*old(self) }),
            final(self).wf(),
    {
        self.settings = settings;
    }

    /// Puts the stock configuration back.
    pub fn reset_settings(&mut self)
        requires
            old(self).wf(),
        ensures
            is_default_settings(final(self).settings),
            final(self).state == old(self).state,
            final(self).phase == old(self).phase,
            final(self).remaining == old(self).remaining,
            final(self).cur_interval == old(self).cur_interval,
            final(self).wf(),
    {
        self.settings = Settings::default();
    }

    /// Enters phase `i`, reading the live configuration once.
    fn begin_phase(&mut self, i: u64)
        requires
            i < 2,
            old(self).wf(),
        ensures
            *final(self) == spec_begin_phase(*old(self), i),
            final(self).wf(),
    {
        let idx = i as usize;
        self.phase = i;
        self.remaining = self.settings.count[idx];
        self.cur_interval = self.settings.sleep_micros[idx];
    }

    /// Starts one repeat of the current phase: draws the jitter and
    /// returns how long to sleep. A phase whose repeat budget is spent (or
    /// configured to zero) returns nothing and moves to the next phase
    /// instead.
    ///
    /// The returned duration always lies between the durations of the two
    /// extreme jitter draws for the captured interval; with a zero jitter
    /// ratio it is exactly the captured interval.
    pub fn begin_repeat(&mut self) -> (r: Option<u64>)
        requires
            old(self).wf(),
            old(self).state is Running,
        ensures
            final(self).wf(),
            old(self).remaining == 0 ==> r is None && *final(self) == spec_skip(*old(self)),
            old(self).remaining > 0 ==> *final(self) == *old(self),
            (match r {
                Some(dur) => {
                    let base = old(self).cur_interval;
                    let jitter = old(self).settings.jitter_permille as int;
                    &&& old(self).remaining > 0
                    &&& jittered_spec(base, -jitter) <= dur <= jittered_spec(base, jitter)
                    &&& (jitter == 0 ==> dur == base)
                },
                None => old(self).remaining == 0,
            }),
    {
        if self.remaining == 0 {
            let next: u64 = if self.phase == 0 { 1 } else { 0 };
            self.begin_phase(next);
            return None;
        }
        let draw: i64 = draw_permille(self.settings.jitter_permille);
        let dur: u64 = jittered_micros(self.cur_interval, draw);
        proof {
            lemma_jitter_within_bounds(
                self.cur_interval,
                self.settings.jitter_permille,
                draw as int,
            );
        }
        Some(dur)
    }

    /// The sleep of the current repeat timed out with no control message:
    /// one repeat is spent, and the current phase's best-effort action is
    /// due. Returns the phase whose action fires.
    pub fn on_timeout(&mut self) -> (phase: u64)
        requires
            old(self).wf(),
            old(self).state is Running,
            old(self).remaining > 0,
        ensures
            final(self).wf(),
            phase == old(self).phase < 2,
            *final(self) == spec_on_timeout(*old(self)),
    {
        self.remaining = self.remaining - 1;
        self.phase
    }
}

impl Default for MacroService {
    /// Same as `MacroService::new`: fresh, uninitialized, stock settings.
    fn default() -> (s: MacroService)
        ensures
            s.state is Uninitialized,
            is_default_settings(s.settings),
            s.wf(),
    {
        MacroService::new()
    }
}

/// Idempotence of `start`: starting a running scheduler reports
/// `AlreadyRunning` and resets neither the phase position nor the repeat
/// counts.
pub proof fn lemma_start_while_running(s: MacroService)
    requires
        s.state is Running,
    ensures
        spec_start(s).0 == s,
        spec_start(s).1 == Err::<(), MacroError>(MacroError::AlreadyRunning),
{
}

/// Restart policy: stopping and starting again resumes the phase loop at
/// phase 0 with fresh repeat counts read from the live configuration.
pub proof fn lemma_stop_start_restarts(s: MacroService)
    requires
        s.state is Running,
    ensures
        spec_pause(s).1 == Ok::<(), MacroError>(()),
        spec_start(spec_pause(s).0).1 == Ok::<(), MacroError>(()),
        ({
            let restarted = spec_start(spec_pause(s).0).0;
            &&& restarted.state is Running
            &&& restarted.phase == 0
            &&& restarted.remaining == s.settings.count[0]
            &&& restarted.cur_interval == s.settings.sleep_micros[0]
            &&& restarted.settings == s.settings
        }),
{
}

/// Terminal invariant: once aborted, `start`, `pause` and `use_item` all
/// fail with `NotInitialized` and change nothing.
pub proof fn lemma_abort_terminal(s: MacroService, slot: KeyCode)
    requires
        s.state is Idle || s.state is Running,
    ensures
        spec_abort(s).1 == Ok::<(), MacroError>(()),
        ({
            let aborted = spec_abort(s).0;
            &&& aborted.state is Aborted
            &&& spec_start(aborted) == (aborted, Err::<(), MacroError>(MacroError::NotInitialized))
            &&& spec_pause(aborted) == (aborted, Err::<(), MacroError>(MacroError::NotInitialized))
            &&& spec_use_item(aborted, slot) == (
                aborted,
                Err::<ActionRequest, MacroError>(MacroError::NotInitialized),
            )
        }),
{
}

/// Skip semantics: a skip that lands during phase 0 abandons that phase's
/// remaining repeats and begins phase 1 immediately, with phase 1's fresh
/// repeat budget; no repeat of phase 0 is spent by the skip itself.
pub proof fn lemma_skip_advances_one_phase(s: MacroService, slot: KeyCode)
    requires
        s.state is Running,
        s.phase == 0,
    ensures
        ({
            let skipped = spec_use_item(s, slot).0;
            &&& skipped.state is Running
            &&& skipped.phase == 1
            &&& skipped.remaining == s.settings.count[1]
            &&& skipped.cur_interval == s.settings.sleep_micros[1]
        }),
{
}

} // verus!
