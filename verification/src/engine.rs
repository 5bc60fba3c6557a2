//! The two loops of the clicker, as pure functions.
//!
//! The click loop is modelled by [`click_tick`]: given the activation flag
//! it read, the function plans the injections and the sleep of one
//! iteration. The event loop is modelled by [`EngineState::step`]: given
//! the event one non-blocking poll returned (if any) and the time it was
//! observed, the function advances the debounced toggle/quit state machine
//! and says what to announce. The surrounding program owns the threads,
//! the sleeps and the operating-system calls and merely executes what
//! these functions decide.

use crate::button::MouseButton;
use vstd::prelude::*;

verus! {

/// Milliseconds the click loop sleeps between polls of the activation
/// flag while it is off.
pub const IDLE_POLL_MS: u64 = 100;

/// Milliseconds the event loop sleeps between polls of the hotkey source.
pub const EVENT_POLL_MS: u64 = 200;

/// Minimum elapsed milliseconds between two accepted toggle events.
pub const DEBOUNCE_MS: u64 = 300;

/// Immutable configuration of the click loop.
#[derive(Clone, Copy, Debug, PartialEq, Eq)]
pub struct ClickConfig {
    /// Milliseconds to sleep after an activated burst.
    pub interval_ms: u64,
    /// The button each press/release pair acts on.
    pub button: MouseButton,
    /// Additional presses per activated tick: a tick performs
    /// `repeat + 1` press/release pairs.
    pub repeat: u32,
}

/// One input-injection action of a click burst.
#[derive(Clone, Copy, Debug, PartialEq, Eq)]
pub enum InputAction {
    /// Press the button down.
    Press(MouseButton),
    /// Release the button.
    Release(MouseButton),
}

/// What the click loop does on one iteration: the injections to perform
/// in order, then a sleep.
#[derive(Clone, Debug, PartialEq, Eq)]
pub struct TickPlan {
    /// The press/release actions of this tick, in order.
    pub actions: Vec<InputAction>,
    /// Milliseconds to sleep once the actions are done.
    pub sleep_ms: u64,
}

/// The actions of a burst of `pairs` clicks on `button`: `pairs` times a
/// press immediately followed by a release.
pub open spec fn burst_actions(button: MouseButton, pairs: nat) -> Seq<InputAction>
    decreases pairs,
{
    if pairs == 0 {
        Seq::empty()
    } else {
        burst_actions(button, (pairs - 1) as nat)
            + seq![InputAction::Press(button), InputAction::Release(button)]
    }
}

/// The actions one tick of the click loop performs for a given activation
/// flag: a full burst while active, nothing while idle.
pub open spec fn tick_actions(active: bool, cfg: ClickConfig) -> Seq<InputAction> {
    if active {
        burst_actions(cfg.button, cfg.repeat as nat + 1)
    } else {
        Seq::empty()
    }
}

/// Plan one iteration of the click loop. While active the plan is the
/// full burst of `cfg.repeat + 1` press/release pairs followed by the
/// configured interval sleep; while idle it is no action and the fixed
/// short poll sleep.
pub fn click_tick(active: bool, cfg: &ClickConfig) -> (plan: TickPlan)
    ensures
        plan.actions@ == tick_actions(active, *cfg),
        plan.sleep_ms == (if active {
            cfg.interval_ms
        } else {
            IDLE_POLL_MS
        }),
{
    if active {
        let pairs: u64 = cfg.repeat as u64 + 1;
        let mut actions: Vec<InputAction> = Vec::new();
        let mut i: u64 = 0;
        while i < pairs
            invariant
                i <= pairs,
                pairs == cfg.repeat as nat + 1,
                actions@ == burst_actions(cfg.button, i as nat),
            decreases pairs - i,
        {
            actions.push(InputAction::Press(cfg.button));
            actions.push(InputAction::Release(cfg.button));
            proof {
                assert(actions@ =~= burst_actions(cfg.button, i as nat)
                    + seq![InputAction::Press(cfg.button), InputAction::Release(cfg.button)]);
            }
            i = i + 1;
        }
        TickPlan { actions, sleep_ms: cfg.interval_ms }
    } else {
        TickPlan { actions: Vec::new(), sleep_ms: IDLE_POLL_MS }
    }
}

/// Burst shape: a burst of `pairs` clicks is exactly `pairs` press/release
/// pairs — `2 * pairs` actions, a press at every even position and a
/// release at every odd one, all on the same button.
pub proof fn lemma_burst_shape(button: MouseButton, pairs: nat)
    ensures
        burst_actions(button, pairs).len() == 2 * pairs,
        forall|i: int|
            0 <= i < 2 * pairs ==> burst_actions(button, pairs)[i] == (if i % 2 == 0 {
                InputAction::Press(button)
            } else {
                InputAction::Release(button)
            }),
    decreases pairs,
{
    if pairs > 0 {
        lemma_burst_shape(button, (pairs - 1) as nat);
    }
}

/// The actions emitted by a whole run of the click loop, one tick per
/// observed value of the activation flag.
pub open spec fn ticks_actions(flags: Seq<bool>, cfg: ClickConfig) -> Seq<InputAction>
    decreases flags.len(),
{
    if flags.len() == 0 {
        Seq::empty()
    } else {
        tick_actions(flags.first(), cfg) + ticks_actions(flags.drop_first(), cfg)
    }
}

/// Idle non-action: however many ticks the click loop runs while the
/// activation flag stays off, it performs no injection at all.
pub proof fn lemma_idle_non_action(flags: Seq<bool>, cfg: ClickConfig)
    requires
        forall|i: int| 0 <= i < flags.len() ==> !flags[i],
    ensures
        ticks_actions(flags, cfg).len() == 0,
    decreases flags.len(),
{
    if flags.len() > 0 {
        assert(!flags.first());
        lemma_idle_non_action(flags.drop_first(), cfg);
    }
}

/// A recognized hotkey event, as matched against the two registered
/// bindings.
#[derive(Clone, Copy, Debug, PartialEq, Eq)]
pub enum HotkeyEvent {
    /// The toggle binding fired.
    Toggle,
    /// The quit binding fired.
    Quit,
}

/// What the event loop announces after processing one poll.
#[derive(Clone, Copy, Debug, PartialEq, Eq)]
pub enum EventAction {
    /// Nothing observable: no pending event, a debounced toggle, or an
    /// event arriving after quit.
    Silent,
    /// The activation state flipped; the payload is the new state.
    StateChanged(bool),
    /// The quit binding fired: announce shutdown and stop polling.
    Shutdown,
}

/// State owned by the event loop: the activation flag it alone writes,
/// the debounce clock, and whether quit was accepted.
#[derive(Clone, Copy, Debug, PartialEq, Eq)]
pub struct EngineState {
    /// Whether the click loop should currently burst.
    pub active: bool,
    /// Millisecond timestamp of the last accepted toggle, if any was
    /// accepted yet.
    pub last_toggle_ms: Option<u64>,
    /// Whether the quit event was accepted; terminal once set.
    pub quit: bool,
}

/// A toggle observed at `now_ms` is accepted iff no toggle was accepted
/// yet, or at least `DEBOUNCE_MS` elapsed since the last accepted one.
pub open spec fn toggle_accepted(s: EngineState, now_ms: u64) -> bool {
    match s.last_toggle_ms {
        None => true,
        Some(last) => now_ms - last >= DEBOUNCE_MS,
    }
}

/// The state after the event loop processes one poll result at `now_ms`.
pub open spec fn step_state(s: EngineState, event: Option<HotkeyEvent>, now_ms: u64) -> EngineState {
    if s.quit {
        s
    } else {
        match event {
            None => s,
            Some(HotkeyEvent::Toggle) => if toggle_accepted(s, now_ms) {
                EngineState { active: !s.active, last_toggle_ms: Some(now_ms), quit: false }
            } else {
                s
            },
            Some(HotkeyEvent::Quit) => EngineState { quit: true, ..s },
        }
    }
}

/// What the event loop announces when it processes one poll result at
/// `now_ms`.
pub open spec fn step_action(s: EngineState, event: Option<HotkeyEvent>, now_ms: u64) -> EventAction {
    if s.quit {
        EventAction::Silent
    } else {
        match event {
            None => EventAction::Silent,
            Some(HotkeyEvent::Toggle) => if toggle_accepted(s, now_ms) {
                EventAction::StateChanged(!s.active)
            } else {
                EventAction::Silent
            },
            Some(HotkeyEvent::Quit) => EventAction::Shutdown,
        }
    }
}

impl EngineState {
    /// The state both loops start from: inactive, no toggle accepted yet,
    /// not quit.
    pub open spec fn initial() -> EngineState {
        EngineState { active: false, last_toggle_ms: None, quit: false }
    }

    /// Construct the initial state.
    pub fn new() -> (s: EngineState)
        ensures
            s == EngineState::initial(),
    {
        EngineState { active: false, last_toggle_ms: None, quit: false }
    }

    /// Process one poll result of the event loop, observed at `now_ms`
    /// milliseconds: an accepted toggle flips the activation state and
    /// resets the debounce clock, a toggle inside the debounce window is
    /// discarded, a quit event is terminal, and after quit every event is
    /// ignored.
    pub fn step(&mut self, event: Option<HotkeyEvent>, now_ms: u64) -> (act: EventAction)
        ensures
            *final(self) == step_state(*old(self), event, now_ms),
            act == step_action(*old(self), event, now_ms),
    {
        if self.quit {
            return EventAction::Silent;
        }
        match event {
            None => EventAction::Silent,
            Some(HotkeyEvent::Toggle) => {
                let accepted: bool = match self.last_toggle_ms {
                    None => true,
                    Some(last) => now_ms >= last && now_ms - last >= DEBOUNCE_MS,
                };
                if accepted {
                    self.active = !self.active;
                    self.last_toggle_ms = Some(now_ms);
                    EventAction::StateChanged(self.active)
                } else {
                    EventAction::Silent
                }
            },
            Some(HotkeyEvent::Quit) => {
                self.quit = true;
                EventAction::Shutdown
            },
        }
    }
}

/// The state after the event loop processes a whole sequence of polls,
/// each a pair of the observation time and the event received then, if
/// any.
pub open spec fn run(s: EngineState, polls: Seq<(u64, Option<HotkeyEvent>)>) -> EngineState
    decreases polls.len(),
{
    if polls.len() == 0 {
        s
    } else {
        run(step_state(s, polls.first().1, polls.first().0), polls.drop_first())
    }
}

/// How many toggle events of a sequence of polls are accepted (flip the
/// activation state) when processed from state `s`.
pub open spec fn accepted_toggles(s: EngineState, polls: Seq<(u64, Option<HotkeyEvent>)>) -> nat
    decreases polls.len(),
{
    if polls.len() == 0 {
        0
    } else {
        let here: nat = if !s.quit && polls.first().1 == Some(HotkeyEvent::Toggle)
            && toggle_accepted(s, polls.first().0) {
            1
        } else {
            0
        };
        here + accepted_toggles(step_state(s, polls.first().1, polls.first().0), polls.drop_first())
    }
}

/// Debounce: when a toggle is accepted at `t1`, a second toggle observed
/// less than `DEBOUNCE_MS` later is a no-op — it neither changes the
/// state nor announces anything.
pub proof fn lemma_debounce(s: EngineState, t1: u64, t2: u64)
    requires
        !s.quit,
        toggle_accepted(s, t1),
        t2 - t1 < DEBOUNCE_MS,
    ensures
        step_state(
            step_state(s, Some(HotkeyEvent::Toggle), t1),
            Some(HotkeyEvent::Toggle),
            t2,
        ) == step_state(s, Some(HotkeyEvent::Toggle), t1),
        step_action(
            step_state(s, Some(HotkeyEvent::Toggle), t1),
            Some(HotkeyEvent::Toggle),
            t2,
        ) == EventAction::Silent,
{
}

/// Toggle parity: after any sequence of polls, the activation state is
/// the initial one negated once per accepted toggle; debounced toggles,
/// quit and empty polls leave it alone.
pub proof fn lemma_toggle_parity(s: EngineState, polls: Seq<(u64, Option<HotkeyEvent>)>)
    ensures
        run(s, polls).active == (if accepted_toggles(s, polls) % 2 == 0 {
            s.active
        } else {
            !s.active
        }),
    decreases polls.len(),
{
    if polls.len() > 0 {
        let s1 = step_state(s, polls.first().1, polls.first().0);
        lemma_toggle_parity(s1, polls.drop_first());
    }
}

/// Quit terminality: from a quit state, no sequence of polls changes the
/// state, and no further toggle is accepted.
pub proof fn lemma_quit_terminal(s: EngineState, polls: Seq<(u64, Option<HotkeyEvent>)>)
    requires
        s.quit,
    ensures
        run(s, polls) == s,
        accepted_toggles(s, polls) == 0,
    decreases polls.len(),
{
    if polls.len() > 0 {
        lemma_quit_terminal(s, polls.drop_first());
    }
}

} // verus!
