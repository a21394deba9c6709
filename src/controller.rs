use vstd::prelude::*;
use crate::easing::{ease, ease_spec, lemma_ease_between, lemma_ease_ends};
use crate::model::{Config, Rgba, VisualState};

verus! {

/// Number of ticks that take a transition from start to end.
pub const TRANSITION_STEPS: u64 = 10;

/// Milliseconds between two ticks of a running transition.
pub const TICK_INTERVAL_MS: u64 = 10;

/// A running transition: what was captured when it started, and how many
/// ticks it has taken.
#[derive(Clone, Copy, Debug, PartialEq, Eq, Structural)]
pub struct Transition {
    /// The floating state being moved to.
    pub target: bool,
    /// The style's resting background color when the transition started.
    pub base: Rgba,
    /// The configuration when the transition started.
    pub config: Config,
    /// Ticks taken so far; the progress is `step / TRANSITION_STEPS`.
    pub step: u64,
}

impl Transition {
    pub open spec fn wf(self) -> bool {
        &&& self.base.wf()
        &&& self.config.wf()
        &&& self.step < TRANSITION_STEPS
    }
}

/// What the host has to do after a request to change the floating state.
#[derive(Clone, Copy, Debug, PartialEq, Eq, Structural)]
pub enum TransitionStart {
    /// The state was already the one requested: nothing started.
    Unchanged,
    /// A transition started and no ticker runs yet: start one.
    StartTicker,
    /// A transition started in place of one in flight, whose ticker now
    /// drives the new one.
    TickerRunning,
}

/// What the ticker does after a tick.
#[derive(Clone, Copy, Debug, PartialEq, Eq, Structural)]
pub enum TickResult {
    Continue,
    Stop,
}

/// The visual state at rest in the given floating state.
pub open spec fn rest_visual(floating: bool, config: Config, base: Rgba) -> VisualState {
    if floating {
        VisualState {
            margin: config.max_margin,
            radius: config.max_radius,
            color: base.with_alpha_spec(config.floating_opacity),
        }
    } else {
        VisualState { margin: 0, radius: 0, color: base }
    }
}

/// The visual state of a transition at tick `step`: the docked-to-floating
/// curve, run backwards when docking.
pub open spec fn visual_at(t: Transition, step: int) -> VisualState {
    let p = if t.target { step } else { TRANSITION_STEPS - step };
    let n = TRANSITION_STEPS as int;
    VisualState {
        margin: ease_spec(p, n, 0, t.config.max_margin as int) as u64,
        radius: ease_spec(p, n, 0, t.config.max_radius as int) as u64,
        color: t.base.with_alpha_spec(
            ease_spec(p, n, t.base.alpha as int, t.config.floating_opacity as int) as u64,
        ),
    }
}

/// The transition controller: the floating flag, the configuration, the
/// visual state, and the transition in flight, if any.
#[derive(Clone, Copy, Debug, PartialEq, Eq, Structural)]
pub struct Controller {
    pub floating: bool,
    pub config: Config,
    pub visual: VisualState,
    pub running: Option<Transition>,
}

/// The controller after a request for floating state `target`, with `base` the
/// style's resting background color, and what the host has to do.
pub open spec fn transition_spec(c: Controller, target: bool, base: Rgba) -> (Controller, TransitionStart) {
    if c.floating == target {
        (c, TransitionStart::Unchanged)
    } else {
        let t = Transition { target, base, config: c.config, step: 0 };
        (
            Controller {
                floating: target,
                visual: VisualState { color: base, ..c.visual },
                running: Some(t),
                ..c
            },
            if c.running is Some { TransitionStart::TickerRunning } else { TransitionStart::StartTicker },
        )
    }
}

/// The controller after one tick of the ticker, and whether the ticker goes on.
pub open spec fn tick_spec(c: Controller) -> (Controller, TickResult) {
    match c.running {
        None => (c, TickResult::Stop),
        Some(t) => {
            let step = t.step + 1;
            let visual = visual_at(t, step);
            if step >= TRANSITION_STEPS {
                (Controller { visual, running: None, ..c }, TickResult::Stop)
            } else {
                (Controller { visual, running: Some(Transition { step: step as u64, ..t }), ..c }, TickResult::Continue)
            }
        },
    }
}

/// The controller after `n` ticks.
pub open spec fn run_ticks(c: Controller, n: nat) -> Controller
    decreases n,
{
    if n == 0 {
        c
    } else {
        tick_spec(run_ticks(c, (n - 1) as nat)).0
    }
}

impl Controller {
    pub open spec fn wf(self) -> bool {
        &&& self.config.wf()
        &&& self.visual.wf()
        &&& (self.running matches Some(t) ==> t.wf())
    }

    /// Docked, at rest, with the given configuration and color.
    pub open spec fn docked_spec(config: Config, color: Rgba) -> Controller {
        Controller {
            floating: false,
            config,
            visual: VisualState { margin: 0, radius: 0, color },
            running: None,
        }
    }

    /// Docked, at rest, with the given configuration and color.
    pub fn docked(config: Config, color: Rgba) -> (r: Controller)
        requires
            config.wf(),
            color.wf(),
        ensures
            r == Controller::docked_spec(config, color),
            r.wf(),
    {
        Controller {
            floating: false,
            config,
            visual: VisualState { margin: 0, radius: 0, color },
            running: None,
        }
    }

    /// Requests floating state `target`; `base` is the style's resting
    /// background color. A request for the current state does nothing. Any
    /// other one records the new state, takes the base color as the current
    /// color, and starts a transition from progress 0 with the current
    /// configuration, in place of any transition in flight.
    pub fn set_floating(&mut self, target: bool, base: Rgba) -> (r: TransitionStart)
        requires
            old(self).wf(),
            base.wf(),
        ensures
            (*final(self), r) == transition_spec(*old(self), target, base),
            final(self).wf(),
    {
        if self.floating == target {
            return TransitionStart::Unchanged;
        }
        let r = if self.running.is_some() {
            TransitionStart::TickerRunning
        } else {
            TransitionStart::StartTicker
        };
        self.floating = target;
        self.visual.color = base;
        self.running = Some(Transition { target, base, config: self.config, step: 0 });
        r
    }

    /// One tick of the ticker: advances the transition in flight by one step
    /// and recomputes margin, radius and opacity from it. The ticker stops
    /// once the progress reaches 1, or when no transition is in flight.
    pub fn tick(&mut self) -> (r: TickResult)
        requires
            old(self).wf(),
        ensures
            (*final(self), r) == tick_spec(*old(self)),
            final(self).wf(),
            r == TickResult::Stop ==> final(self).running is None,
            old(self).running is Some && r == TickResult::Stop ==> final(self).visual
                == rest_visual(
                old(self).running.unwrap().target,
                old(self).running.unwrap().config,
                old(self).running.unwrap().base,
            ),
    {
        match self.running {
            None => TickResult::Stop,
            Some(t) => {
                let step = t.step + 1;
                let p = if t.target { step } else { TRANSITION_STEPS - step };
                proof {
                    let n = TRANSITION_STEPS as int;
                    lemma_ease_between(p as int, n, 0, t.config.max_margin as int);
                    lemma_ease_between(p as int, n, 0, t.config.max_radius as int);
                    lemma_ease_between(p as int, n, t.base.alpha as int, t.config.floating_opacity as int);
                    lemma_ease_ends(n, 0, t.config.max_margin as int);
                    lemma_ease_ends(n, 0, t.config.max_radius as int);
                    lemma_ease_ends(n, t.base.alpha as int, t.config.floating_opacity as int);
                }
                let margin = ease(p, TRANSITION_STEPS, 0, t.config.max_margin);
                let radius = ease(p, TRANSITION_STEPS, 0, t.config.max_radius);
                let alpha = ease(p, TRANSITION_STEPS, t.base.alpha, t.config.floating_opacity);
                self.visual = VisualState { margin, radius, color: t.base.with_alpha(alpha) };
                if step >= TRANSITION_STEPS {
                    self.running = None;
                    TickResult::Stop
                } else {
                    self.running = Some(Transition { step, ..t });
                    TickResult::Continue
                }
            },
        }
    }
}

/// While a transition has ticks left, each tick advances it by one step and
/// sets the visual state to that step's values, keeping the floating flag
/// and the configuration.
pub proof fn lemma_ticks_advance(c: Controller, j: nat)
    requires
        c.running is Some,
        c.running.unwrap().step + j < TRANSITION_STEPS,
    ensures
        run_ticks(c, j).running == Some(
            Transition { step: (c.running.unwrap().step + j) as u64, ..c.running.unwrap() },
        ),
        run_ticks(c, j).floating == c.floating,
        run_ticks(c, j).config == c.config,
        j > 0 ==> run_ticks(c, j).visual == visual_at(c.running.unwrap(), c.running.unwrap().step + j),
    decreases j,
{
    if j > 0 {
        lemma_ticks_advance(c, (j - 1) as nat);
    }
}

/// A transition in flight ends after exactly the ticks it has left: the
/// ticker goes on after each earlier tick and stops after the last, which
/// leaves the visual state at rest in the transition's target state.
pub proof fn lemma_transition_completes(c: Controller)
    requires
        c.running is Some,
        c.running.unwrap().step < TRANSITION_STEPS,
    ensures
        ({
            let t = c.running.unwrap();
            let n = (TRANSITION_STEPS - t.step) as nat;
            &&& forall|j: nat| j + 1 < n ==> #[trigger] tick_spec(run_ticks(c, j)).1 == TickResult::Continue
            &&& tick_spec(run_ticks(c, (n - 1) as nat)).1 == TickResult::Stop
            &&& run_ticks(c, n).running is None
            &&& run_ticks(c, n).floating == c.floating
            &&& run_ticks(c, n).config == c.config
            &&& run_ticks(c, n).visual == rest_visual(t.target, t.config, t.base)
        }),
{
    let t = c.running.unwrap();
    let n = (TRANSITION_STEPS - t.step) as nat;
    assert forall|j: nat| j + 1 < n implies #[trigger] tick_spec(run_ticks(c, j)).1 == TickResult::Continue by {
        lemma_ticks_advance(c, j);
    }
    lemma_ticks_advance(c, (n - 1) as nat);
    let steps = TRANSITION_STEPS as int;
    lemma_ease_ends(steps, 0, t.config.max_margin as int);
    lemma_ease_ends(steps, 0, t.config.max_radius as int);
    lemma_ease_ends(steps, t.base.alpha as int, t.config.floating_opacity as int);
    assert(run_ticks(c, n) == tick_spec(run_ticks(c, (n - 1) as nat)).0);
}

/// Once a change of the floating state has started, the ticker runs exactly
/// `TRANSITION_STEPS` ticks; after the last one margin, radius and opacity
/// are at their values for the requested state: the configured maxima and
/// the floating opacity when floating, zero and the base opacity when
/// docked.
pub proof fn lemma_completion_invariant(c: Controller, target: bool, base: Rgba)
    requires
        c.floating != target,
    ensures
        ({
            let c1 = transition_spec(c, target, base).0;
            let done = run_ticks(c1, TRANSITION_STEPS as nat);
            &&& forall|j: nat| j + 1 < TRANSITION_STEPS ==> #[trigger] tick_spec(run_ticks(c1, j)).1
                == TickResult::Continue
            &&& tick_spec(run_ticks(c1, (TRANSITION_STEPS - 1) as nat)).1 == TickResult::Stop
            &&& done.running is None
            &&& done.floating == target
            &&& done.config == c.config
            &&& done.visual == rest_visual(target, c.config, base)
            &&& done.visual.margin == (if target { c.config.max_margin } else { 0 })
            &&& done.visual.radius == (if target { c.config.max_radius } else { 0 })
            &&& done.visual.color.alpha == (if target { c.config.floating_opacity } else { base.alpha })
        }),
{
    let c1 = transition_spec(c, target, base).0;
    lemma_transition_completes(c1);
}

/// A request for the floating state that the previous request already set
/// changes nothing and starts no transition: of two equal requests in a row,
/// only the first can start one.
pub proof fn lemma_set_floating_idempotent(c: Controller, x: bool, base1: Rgba, base2: Rgba)
    ensures
        ({
            let (c1, a1) = transition_spec(c, x, base1);
            let (c2, a2) = transition_spec(c1, x, base2);
            &&& a2 == TransitionStart::Unchanged
            &&& c2 == c1
            &&& (c.floating != x ==> a1 != TransitionStart::Unchanged)
        }),
{
}

/// From rest, a full transition to the other floating state and a full one
/// back, with the configuration and the style's color unchanged, bring the
/// controller back to where it was.
pub proof fn lemma_reverse_symmetry(c: Controller, base: Rgba)
    requires
        c.running is None,
        c.visual == rest_visual(c.floating, c.config, base),
    ensures
        ({
            let away = run_ticks(transition_spec(c, !c.floating, base).0, TRANSITION_STEPS as nat);
            let back = run_ticks(transition_spec(away, c.floating, base).0, TRANSITION_STEPS as nat);
            back == c
        }),
{
    let away = run_ticks(transition_spec(c, !c.floating, base).0, TRANSITION_STEPS as nat);
    lemma_completion_invariant(c, !c.floating, base);
    lemma_completion_invariant(away, c.floating, base);
}

} // verus!
