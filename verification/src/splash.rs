//! The splash screen and its one-shot countdown.

use vstd::prelude::*;
use bevy::time::{Timer, TimerMode};
use core::time::Duration;
use crate::action::{transition, Requests, Trigger};
use crate::main_menu::menu_setup_sys;
use crate::node::{Layout, Length, NodeKind, ScreenTag, UiNode};
use crate::state::{CompositeState, GameState};
use crate::tree::{despawn_entities, without, OnSplashScreen, Slots, UiTree};

verus! {

/// How long the splash screen stays, in nanoseconds: two seconds.
pub const SPLASH_NANOS: u64 = 2_000_000_000;

/// The mathematical model of a one-shot countdown, with time in
/// nanoseconds.
pub struct TimerModel {
    /// Time counted so far; stops at `duration`.
    pub elapsed: nat,
    /// Time after which the countdown is over.
    pub duration: nat,
    /// Whether the countdown is over.
    pub finished: bool,
}

impl TimerModel {
    /// A countdown of `duration` on which no time has passed.
    pub open spec fn fresh(duration: nat) -> TimerModel {
        TimerModel { elapsed: 0, duration, finished: false }
    }

    /// Whether `delta` more time ends a countdown that was still running.
    pub open spec fn just_finishes(self, delta: nat) -> bool {
        !self.finished && self.elapsed + delta >= self.duration
    }

    /// The countdown after `delta` more time. Once it is over it does not
    /// change any more.
    pub open spec fn tick(self, delta: nat) -> TimerModel {
        if self.finished {
            self
        } else if self.elapsed + delta >= self.duration {
            TimerModel { elapsed: self.duration, finished: true, ..self }
        } else {
            TimerModel { elapsed: self.elapsed + delta, ..self }
        }
    }

    /// The countdown after the ticks `deltas`, one after the other.
    pub open spec fn run(self, deltas: Seq<nat>) -> TimerModel
        decreases deltas.len(),
    {
        if deltas.len() == 0 {
            self
        } else {
            self.run(deltas.drop_last()).tick(deltas.last())
        }
    }
}

/// The sum of `deltas`.
pub open spec fn total(deltas: Seq<nat>) -> nat
    decreases deltas.len(),
{
    if deltas.len() == 0 {
        0
    } else {
        total(deltas.drop_last()) + deltas.last()
    }
}

/// The countdown of the splash screen.
#[derive(Clone, Copy, PartialEq, Eq, Debug)]
pub struct SplashTimer {
    elapsed: u64,
    duration: u64,
    finished: bool,
}

impl View for SplashTimer {
    type V = TimerModel;

    closed spec fn view(&self) -> TimerModel {
        TimerModel {
            elapsed: self.elapsed as nat,
            duration: self.duration as nat,
            finished: self.finished,
        }
    }
}

impl SplashTimer {
    /// A countdown of `duration` nanoseconds on which no time has passed.
    pub fn new(duration: u64) -> (t: SplashTimer)
        ensures
            t@ == TimerModel::fresh(duration as nat),
    {
        SplashTimer { elapsed: 0, duration, finished: false }
    }

    /// Nanoseconds counted so far.
    pub fn elapsed(&self) -> (e: u64)
        ensures
            e == self@.elapsed,
    {
        self.elapsed
    }

    /// Nanoseconds after which the countdown is over.
    pub fn duration(&self) -> (d: u64)
        ensures
            d == self@.duration,
    {
        self.duration
    }

    /// Whether the countdown is over.
    pub fn is_finished(&self) -> (b: bool)
        ensures
            b == self@.finished,
    {
        self.finished
    }

    /// Advances the countdown by `delta` nanoseconds and says whether this
    /// very tick ended it. A countdown that is over stays as it is.
    pub fn tick(&mut self, delta: u64) -> (just_finished: bool)
        ensures
            final(self)@ == old(self)@.tick(delta as nat),
            just_finished == old(self)@.just_finishes(delta as nat),
    {
        if self.finished {
            return false;
        }
        let (elapsed, finished) = tick_once(self.duration, self.elapsed, delta);
        self.elapsed = elapsed;
        self.finished = finished;
        finished
    }
}

/// One tick of the engine's one-shot timer. The body makes a `Timer` of
/// `bevy::time` with `Timer::new` in `TimerMode::Once`, gives it the time
/// counted so far with `Timer::set_elapsed`, advances it with `Timer::tick`,
/// and reads `Timer::elapsed` and `Timer::is_finished`. All times are in
/// nanoseconds.
///
/// The contract is not proved. It states what the engine's source shows of
/// a timer that runs once, is not paused and is not over yet: the tick adds
/// `delta` to the time counted, the timer is over exactly if that reaches
/// `duration`, and a timer that is over holds exactly `duration`.
#[verifier::external_body]
fn tick_once(duration: u64, elapsed: u64, delta: u64) -> (r: (u64, bool))
    ensures
        r.1 == (elapsed + delta >= duration),
        r.0 == (if elapsed + delta >= duration {
            duration as int
        } else {
            elapsed + delta
        }),
{
    let mut timer = Timer::new(Duration::from_nanos(duration), TimerMode::Once);
    timer.set_elapsed(Duration::from_nanos(elapsed));
    timer.tick(Duration::from_nanos(delta));
    (timer.elapsed().as_nanos() as u64, timer.is_finished())
}

/// The nodes of the splash screen as they stand in an arena in which the
/// first of them gets the id `base`: a box as large as the window with the
/// logo centred in it at half the width.
pub open spec fn splash_screen(base: int) -> Slots {
    seq![
        Some(
            UiNode {
                parent: None,
                tag: Some(ScreenTag::OnSplashScreen),
                layout: Layout {
                    width: Length::Percent(100),
                    height: Length::Percent(100),
                    margin: 0,
                    column: false,
                    centered: true,
                },
                kind: NodeKind::Container { background: None },
            },
        ),
        Some(
            UiNode {
                parent: Some(base as usize),
                tag: None,
                layout: Layout { width: Length::Percent(50), ..Layout::plain() },
                kind: NodeKind::Image { path: "menu/splash.png"@ },
            },
        ),
    ]
}

/// Builds the splash screen and starts its countdown. Runs when the
/// top-level state becomes `Splash`.
pub fn splash_setup_sys(ui: &mut UiTree, timer: &mut Option<SplashTimer>)
    requires
        old(ui).wf(),
    ensures
        final(ui).wf(),
        final(ui)@ == old(ui)@ + splash_screen(old(ui)@.len() as int),
        *final(timer) is Some,
        final(timer)->0@ == TimerModel::fresh(SPLASH_NANOS as nat),
{
    let layout = Layout {
        width: Length::Percent(100),
        height: Length::Percent(100),
        margin: 0,
        column: false,
        centered: true,
    };
    let root = ui.spawn_root(
        Some(ScreenTag::OnSplashScreen),
        layout,
        NodeKind::Container { background: None },
    );
    let logo = NodeKind::Image { path: "menu/splash.png".to_owned() };
    let logo_layout = Layout { width: Length::Percent(50), ..Layout::default() };
    let _ = ui.spawn_child(root, None, logo_layout, logo);
    *timer = Some(SplashTimer::new(SPLASH_NANOS));
}

/// Advances the splash countdown by the time of one frame and, on the tick
/// that ends it, queues the move to the main menu. Does nothing while the
/// top-level state is not `Splash`, and nothing after the countdown is
/// over.
pub fn countdown_sys(
    delta: u64,
    timer: &mut SplashTimer,
    state: &CompositeState,
    requests: &mut Requests,
)
    ensures
        final(timer)@ == (if state.game == GameState::Splash {
            old(timer)@.tick(delta as nat)
        } else {
            old(timer)@
        }),
        *final(requests) == (if state.game == GameState::Splash && old(timer)@.just_finishes(
            delta as nat,
        ) {
            old(requests).after(transition(*state, Trigger::TimerElapsed)->0)
        } else {
            *old(requests)
        }),
{
    if state.game == GameState::Splash {
        if timer.tick(delta) {
            let mut target = CompositeState { game: GameState::Menu, ..*state };
            menu_setup_sys(&mut target);
            requests.set(target);
        }
    }
}

/// The splash screen's part of the application: it builds the screen when
/// the top-level state becomes `Splash`, counts down while it stays, and
/// removes screen and countdown when the state is left.
pub struct SplashPlugin;

impl SplashPlugin {
    /// Whether the change from `from` to `to` leaves the splash state.
    pub open spec fn leaves(from: CompositeState, to: CompositeState) -> bool {
        from.game == GameState::Splash && to.game != GameState::Splash
    }

    /// Whether the change from `from` to `to` enters the splash state.
    pub open spec fn arrives(from: CompositeState, to: CompositeState) -> bool {
        to.game == GameState::Splash && from.game != GameState::Splash
    }

    /// The arena after the exit hook for the change from `from` to `to`.
    pub open spec fn exited(s: Slots, from: CompositeState, to: CompositeState) -> Slots {
        if SplashPlugin::leaves(from, to) {
            without(s, ScreenTag::OnSplashScreen)
        } else {
            s
        }
    }

    /// The arena after the enter hook for the change from `from` to `to`.
    pub open spec fn entered(s: Slots, from: CompositeState, to: CompositeState) -> Slots {
        if SplashPlugin::arrives(from, to) {
            s + splash_screen(s.len() as int)
        } else {
            s
        }
    }

    /// Exit hook: where the change leaves the splash state, the splash
    /// screen is torn down and the countdown is dropped.
    pub fn exit(
        from: &CompositeState,
        to: &CompositeState,
        ui: &mut UiTree,
        timer: &mut Option<SplashTimer>,
    )
        requires
            old(ui).wf(),
        ensures
            final(ui).wf(),
            final(ui)@ == SplashPlugin::exited(old(ui)@, *from, *to),
            *final(timer) == (if SplashPlugin::leaves(*from, *to) {
                None
            } else {
                *old(timer)
            }),
    {
        if from.game == GameState::Splash && to.game != GameState::Splash {
            despawn_entities::<OnSplashScreen>(ui);
            *timer = None;
        }
    }

    /// Enter hook: where the change enters the splash state, the splash
    /// screen is built and a new countdown starts.
    pub fn enter(
        from: &CompositeState,
        to: &CompositeState,
        ui: &mut UiTree,
        timer: &mut Option<SplashTimer>,
    )
        requires
            old(ui).wf(),
        ensures
            final(ui).wf(),
            final(ui)@ == SplashPlugin::entered(old(ui)@, *from, *to),
            SplashPlugin::arrives(*from, *to) ==> *final(timer) is Some && final(timer)->0@
                == TimerModel::fresh(SPLASH_NANOS as nat),
            !SplashPlugin::arrives(*from, *to) ==> *final(timer) == *old(timer),
    {
        if to.game == GameState::Splash && from.game != GameState::Splash {
            splash_setup_sys(ui, timer);
        }
    }

    /// The systems of every tick: the countdown, where there is one.
    pub fn update(
        delta: u64,
        state: &CompositeState,
        timer: &mut Option<SplashTimer>,
        requests: &mut Requests,
    )
        ensures
            *old(timer) is None ==> *final(timer) is None && *final(requests) == *old(requests),
            *old(timer) is Some ==> {
                let running = state.game == GameState::Splash;
                let before = old(timer)->0@;
                &&& *final(timer) is Some
                &&& final(timer)->0@ == (if running {
                    before.tick(delta as nat)
                } else {
                    before
                })
                &&& *final(requests) == (if running && before.just_finishes(delta as nat) {
                    old(requests).after(transition(*state, Trigger::TimerElapsed)->0)
                } else {
                    *old(requests)
                })
            },
    {
        match timer {
            Some(t) => {
                countdown_sys(delta, t, state, requests);
            },
            None => {},
        }
    }
}

} // verus!
