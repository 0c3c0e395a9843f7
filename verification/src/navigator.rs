//! The navigator: the composite state with the UI that shows it, moved
//! forward one tick at a time.

use vstd::prelude::*;
use crate::action::{NavError, Requests, Trigger};
use crate::dialogue::DialoguePlugin;
use crate::screen::{
    cleared, lemma_entered_builds, lemma_exited_vacant, lemma_recolored_by_keeps,
    lemma_routed_ok, lemma_same_shape, lemma_screen_shows, lemma_transition_consistent,
    screen_of, shows,
};
use crate::splash::{splash_setup_sys, SplashTimer, TimerModel, SPLASH_NANOS};
use crate::state::{CompositeState, GameState, MenuState, PauseState};
use crate::tree::{well_formed, Slots, UiTree};
use crate::ui::{timer_view, Frame, UiPlugin};
use crate::widgets::recolored_by;

verus! {

/// What the caller does after a tick.
#[derive(Clone, Copy, PartialEq, Eq, Debug, Structural)]
pub enum Control {
    /// Go on with the next tick.
    Continue,
    /// End the process.
    Exit,
}

/// The mathematical model of a [`Navigator`].
pub struct NavigatorView {
    pub state: CompositeState,
    pub ui: Slots,
    pub timer: Option<TimerModel>,
}

impl NavigatorView {
    /// The invariant of the navigator: the composite state is consistent,
    /// the arena is well formed and holds nothing but the screen of the
    /// state, and there is a countdown exactly on the splash screen.
    pub open spec fn wf(self) -> bool {
        &&& self.state.consistent()
        &&& well_formed(self.ui)
        &&& shows(self.ui, self.state)
        &&& (self.timer is Some <==> self.state.game == GameState::Splash)
    }

    /// The navigator at the start: the splash screen is up and its
    /// countdown has not begun.
    pub open spec fn initial() -> NavigatorView {
        NavigatorView {
            state: CompositeState::initial(),
            ui: screen_of(CompositeState::initial(), 0),
            timer: Some(TimerModel::fresh(SPLASH_NANOS as nat)),
        }
    }

    /// What the systems of one tick queue.
    pub open spec fn queued(self, frame: &Frame) -> Requests {
        UiPlugin::queued(
            self.state,
            self.ui,
            self.timer,
            frame.delta as nat,
            frame.escape_just_pressed,
            frame.events@,
            Requests::empty(),
        )->Ok_0
    }

    /// The state that a tick ends in: the one that was queued last, unless
    /// the end of the process was queued or no state was.
    pub open spec fn next_state(self, frame: &Frame) -> CompositeState {
        let q = self.queued(frame);
        if q.exit || q.next is None {
            self.state
        } else {
            q.next->0
        }
    }

    /// The navigator after one tick. While the state stays, the systems of
    /// the tick have set the colours of the buttons and advanced the
    /// countdown. Where the state changes, every node of the old screen is
    /// gone, the screen of the new state is built behind the old ids, and a
    /// countdown exists only if the new state is the splash screen.
    pub open spec fn after(self, frame: &Frame) -> NavigatorView {
        let to = self.next_state(frame);
        if to == self.state {
            NavigatorView {
                state: self.state,
                ui: UiPlugin::updated(self.state, self.ui, frame.events@),
                timer: UiPlugin::counted(self.state, self.timer, frame.delta as nat),
            }
        } else {
            NavigatorView {
                state: to,
                ui: cleared(self.ui.len()) + screen_of(to, self.ui.len() as int),
                timer: if to.game == GameState::Splash {
                    Some(TimerModel::fresh(SPLASH_NANOS as nat))
                } else {
                    None
                },
            }
        }
    }

    /// The navigator after the ticks `frames`, one after the other.
    pub open spec fn after_all(self, frames: Seq<Frame>) -> NavigatorView
        decreases frames.len(),
    {
        if frames.len() == 0 {
            self
        } else {
            self.after_all(frames.drop_last()).after(&frames.last())
        }
    }

    /// What the caller is told after the tick.
    pub open spec fn control(self, frame: &Frame) -> Control {
        if self.queued(frame).exit {
            Control::Exit
        } else {
            Control::Continue
        }
    }
}

/// The screen-navigation state of the application: where the player is and
/// what the UI holds.
#[derive(Clone, Debug)]
pub struct Navigator {
    state: CompositeState,
    ui: UiTree,
    timer: Option<SplashTimer>,
}

impl View for Navigator {
    type V = NavigatorView;

    closed spec fn view(&self) -> NavigatorView {
        NavigatorView { state: self.state, ui: self.ui@, timer: timer_view(self.timer) }
    }
}

impl Navigator {
    /// The invariant of the navigator.
    pub open spec fn wf(&self) -> bool {
        self@.wf()
    }

    /// The navigator at the start of the application, on the splash screen.
    pub fn new() -> (nav: Navigator)
        ensures
            nav.wf(),
            nav@ == NavigatorView::initial(),
    {
        let mut ui = UiTree::new();
        let mut timer: Option<SplashTimer> = None;
        splash_setup_sys(&mut ui, &mut timer);
        let state = CompositeState {
            game: GameState::Splash,
            menu: MenuState::Disabled,
            pause: PauseState::Disabled,
        };
        proof {
            lemma_screen_shows(0, state);
        }
        Navigator { state, ui, timer }
    }

    /// The current composite state.
    pub fn state(&self) -> (s: CompositeState)
        ensures
            s == self@.state,
    {
        self.state
    }

    /// The UI as it stands.
    pub fn ui(&self) -> (ui: &UiTree)
        ensures
            ui@ == self@.ui,
    {
        &self.ui
    }

    /// The countdown of the splash screen, while there is one.
    pub fn timer(&self) -> (t: Option<SplashTimer>)
        ensures
            timer_view(t) == self@.timer,
    {
        self.timer
    }

    /// Runs one tick: the systems of the current state read the state and
    /// queue their requests, then the queue is applied. A queued end of the
    /// process is reported and leaves the state alone. A queued state
    /// replaces the current one: the exit hooks of the old state run, then
    /// the enter hooks of the new one.
    ///
    /// No trigger can fail here: the screens hold only buttons whose
    /// actions the table allows in the state that shows them.
    pub fn tick(&mut self, frame: &Frame) -> (r: Result<Control, NavError>)
        requires
            old(self).wf(),
        ensures
            final(self).wf(),
            final(self)@ == old(self)@.after(frame),
            r == Ok::<Control, NavError>(old(self)@.control(frame)),
    {
        let state = self.state;
        let mut requests = Requests::new();
        proof {
            let v = self@;
            lemma_routed_ok(
                true,
                v.state,
                v.ui,
                frame.events@,
                frame.escape_just_pressed,
                Requests::empty(),
            );
            lemma_routed_ok(
                true,
                v.state,
                Seq::empty(),
                Seq::empty(),
                frame.escape_just_pressed,
                Requests::empty(),
            );
            lemma_transition_consistent(v.state, Trigger::TimerElapsed);
            lemma_recolored_by_keeps(v.ui, frame.events@);
            lemma_same_shape(v.ui, recolored_by(v.ui, frame.events@), v.state);
        }
        UiPlugin::update(&state, &mut self.ui, &mut self.timer, frame, &mut requests)?;
        if requests.exit {
            return Ok(Control::Exit);
        }
        match requests.next {
            Some(to) => {
                if to != state {
                    proof {
                        lemma_exited_vacant(self.ui@, state, to);
                        lemma_entered_builds(cleared(self.ui@.len()), state, to);
                    }
                    UiPlugin::exit(&state, &to, &mut self.ui, &mut self.timer);
                    UiPlugin::enter(&state, &to, &mut self.ui, &mut self.timer)?;
                    DialoguePlugin::enter(&state, &to, &mut self.ui);
                    self.state = to;
                    proof {
                        self.ui.lemma_len_bounded();
                        lemma_screen_shows(old(self)@.ui.len(), to);
                    }
                }
            },
            None => {},
        }
        Ok(Control::Continue)
    }
}

} // verus!
