//! What holds of the navigation as a whole.

use vstd::prelude::*;
use crate::action::{
    route_presses, transition, ButtonAction, Effect, Interaction, Requests, Trigger,
};
use crate::main_menu::MenuPlugin;
use crate::navigator::{Control, NavigatorView};
use crate::node::ScreenTag;
use crate::pause::PausePlugin;
use crate::screen::{
    lemma_recolored_by_keeps, lemma_routed_ok, lemma_same_shape, lemma_screen_shows,
    lemma_transition_consistent, screen_tag,
};
use crate::splash::{total, SplashPlugin, TimerModel, SPLASH_NANOS};
use crate::state::{CompositeState, GameState, MenuState, PauseState};
use crate::tree::{
    lemma_without_idempotent, lemma_without_well_formed, recolored, tag_in_use, well_formed,
    without, Slots,
};
use crate::ui::{Frame, UiPlugin};
use crate::widgets::{button_color, recolored_by, resolved, InteractionEvent};

verus! {

/// The state that the table leads to from `s` on the trigger `t`: the target
/// of the move, or `s` itself where the trigger moves nothing.
pub open spec fn outcome(s: CompositeState, t: Trigger) -> CompositeState {
    match transition(s, t) {
        Some(Effect::Goto(target)) => target,
        _ => s,
    }
}

/// A tick in which only the escape key went down ends in the state that the
/// table gives for the escape key, and does not end the process.
pub proof fn law_escape_follows_table(v: NavigatorView, frame: &Frame)
    requires
        v.wf(),
        frame.escape_just_pressed,
        frame.events@.len() == 0,
        v.state.game != GameState::Splash,
    ensures
        transition(v.state, Trigger::Escape) is Some,
        v.after(frame).state == outcome(v.state, Trigger::Escape),
        v.control(frame) == Control::Continue,
{
    reveal_with_fuel(resolved, 1);
    reveal_with_fuel(route_presses, 1);
}

/// A tick in which a single button was pressed, and nothing else happened,
/// ends in the state that the table gives for the action of that button.
/// The process ends exactly if the table says so.
pub proof fn law_press_follows_table(v: NavigatorView, frame: &Frame, node: usize)
    requires
        v.wf(),
        !frame.escape_just_pressed,
        frame.events@ == seq![InteractionEvent { node, interaction: Interaction::Pressed }],
        node < v.ui.len(),
        v.ui[node as int] is Some,
        v.ui[node as int]->0.action() is Some,
    ensures
        transition(v.state, Trigger::Pressed(v.ui[node as int]->0.action()->0)) is Some,
        v.after(frame).state == outcome(
            v.state,
            Trigger::Pressed(v.ui[node as int]->0.action()->0),
        ),
        v.control(frame) == Control::Exit <==> transition(
            v.state,
            Trigger::Pressed(v.ui[node as int]->0.action()->0),
        ) == Some(Effect::Exit),
{
    reveal_with_fuel(resolved, 2);
    reveal_with_fuel(route_presses, 2);
}

/// On the splash screen a tick ends in the main menu exactly if the
/// countdown runs out in it; otherwise it ends on the splash screen.
/// Nothing else leads away from the splash screen, and the process does not
/// end there.
pub proof fn law_splash_follows_countdown(v: NavigatorView, frame: &Frame)
    requires
        v.wf(),
        v.state.game == GameState::Splash,
    ensures
        v.timer is Some,
        v.after(frame).state == (if v.timer->0.just_finishes(frame.delta as nat) {
            outcome(v.state, Trigger::TimerElapsed)
        } else {
            v.state
        }),
        outcome(v.state, Trigger::TimerElapsed) == (CompositeState {
            game: GameState::Menu,
            menu: MenuState::MainMenu,
            pause: PauseState::Disabled,
        }),
        v.control(frame) == Control::Continue,
{
}

/// The splash screen is never entered again once it has been left.
pub proof fn law_splash_is_not_reentered(v: NavigatorView, frame: &Frame)
    requires
        v.wf(),
        v.state.game != GameState::Splash,
    ensures
        v.after(frame).state.game != GameState::Splash,
{
    lemma_routed_ok(
        true,
        v.state,
        v.ui,
        frame.events@,
        frame.escape_just_pressed,
        Requests::empty(),
    );
    lemma_routed_ok(
        true,
        v.state,
        Seq::empty(),
        Seq::empty(),
        frame.escape_just_pressed,
        Requests::empty(),
    );
    lemma_targets_are_not_splash(v.state, resolved(v.ui, frame.events@), Requests::empty());
    lemma_targets_are_not_splash(v.state, Seq::empty(), Requests::empty());
}

proof fn lemma_targets_are_not_splash(
    s: CompositeState,
    interactions: Seq<(Interaction, ButtonAction)>,
    queued: Requests,
)
    requires
        s.game != GameState::Splash,
        queued.next is Some ==> queued.next->0.game != GameState::Splash,
    ensures
        route_presses(s, interactions, queued) matches Ok(q) ==> (q.next is Some
            ==> q.next->0.game != GameState::Splash),
    decreases interactions.len(),
{
    if interactions.len() > 0 {
        if interactions[0].0 != Interaction::Pressed {
            lemma_targets_are_not_splash(s, interactions.drop_first(), queued);
        } else {
            match transition(s, Trigger::Pressed(interactions[0].1)) {
                Some(e) => {
                    lemma_targets_are_not_splash(s, interactions.drop_first(), queued.after(e));
                },
                None => {},
            }
        }
    }
}

/// Pressing "Quit" asks for the end of the process in every state, and for
/// nothing else: no state is queued by it.
pub proof fn law_quit_exits(s: CompositeState, queued: Requests)
    ensures
        transition(s, Trigger::Pressed(ButtonAction::Quit)) == Some(Effect::Exit),
        queued.after(Effect::Exit).exit,
        queued.after(Effect::Exit).next == queued.next,
{
}

/// A tick in which only a "Quit" button was pressed ends the process and
/// leaves the composite state, the countdown and every node but the colour
/// of the pressed button as they were.
pub proof fn law_quit_ends_the_process(v: NavigatorView, frame: &Frame, node: usize)
    requires
        v.wf(),
        !frame.escape_just_pressed,
        frame.events@ == seq![InteractionEvent { node, interaction: Interaction::Pressed }],
        node < v.ui.len(),
        v.ui[node as int] is Some,
        v.ui[node as int]->0.action() == Some(ButtonAction::Quit),
    ensures
        v.control(frame) == Control::Exit,
        v.after(frame).state == v.state,
        v.after(frame).timer == v.timer,
        v.after(frame).ui == recolored(
            v.ui,
            node,
            button_color(Interaction::Pressed),
        ),
{
    law_press_follows_table(v, frame, node);
    reveal_with_fuel(recolored_by, 2);
}

/// The escape key does nothing on the splash screen and on the main menu,
/// whatever the other sub-states are: the table says so, and nothing is
/// queued.
pub proof fn law_escape_is_idle(s: CompositeState, queued: Requests)
    requires
        s.game == GameState::Splash || (s.game == GameState::Menu && s.menu
            == MenuState::MainMenu),
    ensures
        transition(s, Trigger::Escape) == Some(Effect::Stay),
        queued.after(transition(s, Trigger::Escape)->0) == queued,
{
}

/// A tick of the navigator in which only the escape key went down changes
/// no state on the splash screen and on the main menu.
pub proof fn law_escape_is_idle_in_a_tick(v: NavigatorView, frame: &Frame)
    requires
        v.wf(),
        frame.escape_just_pressed,
        frame.events@.len() == 0,
        v.state.game == GameState::Menu && v.state.menu == MenuState::MainMenu,
    ensures
        v.after(frame).state == v.state,
        v.after(frame).ui == v.ui,
        v.after(frame).timer == v.timer,
        v.control(frame) == Control::Continue,
{
    law_escape_follows_table(v, frame);
    reveal_with_fuel(recolored_by, 1);
}

/// Only the label of the screen that is up is in use: whatever a state
/// that was left had labelled is gone.
pub proof fn law_no_residue(v: NavigatorView, tag: ScreenTag)
    requires
        v.wf(),
        tag_in_use(v.ui, tag),
    ensures
        screen_tag(v.state) is Some,
        screen_tag(v.state)->0.within(tag),
{
}

/// A countdown that starts fresh is over after a run of ticks exactly if
/// the ticks add up to its duration, and it counts what they add up to
/// until then.
pub proof fn law_countdown_accumulates(duration: nat, deltas: Seq<nat>)
    requires
        duration > 0,
    ensures
        TimerModel::fresh(duration).run(deltas).finished <==> total(deltas) >= duration,
        total(deltas) < duration ==> TimerModel::fresh(duration).run(deltas).elapsed == total(
            deltas,
        ),
        TimerModel::fresh(duration).run(deltas).duration == duration,
    decreases deltas.len(),
{
    if deltas.len() > 0 {
        law_countdown_accumulates(duration, deltas.drop_last());
    }
}

/// Whether the tick number `k` of the run `deltas` is the one that ends a
/// countdown of `duration` that started fresh.
pub open spec fn fires(duration: nat, deltas: Seq<nat>, k: int) -> bool {
    0 <= k < deltas.len() && TimerModel::fresh(duration).run(deltas.take(k)).just_finishes(
        deltas[k],
    )
}

/// The countdown fires on the first tick on which the time adds up to its
/// duration: not before, and on no other tick.
pub proof fn law_countdown_fires_once(duration: nat, deltas: Seq<nat>, k: int)
    requires
        duration > 0,
        0 <= k < deltas.len(),
    ensures
        fires(duration, deltas, k) <==> total(deltas.take(k)) < duration <= total(
            deltas.take(k + 1),
        ),
        forall|j: int| fires(duration, deltas, j) && fires(duration, deltas, k) ==> j == k,
{
    law_countdown_accumulates(duration, deltas.take(k));
    assert(deltas.take(k + 1).drop_last() =~= deltas.take(k));
    assert forall|j: int| fires(duration, deltas, j) && fires(duration, deltas, k) implies j
        == k by {
        law_countdown_accumulates(duration, deltas.take(j));
        assert(deltas.take(j + 1).drop_last() =~= deltas.take(j));
        if j < k {
            lemma_total_grows(deltas.take(k), j + 1);
            assert(deltas.take(k).take(j + 1) =~= deltas.take(j + 1));
        } else if k < j {
            lemma_total_grows(deltas.take(j), k + 1);
            assert(deltas.take(j).take(k + 1) =~= deltas.take(k + 1));
        }
    }
}

proof fn lemma_total_grows(deltas: Seq<nat>, k: int)
    requires
        0 <= k <= deltas.len(),
    ensures
        total(deltas.take(k)) <= total(deltas),
    decreases deltas.len(),
{
    if k == deltas.len() {
        assert(deltas.take(k) =~= deltas);
    } else {
        lemma_total_grows(deltas.drop_last(), k);
        assert(deltas.drop_last().take(k) =~= deltas.take(k));
    }
}

/// A tick keeps the navigator's invariant, as long as ids are left for the
/// nodes of one more screen. No screen has more than twelve nodes.
pub proof fn law_tick_keeps_invariant(v: NavigatorView, frame: &Frame)
    requires
        v.wf(),
        v.ui.len() + 12 <= usize::MAX,
    ensures
        v.after(frame).wf(),
        v.after(frame).ui.len() <= v.ui.len() + 12,
{
    lemma_routed_ok(
        true,
        v.state,
        v.ui,
        frame.events@,
        frame.escape_just_pressed,
        Requests::empty(),
    );
    lemma_routed_ok(
        true,
        v.state,
        Seq::empty(),
        Seq::empty(),
        frame.escape_just_pressed,
        Requests::empty(),
    );
    lemma_transition_consistent(v.state, Trigger::TimerElapsed);
    let to = v.next_state(frame);
    if to == v.state {
        lemma_recolored_by_keeps(v.ui, frame.events@);
        lemma_same_shape(v.ui, recolored_by(v.ui, frame.events@), v.state);
    } else {
        lemma_screen_shows(v.ui.len(), to);
    }
}

/// Whether the tick `frame` brings the navigator `v` the trigger `t` and
/// nothing else: the countdown runs out in it, or only the escape key went
/// down, or a single button that carries the action was pressed.
pub open spec fn brings(v: NavigatorView, frame: &Frame, t: Trigger) -> bool {
    let runs_out = v.state.game == GameState::Splash && v.timer is Some
        && v.timer->0.just_finishes(frame.delta as nat);
    match t {
        Trigger::TimerElapsed => runs_out,
        Trigger::Escape => !runs_out && frame.escape_just_pressed && frame.events@.len() == 0,
        Trigger::Pressed(action) => {
            &&& !frame.escape_just_pressed
            &&& frame.events@.len() == 1
            &&& frame.events@[0].interaction == Interaction::Pressed
            &&& frame.events@[0].node < v.ui.len()
            &&& v.ui[frame.events@[0].node as int] is Some
            &&& v.ui[frame.events@[0].node as int]->0.action() == Some(action)
        },
    }
}

/// A tick that brings one trigger ends in the state that the table gives
/// for it.
pub proof fn law_tick_follows_table(v: NavigatorView, frame: &Frame, t: Trigger)
    requires
        v.wf(),
        brings(v, frame, t),
    ensures
        transition(v.state, t) is Some,
        v.after(frame).state == outcome(v.state, t),
{
    match t {
        Trigger::TimerElapsed => {
            law_splash_follows_countdown(v, frame);
        },
        Trigger::Escape => {
            if v.state.game == GameState::Splash {
                law_splash_follows_countdown(v, frame);
            } else {
                law_escape_follows_table(v, frame);
            }
        },
        Trigger::Pressed(action) => {
            assert(frame.events@ =~= seq![frame.events@[0]]);
            law_press_follows_table(v, frame, frame.events@[0].node);
        },
    }
}

/// The state that the table leads to from `s` over the triggers `ts`, one
/// after the other.
pub open spec fn outcomes(s: CompositeState, ts: Seq<Trigger>) -> CompositeState
    decreases ts.len(),
{
    if ts.len() == 0 {
        s
    } else {
        outcome(outcomes(s, ts.drop_last()), ts.last())
    }
}

/// Whether the ticks `frames`, run from `v`, bring the triggers `ts`, one
/// each.
pub open spec fn bring_all(v: NavigatorView, frames: Seq<Frame>, ts: Seq<Trigger>) -> bool
    decreases frames.len(),
{
    &&& frames.len() == ts.len()
    &&& frames.len() > 0 ==> {
        &&& bring_all(v, frames.drop_last(), ts.drop_last())
        &&& brings(v.after_all(frames.drop_last()), &frames.last(), ts.last())
    }
}

/// Over any run of ticks that bring one trigger each, the navigator keeps
/// its invariant and ends in the state that the table gives for that
/// sequence of triggers, as long as ids are left for the screens that the
/// run builds.
pub proof fn law_runs_follow_table(v: NavigatorView, frames: Seq<Frame>, ts: Seq<Trigger>)
    requires
        v.wf(),
        bring_all(v, frames, ts),
        v.ui.len() + 12 * frames.len() <= usize::MAX,
    ensures
        v.after_all(frames).wf(),
        v.after_all(frames).state == outcomes(v.state, ts),
        v.after_all(frames).ui.len() <= v.ui.len() + 12 * frames.len(),
    decreases frames.len(),
{
    if frames.len() > 0 {
        law_runs_follow_table(v, frames.drop_last(), ts.drop_last());
        let before = v.after_all(frames.drop_last());
        law_tick_keeps_invariant(before, &frames.last());
        law_tick_follows_table(before, &frames.last(), ts.last());
    }
}

proof fn lemma_without_adds_no_tag(s: Slots, gone: ScreenTag, tag: ScreenTag)
    requires
        !tag_in_use(s, tag),
    ensures
        !tag_in_use(without(s, gone), tag),
{
}

/// After the exit hooks of a change of state, no node carries the label of
/// a state that was left, and none carries a label nested under it. This
/// holds of every well-formed arena, whatever else it holds.
pub proof fn law_exit_leaves_no_tagged_node(s: Slots, from: CompositeState, to: CompositeState)
    requires
        well_formed(s),
    ensures
        from.game == GameState::Splash && to.game != GameState::Splash ==> !tag_in_use(
            UiPlugin::exited(s, from, to),
            ScreenTag::OnSplashScreen,
        ),
        (from.game == GameState::Menu || from.game == GameState::Pause) && to.game != from.game
            ==> {
            &&& !tag_in_use(UiPlugin::exited(s, from, to), ScreenTag::OnMenuScreen)
            &&& !tag_in_use(UiPlugin::exited(s, from, to), ScreenTag::OnMainMenuScreen)
            &&& !tag_in_use(UiPlugin::exited(s, from, to), ScreenTag::OnSettingsMenuScreen)
            &&& !tag_in_use(UiPlugin::exited(s, from, to), ScreenTag::OnPauseMenuScreen)
        },
        from.menu == MenuState::MainMenu && to.menu != from.menu ==> !tag_in_use(
            UiPlugin::exited(s, from, to),
            ScreenTag::OnMainMenuScreen,
        ),
        from.pause == PauseState::PauseMenu && to.pause != from.pause ==> !tag_in_use(
            UiPlugin::exited(s, from, to),
            ScreenTag::OnPauseMenuScreen,
        ),
        (from.menu == MenuState::Settings && to.menu != from.menu) || (from.pause
            == PauseState::Settings && to.pause != from.pause) ==> !tag_in_use(
            UiPlugin::exited(s, from, to),
            ScreenTag::OnSettingsMenuScreen,
        ),
{
    let s1 = SplashPlugin::exited(s, from, to);
    let s2a = if from.game == GameState::Menu && to.game != GameState::Menu {
        without(s1, ScreenTag::OnMenuScreen)
    } else {
        s1
    };
    let s2 = MenuPlugin::exited(s1, from, to);
    let s3a = if from.game == GameState::Pause && to.game != GameState::Pause {
        without(s2, ScreenTag::OnMenuScreen)
    } else {
        s2
    };
    let s3 = PausePlugin::exited(s2, from, to);
    lemma_without_well_formed(s, ScreenTag::OnSplashScreen);
    lemma_without_idempotent(s, ScreenTag::OnSplashScreen);
    lemma_without_well_formed(s1, ScreenTag::OnMenuScreen);
    lemma_without_idempotent(s1, ScreenTag::OnMenuScreen);
    lemma_without_well_formed(s2a, ScreenTag::OnMainMenuScreen);
    lemma_without_idempotent(s2a, ScreenTag::OnMainMenuScreen);
    lemma_without_well_formed(s2a, ScreenTag::OnSettingsMenuScreen);
    lemma_without_idempotent(s2a, ScreenTag::OnSettingsMenuScreen);
    lemma_without_well_formed(s2, ScreenTag::OnMenuScreen);
    lemma_without_idempotent(s2, ScreenTag::OnMenuScreen);
    lemma_without_well_formed(s3a, ScreenTag::OnPauseMenuScreen);
    lemma_without_idempotent(s3a, ScreenTag::OnPauseMenuScreen);
    lemma_without_well_formed(s3a, ScreenTag::OnSettingsMenuScreen);
    lemma_without_idempotent(s3a, ScreenTag::OnSettingsMenuScreen);
    lemma_carries_the_parent_label(s2a);
    lemma_carries_the_parent_label(s2);
    lemma_carries_the_parent_label(s3a);
    lemma_carries_the_parent_label(s3);
    assert forall|gone: ScreenTag, tag: ScreenTag, a: Slots|
        !tag_in_use(a, tag) implies !#[trigger] tag_in_use(without(a, gone), tag) by {
        lemma_without_adds_no_tag(a, gone, tag);
    }
}

/// What carries a nested label carries the menu label with it.
proof fn lemma_carries_the_parent_label(s: Slots)
    ensures
        !tag_in_use(s, ScreenTag::OnMenuScreen) ==> {
            &&& !tag_in_use(s, ScreenTag::OnMainMenuScreen)
            &&& !tag_in_use(s, ScreenTag::OnSettingsMenuScreen)
            &&& !tag_in_use(s, ScreenTag::OnPauseMenuScreen)
        },
{
    if !tag_in_use(s, ScreenTag::OnMenuScreen) {
        assert forall|i: int| 0 <= i < s.len() && (#[trigger] s[i]) is Some implies !s[i]->0.carries(
            ScreenTag::OnMenuScreen,
        ) by {}
    }
}

/// The time that each of the ticks `frames` brings.
pub open spec fn deltas_of(frames: Seq<Frame>) -> Seq<nat> {
    frames.map_values(|f: Frame| f.delta as nat)
}

/// From the start of the application the splash screen stays exactly as
/// long as the ticks add up to less than two seconds: it is not left
/// before, it is left on the tick that completes them, and it does not come
/// back. Until then its countdown holds the time that has passed.
pub proof fn law_splash_ends_once(frames: Seq<Frame>)
    requires
        2 + 12 * frames.len() <= usize::MAX,
    ensures
        NavigatorView::initial().after_all(frames).wf(),
        NavigatorView::initial().after_all(frames).ui.len() <= 2 + 12 * frames.len(),
        NavigatorView::initial().after_all(frames).state.game == GameState::Splash <==> total(
            deltas_of(frames),
        ) < SPLASH_NANOS,
        total(deltas_of(frames)) < SPLASH_NANOS ==> NavigatorView::initial().after_all(
            frames,
        ).timer == Some(
            TimerModel {
                elapsed: total(deltas_of(frames)),
                duration: SPLASH_NANOS as nat,
                finished: false,
            },
        ),
    decreases frames.len(),
{
    let start = NavigatorView::initial();
    if frames.len() == 0 {
        lemma_screen_shows(0, start.state);
    } else {
        let before = start.after_all(frames.drop_last());
        law_splash_ends_once(frames.drop_last());
        law_tick_keeps_invariant(before, &frames.last());
        assert(deltas_of(frames).drop_last() =~= deltas_of(frames.drop_last()));
        if before.state.game == GameState::Splash {
            law_splash_follows_countdown(before, &frames.last());
        } else {
            law_splash_is_not_reentered(before, &frames.last());
        }
    }
}

} // verus!
