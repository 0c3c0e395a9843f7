//! What the UI holds in each state: the invariant that ties the arena to
//! the composite state, and the lemmas that carry it through a tick.

use vstd::prelude::*;
use crate::action::{
    route_presses, transition, ButtonAction, Effect, Interaction, NavError, Requests, Trigger,
};
use crate::main_menu::main_menu_screen;
use crate::node::{Rgba, ScreenTag, UiNode};
use crate::pause::pause_menu_screen;
use crate::settings::{back_action, settings_screen};
use crate::splash::splash_screen;
use crate::state::{CompositeState, GameState, MenuState, PauseState};
use crate::tree::{lemma_without_vacant, recolored, vacant, well_formed, without, Slots};
use crate::ui::UiPlugin;
use crate::widgets::{button_color, recolored_by, resolved, routed, InteractionEvent};

verus! {

/// The label of the screen that is up in the state `s`. The game itself has
/// no screen.
pub open spec fn screen_tag(s: CompositeState) -> Option<ScreenTag> {
    match s.game {
        GameState::Splash => Some(ScreenTag::OnSplashScreen),
        GameState::Menu => match s.menu {
            MenuState::MainMenu => Some(ScreenTag::OnMainMenuScreen),
            MenuState::Settings => Some(ScreenTag::OnSettingsMenuScreen),
            MenuState::Disabled => None,
        },
        GameState::Game => None,
        GameState::Pause => match s.pause {
            PauseState::PauseMenu => Some(ScreenTag::OnPauseMenuScreen),
            PauseState::Settings => Some(ScreenTag::OnSettingsMenuScreen),
            PauseState::Disabled => None,
        },
    }
}

/// Whether the node belongs on the screen of the state `s`: a root carries
/// the label of that screen, what hangs under a root carries none of its
/// own, and a button stands on a screen whose buttons are routed and
/// carries an action that the table allows in `s`.
pub open spec fn fits(n: UiNode<Seq<char>>, s: CompositeState) -> bool {
    &&& n.parent is None ==> n.tag is Some && n.tag == screen_tag(s)
    &&& n.parent is Some ==> n.tag is None
    &&& n.action() is Some ==> {
        &&& s.game == GameState::Menu || s.game == GameState::Pause
        &&& transition(s, Trigger::Pressed(n.action()->0)) is Some
    }
}

/// Whether the arena holds nothing but what belongs on the screen of the
/// state `s`.
pub open spec fn shows(ui: Slots, s: CompositeState) -> bool {
    forall|i: int| 0 <= i < ui.len() && (#[trigger] ui[i]) is Some ==> fits(ui[i]->0, s)
}

/// Whether the next state that is queued, if any, is consistent.
pub open spec fn sound(q: Requests) -> bool {
    q.next is Some ==> q.next->0.consistent()
}

/// Every move of the table leads from a consistent state to a consistent
/// state.
pub proof fn lemma_transition_consistent(s: CompositeState, t: Trigger)
    requires
        s.consistent(),
    ensures
        transition(s, t) matches Some(Effect::Goto(target)) ==> target.consistent(),
{
}

/// In a consistent state the table knows the escape key.
pub proof fn lemma_escape_known(s: CompositeState)
    requires
        s.consistent(),
    ensures
        transition(s, Trigger::Escape) is Some,
{
}

/// Setting the colour of a button keeps the shape of the arena: the same
/// nodes are present, under the same parents, with the same labels and
/// actions.
pub proof fn lemma_recolored_keeps(s: Slots, id: usize, color: Rgba)
    ensures
        same_shape(s, recolored(s, id, color)),
{
}

/// Whether two arenas differ in nothing but the colours of their nodes.
pub open spec fn same_shape(a: Slots, b: Slots) -> bool {
    &&& a.len() == b.len()
    &&& forall|i: int|
        0 <= i < a.len() ==> {
            &&& (#[trigger] a[i]) is Some <==> b[i] is Some
            &&& a[i] is Some ==> {
                &&& a[i]->0.parent == b[i]->0.parent
                &&& a[i]->0.tag == b[i]->0.tag
                &&& a[i]->0.layout == b[i]->0.layout
                &&& a[i]->0.action() == b[i]->0.action()
            }
        }
}

/// The colours that the events set keep the shape of the arena.
pub proof fn lemma_recolored_by_keeps(s: Slots, events: Seq<InteractionEvent>)
    ensures
        same_shape(s, recolored_by(s, events)),
    decreases events.len(),
{
    if events.len() > 0 {
        let s1 = recolored(s, events[0].node, button_color(events[0].interaction));
        lemma_recolored_keeps(s, events[0].node, button_color(events[0].interaction));
        lemma_recolored_by_keeps(s1, events.drop_first());
    }
}

/// Arenas of the same shape are well formed together and show the same
/// screens.
pub proof fn lemma_same_shape(a: Slots, b: Slots, s: CompositeState)
    requires
        same_shape(a, b),
    ensures
        well_formed(a) ==> well_formed(b),
        shows(a, s) ==> shows(b, s),
{
    if well_formed(a) {
        assert forall|i: int| 0 <= i < b.len() && (#[trigger] b[i]) is Some implies match b[i]->0.parent {
            Some(p) => p < i && b[p as int] is Some,
            None => true,
        } by {
            assert(a[i] is Some);
        }
    }
    if shows(a, s) {
        assert forall|i: int| 0 <= i < b.len() && (#[trigger] b[i]) is Some implies fits(
            b[i]->0,
            s,
        ) by {
            assert(fits(a[i]->0, s));
        }
    }
}

/// On a screen that fits its state, every button that an event can hit
/// carries an action that the table allows.
pub proof fn lemma_resolved_allowed(ui: Slots, s: CompositeState, events: Seq<InteractionEvent>)
    requires
        shows(ui, s),
    ensures
        forall|k: int|
            0 <= k < resolved(ui, events).len() ==> transition(
                s,
                Trigger::Pressed((#[trigger] resolved(ui, events)[k]).1),
            ) is Some,
    decreases events.len(),
{
    if events.len() > 0 {
        lemma_resolved_allowed(ui, s, events.drop_last());
        let e = events.last();
        if e.node < ui.len() && ui[e.node as int] is Some {
        }
    }
}

/// Presses that the table allows are routed without an error, and what they
/// queue is sound.
pub proof fn lemma_route_presses_ok(
    s: CompositeState,
    interactions: Seq<(Interaction, ButtonAction)>,
    queued: Requests,
)
    requires
        s.consistent(),
        sound(queued),
        forall|k: int|
            0 <= k < interactions.len() ==> transition(
                s,
                Trigger::Pressed((#[trigger] interactions[k]).1),
            ) is Some,
    ensures
        route_presses(s, interactions, queued) is Ok,
        sound(route_presses(s, interactions, queued)->Ok_0),
    decreases interactions.len(),
{
    if interactions.len() > 0 {
        let rest = interactions.drop_first();
        assert forall|k: int| 0 <= k < rest.len() implies transition(
            s,
            Trigger::Pressed((#[trigger] rest[k]).1),
        ) is Some by {
            assert(rest[k] == interactions[k + 1]);
        }
        if interactions[0].0 != Interaction::Pressed {
            lemma_route_presses_ok(s, rest, queued);
        } else {
            let trigger = Trigger::Pressed(interactions[0].1);
            lemma_transition_consistent(s, trigger);
            lemma_route_presses_ok(s, rest, queued.after(transition(s, trigger)->0));
        }
    }
}

/// On a screen that fits its consistent state, the systems of a tick queue
/// their requests without an error, and what they queue is sound.
pub proof fn lemma_routed_ok(
    running: bool,
    s: CompositeState,
    ui: Slots,
    events: Seq<InteractionEvent>,
    escape_just_pressed: bool,
    queued: Requests,
)
    requires
        s.consistent(),
        shows(ui, s),
        sound(queued),
    ensures
        routed(running, s, resolved(ui, events), escape_just_pressed, queued) is Ok,
        sound(routed(running, s, resolved(ui, events), escape_just_pressed, queued)->Ok_0),
{
    lemma_resolved_allowed(ui, s, events);
    lemma_route_presses_ok(s, resolved(ui, events), queued);
    lemma_escape_known(s);
    lemma_transition_consistent(s, Trigger::Escape);
}

/// The nodes of the screen of the state `s`, as they stand in an arena in
/// which the first of them gets the id `base`. The game has no screen, and
/// neither has a mode whose sub-state is disabled.
pub open spec fn screen_of(s: CompositeState, base: int) -> Slots {
    match s.game {
        GameState::Splash => splash_screen(base),
        GameState::Menu => match s.menu {
            MenuState::MainMenu => main_menu_screen(base),
            MenuState::Settings => settings_screen(base, back_action(GameState::Menu)->0),
            MenuState::Disabled => Seq::empty(),
        },
        GameState::Game => Seq::empty(),
        GameState::Pause => match s.pause {
            PauseState::PauseMenu => pause_menu_screen(base),
            PauseState::Settings => settings_screen(base, back_action(GameState::Pause)->0),
            PauseState::Disabled => Seq::empty(),
        },
    }
}

/// An arena of `n` ids in which no node is present.
pub open spec fn cleared(n: nat) -> Slots {
    Seq::new(n, |i: int| None)
}

proof fn lemma_rootless_vacant(s: Slots, i: int)
    requires
        well_formed(s),
        forall|j: int| 0 <= j < s.len() && (#[trigger] s[j]) is Some ==> s[j]->0.parent is Some,
        0 <= i < s.len(),
    ensures
        s[i] is None,
    decreases i,
{
    if s[i] is Some {
        let p = s[i]->0.parent->0;
        lemma_rootless_vacant(s, p as int);
    }
}

proof fn lemma_without_keeps_vacant(s: Slots, tag: ScreenTag)
    requires
        vacant(s),
    ensures
        vacant(without(s, tag)),
        without(s, tag) == s,
{
}

/// When a consistent state is left for another, the exit hooks leave no
/// node of its screen behind: the arena is empty of nodes.
pub proof fn lemma_exited_vacant(s: Slots, from: CompositeState, to: CompositeState)
    requires
        well_formed(s),
        shows(s, from),
        from.consistent(),
        to.consistent(),
        from != to,
    ensures
        UiPlugin::exited(s, from, to) == cleared(s.len()),
{
    assert forall|j: int|
        0 <= j < s.len() && (#[trigger] s[j]) is Some && s[j]->0.parent is None implies s[j]->0.tag
        == screen_tag(from) && screen_tag(from) is Some by {
        assert(fits(s[j]->0, from));
    }
    match from.game {
        GameState::Splash => {
            lemma_without_vacant(s, ScreenTag::OnSplashScreen);
        },
        GameState::Menu => {
            let leaf = screen_tag(from)->0;
            if to.game != GameState::Menu {
                lemma_without_vacant(s, ScreenTag::OnMenuScreen);
                lemma_without_keeps_vacant(without(s, ScreenTag::OnMenuScreen), leaf);
            } else {
                lemma_without_vacant(s, leaf);
            }
        },
        GameState::Game => {
            assert forall|i: int| 0 <= i < s.len() implies (#[trigger] s[i]) is None by {
                lemma_rootless_vacant(s, i);
            }
        },
        GameState::Pause => {
            let leaf = screen_tag(from)->0;
            if to.game != GameState::Pause {
                lemma_without_vacant(s, ScreenTag::OnMenuScreen);
                lemma_without_keeps_vacant(without(s, ScreenTag::OnMenuScreen), leaf);
            } else {
                lemma_without_vacant(s, leaf);
            }
        },
    }
}

/// Every node of a screen belongs on the screen of its state and hangs
/// under an older node of the same screen.
pub proof fn lemma_screen_fits(to: CompositeState, base: int)
    requires
        to.consistent(),
        0 <= base,
        base + screen_of(to, base).len() <= usize::MAX,
    ensures
        forall|i: int|
            0 <= i < screen_of(to, base).len() ==> {
                let n = #[trigger] screen_of(to, base)[i];
                &&& n is Some
                &&& fits(n->0, to)
                &&& (n->0.parent is Some ==> base <= n->0.parent->0 < base + i)
            },
{
}

/// When a consistent state is entered from another, the enter hooks build
/// exactly the screen of the new state.
pub proof fn lemma_entered_builds(s: Slots, from: CompositeState, to: CompositeState)
    requires
        from.consistent(),
        to.consistent(),
        from != to,
    ensures
        UiPlugin::entered(s, from, to) == Ok::<Slots, NavError>(
            s + screen_of(to, s.len() as int),
        ),
{
}

/// An arena that holds the screen of a consistent state behind ids whose
/// nodes are gone is well formed and holds nothing that does not belong on
/// that screen.
pub proof fn lemma_screen_shows(n: nat, to: CompositeState)
    requires
        to.consistent(),
        n + screen_of(to, n as int).len() <= usize::MAX,
    ensures
        well_formed(cleared(n) + screen_of(to, n as int)),
        shows(cleared(n) + screen_of(to, n as int), to),
{
    let base = n as int;
    let screen = screen_of(to, base);
    let all = cleared(n) + screen;
    lemma_screen_fits(to, base);
    assert forall|i: int| 0 <= i < all.len() && (#[trigger] all[i]) is Some implies fits(
        all[i]->0,
        to,
    ) && match all[i]->0.parent {
        Some(p) => p < i && all[p as int] is Some,
        None => true,
    } by {
        match all[i]->0.parent {
            Some(p) => {
            },
            None => {},
        }
    }
}

} // verus!
