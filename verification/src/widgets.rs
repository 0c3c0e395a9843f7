//! The building blocks that the screens share: the standard button, the
//! standard container, the menu fonts and the colours of a button.

use vstd::prelude::*;
use crate::action::{
    route_presses, transition, ButtonAction, Interaction, NavError, Requests, Trigger,
};
use crate::node::{FontStyle, Layout, Length, NodeId, NodeKind, Rgba, UiNode};
use crate::state::CompositeState;
use crate::tree::{recolored, Slots, UiTree};

verus! {

/// Path of the font asset that all menu text uses.
pub const MENU_FONT: &'static str = "fonts/AlanisHand.ttf";

/// Colour of all menu text.
pub open spec fn menu_text_color() -> Rgba {
    Rgba { r: 230, g: 230, b: 230, a: 255 }
}

/// Background of the menu screens that dim what lies behind them.
pub open spec fn menu_background_color() -> Rgba {
    Rgba { r: 64, g: 64, b: 64, a: 150 }
}

/// Background of a button under each interaction.
pub open spec fn button_color(interaction: Interaction) -> Rgba {
    match interaction {
        Interaction::Pressed => Rgba { r: 57, g: 63, b: 110, a: 255 },
        Interaction::Hovered => Rgba { r: 107, g: 113, b: 160, a: 255 },
        Interaction::Idle => Rgba { r: 77, g: 83, b: 130, a: 255 },
    }
}

/// The colour of all menu text.
pub fn exec_menu_text_color() -> (c: Rgba)
    ensures
        c == menu_text_color(),
{
    Rgba::rgb(230, 230, 230)
}

/// The background of the menu screens that dim what lies behind them.
pub fn exec_menu_background_color() -> (c: Rgba)
    ensures
        c == menu_background_color(),
{
    Rgba { r: 64, g: 64, b: 64, a: 150 }
}

/// The background of a button under `interaction`.
pub fn exec_button_color(interaction: Interaction) -> (c: Rgba)
    ensures
        c == button_color(interaction),
{
    match interaction {
        Interaction::Pressed => Rgba::rgb(57, 63, 110),
        Interaction::Hovered => Rgba::rgb(107, 113, 160),
        Interaction::Idle => Rgba::rgb(77, 83, 130),
    }
}

/// The font styles of the menu screens.
pub struct MenuFont;

impl MenuFont {
    /// The menu font at `font_size`.
    pub open spec fn sized(font_size: u32) -> FontStyle<Seq<char>> {
        FontStyle { font: MENU_FONT@, font_size }
    }

    /// The style of a button's label.
    pub fn button_font() -> (f: FontStyle<String>)
        ensures
            f@ == MenuFont::sized(50),
    {
        FontStyle { font: MENU_FONT.to_owned(), font_size: 50 }
    }

    /// The style of a screen's title.
    pub fn title_font() -> (f: FontStyle<String>)
        ensures
            f@ == MenuFont::sized(120),
    {
        FontStyle { font: MENU_FONT.to_owned(), font_size: 120 }
    }

    /// The style of a sub-screen's title.
    pub fn sub_title_font() -> (f: FontStyle<String>)
        ensures
            f@ == MenuFont::sized(80),
    {
        FontStyle { font: MENU_FONT.to_owned(), font_size: 80 }
    }
}

/// The standard container of a menu screen: as large as the window, its
/// children in a centred column.
pub struct MenuContainerNode;

impl MenuContainerNode {
    /// The layout of the container.
    pub open spec fn layout() -> Layout {
        Layout {
            width: Length::Percent(100),
            height: Length::Percent(100),
            margin: 0,
            column: true,
            centered: true,
        }
    }

    /// The container as it is spawned: a root without a label and without a
    /// background.
    pub open spec fn node() -> UiNode<Seq<char>> {
        UiNode {
            parent: None,
            tag: None,
            layout: MenuContainerNode::layout(),
            kind: NodeKind::Container { background: None },
        }
    }

    /// Adds a container as a new root and returns its id.
    pub fn spawn(ui: &mut UiTree) -> (id: NodeId)
        requires
            old(ui).wf(),
        ensures
            final(ui).wf(),
            id == old(ui)@.len(),
            final(ui)@ == old(ui)@.push(Some(MenuContainerNode::node())),
    {
        let layout = Layout {
            width: Length::Percent(100),
            height: Length::Percent(100),
            margin: 0,
            column: true,
            centered: true,
        };
        ui.spawn_root(None, layout, NodeKind::Container { background: None })
    }
}

/// The standard button: an interactive box of fixed size with one line of
/// text in it.
pub struct ButtonNode;

impl ButtonNode {
    /// The layout of a button.
    pub open spec fn layout() -> Layout {
        Layout {
            width: Length::Px(500),
            height: Length::Px(65),
            margin: 20,
            column: false,
            centered: true,
        }
    }

    /// The button itself, under `parent`, in its idle colour.
    pub open spec fn node(parent: NodeId, action: ButtonAction) -> UiNode<Seq<char>> {
        UiNode {
            parent: Some(parent),
            tag: None,
            layout: ButtonNode::layout(),
            kind: NodeKind::Button { action, background: button_color(Interaction::Idle) },
        }
    }

    /// The label of the button `button`.
    pub open spec fn label(button: NodeId, text: Seq<char>) -> UiNode<Seq<char>> {
        UiNode {
            parent: Some(button),
            tag: None,
            layout: Layout::plain(),
            kind: NodeKind::Text { text, font: MenuFont::sized(50), color: menu_text_color() },
        }
    }

    /// The two nodes of a button that gets the id `id`.
    pub open spec fn nodes(id: NodeId, parent: NodeId, action: ButtonAction, text: Seq<char>) -> Slots {
        seq![Some(ButtonNode::node(parent, action)), Some(ButtonNode::label(id, text))]
    }

    /// Adds a button with its label under `parent` and returns the button's
    /// id. Where `parent` is not present, nothing is added and `None` is
    /// returned.
    pub fn spawn(
        ui: &mut UiTree,
        parent: NodeId,
        button_action: ButtonAction,
        button_text: String,
    ) -> (r: Option<NodeId>)
        requires
            old(ui).wf(),
        ensures
            final(ui).wf(),
            match r {
                Some(id) => {
                    &&& parent < old(ui)@.len() && old(ui)@[parent as int] is Some
                    &&& id == old(ui)@.len()
                    &&& final(ui)@ == old(ui)@ + ButtonNode::nodes(
                        id,
                        parent,
                        button_action,
                        button_text@,
                    )
                },
                None => {
                    &&& !(parent < old(ui)@.len() && old(ui)@[parent as int] is Some)
                    &&& final(ui)@ == old(ui)@
                },
            },
    {
        let layout = Layout {
            width: Length::Px(500),
            height: Length::Px(65),
            margin: 20,
            column: false,
            centered: true,
        };
        let kind = NodeKind::Button {
            action: button_action,
            background: exec_button_color(Interaction::Idle),
        };
        match ui.spawn_child(parent, None, layout, kind) {
            Some(id) => {
                let label = NodeKind::Text {
                    text: button_text,
                    font: MenuFont::button_font(),
                    color: exec_menu_text_color(),
                };
                let _ = ui.spawn_child(id, None, Layout::default(), label);
                assert(ui@ =~= old(ui)@ + ButtonNode::nodes(
                    id,
                    parent,
                    button_action,
                    button_text@,
                ));
                Some(id)
            },
            None => None,
        }
    }
}

/// A change of the pointer's interaction with the node `node`.
#[derive(Clone, Copy, PartialEq, Eq, Debug, Structural)]
pub struct InteractionEvent {
    pub node: NodeId,
    pub interaction: Interaction,
}

/// The arena after each event, in order, has set the colour of the button
/// that it names.
pub open spec fn recolored_by(s: Slots, events: Seq<InteractionEvent>) -> Slots
    decreases events.len(),
{
    if events.len() == 0 {
        s
    } else {
        recolored_by(
            recolored(s, events[0].node, button_color(events[0].interaction)),
            events.drop_first(),
        )
    }
}

/// Gives every button whose interaction changed the colour of its new
/// interaction. Events on anything that is no button are passed over.
pub fn button_color_sys(ui: &mut UiTree, events: &Vec<InteractionEvent>)
    requires
        old(ui).wf(),
    ensures
        final(ui).wf(),
        final(ui)@ == recolored_by(old(ui)@, events@),
{
    let mut i: usize = 0;
    assert(events@.skip(0) =~= events@);
    while i < events.len()
        invariant
            i <= events@.len(),
            ui.wf(),
            recolored_by(ui@, events@.skip(i as int)) == recolored_by(old(ui)@, events@),
        decreases events@.len() - i,
    {
        let e = events[i];
        proof {
            let rest = events@.skip(i as int);
            assert(rest.drop_first() =~= events@.skip(i + 1));
        }
        ui.set_background(e.node, exec_button_color(e.interaction));
        i = i + 1;
    }
}

/// The presses and other changes that hit a button, each with the action of
/// its button, in the order of the events.
pub open spec fn resolved(s: Slots, events: Seq<InteractionEvent>) -> Seq<(Interaction, ButtonAction)>
    decreases events.len(),
{
    if events.len() == 0 {
        Seq::empty()
    } else {
        let e = events.last();
        let before = resolved(s, events.drop_last());
        if e.node < s.len() && s[e.node as int] is Some && s[e.node as int]->0.action() is Some {
            before.push((e.interaction, s[e.node as int]->0.action()->0))
        } else {
            before
        }
    }
}

/// Looks up, for each event on a button that is present, the action that
/// the button carries.
pub fn changed_interactions(ui: &UiTree, events: &Vec<InteractionEvent>) -> (out: Vec<
    (Interaction, ButtonAction),
>)
    ensures
        out@ == resolved(ui@, events@),
{
    let mut out: Vec<(Interaction, ButtonAction)> = Vec::new();
    let mut i: usize = 0;
    while i < events.len()
        invariant
            i <= events@.len(),
            out@ == resolved(ui@, events@.take(i as int)),
        decreases events@.len() - i,
    {
        let e = events[i];
        proof {
            let upto = events@.take(i + 1);
            assert(upto.drop_last() =~= events@.take(i as int));
        }
        match ui.get(e.node) {
            Some(n) => match n.kind {
                NodeKind::Button { action, .. } => {
                    out.push((e.interaction, action));
                },
                _ => {},
            },
            None => {},
        }
        i = i + 1;
    }
    assert(events@.take(i as int) =~= events@);
    out
}

/// What the systems of a screen with buttons queue in one tick, on top of
/// `queued`: first the presses among `interactions`, then the escape key.
/// Where the systems do not run, nothing is queued. The error is that of
/// the first trigger that the table does not allow.
pub open spec fn routed(
    running: bool,
    s: CompositeState,
    interactions: Seq<(Interaction, ButtonAction)>,
    escape_just_pressed: bool,
    queued: Requests,
) -> Result<Requests, NavError> {
    if !running {
        Ok(queued)
    } else {
        match route_presses(s, interactions, queued) {
            Err(e) => Err(e),
            Ok(q) => if !escape_just_pressed {
                Ok(q)
            } else {
                match transition(s, Trigger::Escape) {
                    Some(effect) => Ok(q.after(effect)),
                    None => Err(NavError::InvalidTransition { trigger: Trigger::Escape, state: s }),
                }
            },
        }
    }
}

} // verus!
