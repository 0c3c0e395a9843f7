//! What a UI node is: its screen tag, its layout and its content.

use vstd::prelude::*;
use crate::action::ButtonAction;

verus! {

/// Index of a node in the arena of a [`crate::tree::UiTree`].
pub type NodeId = usize;

/// Label that says to which screen a node belongs. The labels of the
/// sub-screens are nested under `OnMenuScreen`: what belongs to a sub-screen
/// belongs to its parent screen too.
#[derive(Clone, Copy, PartialEq, Eq, Debug, Hash, Structural)]
pub enum ScreenTag {
    OnMenuScreen,
    OnMainMenuScreen,
    OnSettingsMenuScreen,
    OnPauseMenuScreen,
    OnSplashScreen,
}

impl ScreenTag {
    /// The label one level up, if there is one.
    pub open spec fn parent(self) -> Option<ScreenTag> {
        match self {
            ScreenTag::OnMainMenuScreen => Some(ScreenTag::OnMenuScreen),
            ScreenTag::OnSettingsMenuScreen => Some(ScreenTag::OnMenuScreen),
            ScreenTag::OnPauseMenuScreen => Some(ScreenTag::OnMenuScreen),
            ScreenTag::OnMenuScreen => None,
            ScreenTag::OnSplashScreen => None,
        }
    }

    /// Whether this label is `outer` or is nested under it.
    pub open spec fn within(self, outer: ScreenTag) -> bool {
        self == outer || self.parent() == Some(outer)
    }

    /// The label one level up, if there is one.
    pub fn exec_parent(self) -> (p: Option<ScreenTag>)
        ensures
            p == self.parent(),
    {
        match self {
            ScreenTag::OnMainMenuScreen
            | ScreenTag::OnSettingsMenuScreen
            | ScreenTag::OnPauseMenuScreen => Some(ScreenTag::OnMenuScreen),
            ScreenTag::OnMenuScreen | ScreenTag::OnSplashScreen => None,
        }
    }

    /// Whether this label is `outer` or is nested under it.
    pub fn is_within(self, outer: ScreenTag) -> (b: bool)
        ensures
            b == self.within(outer),
    {
        if self == outer {
            true
        } else {
            match self.exec_parent() {
                Some(p) => p == outer,
                None => false,
            }
        }
    }
}

/// A colour with 8 bits per channel.
#[derive(Clone, Copy, PartialEq, Eq, Debug, Structural)]
pub struct Rgba {
    pub r: u8,
    pub g: u8,
    pub b: u8,
    pub a: u8,
}

impl Rgba {
    /// An opaque colour.
    pub fn rgb(r: u8, g: u8, b: u8) -> (c: Rgba)
        ensures
            c == (Rgba { r, g, b, a: 255 }),
    {
        Rgba { r, g, b, a: 255 }
    }
}

/// A length along one axis of the layout.
#[derive(Clone, Copy, PartialEq, Eq, Debug, Structural)]
pub enum Length {
    Auto,
    Px(u32),
    Percent(u32),
}

/// The part of a node's layout that the screens set.
#[derive(Clone, Copy, PartialEq, Eq, Debug, Structural)]
pub struct Layout {
    pub width: Length,
    pub height: Length,
    /// Margin on all four sides, in pixels.
    pub margin: u32,
    /// Children are laid out top to bottom rather than left to right.
    pub column: bool,
    /// Children are centred on both axes.
    pub centered: bool,
}

impl Layout {
    /// The layout of a node that sets nothing.
    pub open spec fn plain() -> Layout {
        Layout {
            width: Length::Auto,
            height: Length::Auto,
            margin: 0,
            column: false,
            centered: false,
        }
    }
}

impl Default for Layout {
    fn default() -> (l: Layout)
        ensures
            l == Layout::plain(),
    {
        Layout {
            width: Length::Auto,
            height: Length::Auto,
            margin: 0,
            column: false,
            centered: false,
        }
    }
}

/// A font by the path of its asset, and a size in pixels. `S` is `String` in
/// executable code and `Seq<char>` in specifications.
#[derive(Clone, Debug, PartialEq, Eq)]
pub struct FontStyle<S> {
    pub font: S,
    pub font_size: u32,
}

/// The content of a node. Images and fonts are named by the path of their
/// asset; loading them is the host's business.
#[derive(Clone, Debug, PartialEq, Eq)]
#[allow(inconsistent_fields)]
pub enum NodeKind<S> {
    /// A box that only holds its children.
    Container { background: Option<Rgba> },
    /// A line of text.
    Text { text: S, font: FontStyle<S>, color: Rgba },
    /// An interactive element with the action that a press triggers.
    Button { action: ButtonAction, background: Rgba },
    /// An image inside the layout.
    Image { path: S },
    /// A square image placed at a position of its own, outside the layout.
    Sprite { path: S, size: u32, x: i32, y: i32, z: i32 },
}

/// One node of the UI tree.
#[derive(Clone, Debug, PartialEq, Eq)]
pub struct UiNode<S> {
    /// The node under which this one hangs; `None` for a root.
    pub parent: Option<NodeId>,
    /// The screen that owns the node, if it is labelled itself.
    pub tag: Option<ScreenTag>,
    pub layout: Layout,
    pub kind: NodeKind<S>,
}

impl View for FontStyle<String> {
    type V = FontStyle<Seq<char>>;

    open spec fn view(&self) -> FontStyle<Seq<char>> {
        FontStyle { font: self.font@, font_size: self.font_size }
    }
}

impl View for NodeKind<String> {
    type V = NodeKind<Seq<char>>;

    open spec fn view(&self) -> NodeKind<Seq<char>> {
        match *self {
            NodeKind::Container { background } => NodeKind::Container { background },
            NodeKind::Text { text, font, color } => NodeKind::Text {
                text: text@,
                font: font@,
                color,
            },
            NodeKind::Button { action, background } => NodeKind::Button { action, background },
            NodeKind::Image { path } => NodeKind::Image { path: path@ },
            NodeKind::Sprite { path, size, x, y, z } => NodeKind::Sprite {
                path: path@,
                size,
                x,
                y,
                z,
            },
        }
    }
}

impl View for UiNode<String> {
    type V = UiNode<Seq<char>>;

    open spec fn view(&self) -> UiNode<Seq<char>> {
        UiNode { parent: self.parent, tag: self.tag, layout: self.layout, kind: self.kind@ }
    }
}

impl<S> UiNode<S> {
    /// Whether the node is labelled with `tag` or with a label nested under
    /// it.
    pub open spec fn carries(self, tag: ScreenTag) -> bool {
        match self.tag {
            Some(t) => t.within(tag),
            None => false,
        }
    }

    /// The action of a button; `None` for any other node.
    pub open spec fn action(self) -> Option<ButtonAction> {
        match self.kind {
            NodeKind::Button { action, .. } => Some(action),
            _ => None,
        }
    }
}

} // verus!
