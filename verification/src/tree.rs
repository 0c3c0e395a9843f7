//! The arena of UI nodes and the teardown of everything that a screen owns.

use vstd::prelude::*;
use crate::node::{Layout, NodeId, NodeKind, Rgba, ScreenTag, UiNode};

verus! {

/// The mathematical model of the arena: one entry per id ever handed out,
/// `None` where the node has been removed.
pub type Slots = Seq<Option<UiNode<Seq<char>>>>;

/// Every node that is present hangs under an older node that is present too.
pub open spec fn well_formed(s: Slots) -> bool {
    forall|i: int|
        0 <= i < s.len() && (#[trigger] s[i]) is Some ==> match s[i]->0.parent {
            Some(p) => p < i && s[p as int] is Some,
            None => true,
        }
}

/// Whether the teardown of `tag` removes the node at `i`: the node is
/// present, and it or one of its ancestors carries the tag.
pub open spec fn doomed(s: Slots, tag: ScreenTag, i: int) -> bool
    decreases i,
{
    &&& 0 <= i < s.len()
    &&& s[i] is Some
    &&& (s[i]->0.carries(tag) || match s[i]->0.parent {
        Some(p) => p < i && doomed(s, tag, p as int),
        None => false,
    })
}

/// The arena after the teardown of `tag`.
pub open spec fn without(s: Slots, tag: ScreenTag) -> Slots {
    Seq::new(
        s.len(),
        |i: int|
            if doomed(s, tag, i) {
                None
            } else {
                s[i]
            },
    )
}

/// Whether no node is present at all.
pub open spec fn vacant(s: Slots) -> bool {
    forall|i: int| 0 <= i < s.len() ==> (#[trigger] s[i]) is None
}

/// The arena with the background of the button at `id` set to `color`. An
/// id that names no button that is present changes nothing.
pub open spec fn recolored(s: Slots, id: NodeId, color: Rgba) -> Slots {
    if id < s.len() && s[id as int] is Some && s[id as int]->0.action() is Some {
        s.update(
            id as int,
            Some(
                UiNode {
                    kind: NodeKind::Button {
                        action: s[id as int]->0.action()->0,
                        background: color,
                    },
                    ..s[id as int]->0
                },
            ),
        )
    } else {
        s
    }
}

/// The arena with the node at `id` labelled with `tag`. An id that names no
/// node that is present changes nothing.
pub open spec fn labelled(s: Slots, id: NodeId, tag: ScreenTag) -> Slots {
    if id < s.len() && s[id as int] is Some {
        s.update(id as int, Some(UiNode { tag: Some(tag), ..s[id as int]->0 }))
    } else {
        s
    }
}

/// The arena with the background of the container at `id` set to `color`.
/// An id that names no container that is present changes nothing.
pub open spec fn backed(s: Slots, id: NodeId, color: Rgba) -> Slots {
    if id < s.len() && s[id as int] is Some && s[id as int]->0.kind is Container {
        s.update(
            id as int,
            Some(
                UiNode {
                    kind: NodeKind::Container { background: Some(color) },
                    ..s[id as int]->0
                },
            ),
        )
    } else {
        s
    }
}

/// An arena of UI nodes. Ids are indices; an id is never handed out twice.
#[derive(Clone, Debug)]
pub struct UiTree {
    slots: Vec<Option<UiNode<String>>>,
}

impl View for UiTree {
    type V = Slots;

    closed spec fn view(&self) -> Slots {
        Seq::new(
            self.slots@.len(),
            |i: int|
                match self.slots@[i] {
                    Some(n) => Some(n@),
                    None => None,
                },
        )
    }
}

impl UiTree {
    /// The invariant of the arena.
    pub open spec fn wf(&self) -> bool {
        well_formed(self@)
    }

    /// An arena that holds nothing.
    pub fn new() -> (ui: UiTree)
        ensures
            ui@ == Slots::empty(),
            ui.wf(),
    {
        UiTree { slots: Vec::new() }
    }

    /// The ids of an arena are machine integers.
    pub proof fn lemma_len_bounded(&self)
        ensures
            self@.len() <= usize::MAX,
    {
        assert(self.slots.len() == self.slots@.len());
    }

    /// How many ids have been handed out.
    pub fn len(&self) -> (n: usize)
        ensures
            n == self@.len(),
    {
        self.slots.len()
    }

    /// Whether the node `id` is present.
    pub fn is_live(&self, id: NodeId) -> (b: bool)
        ensures
            b == (id < self@.len() && self@[id as int] is Some),
    {
        id < self.slots.len() && self.slots[id].is_some()
    }

    /// The node `id`, if it is present.
    pub fn get(&self, id: NodeId) -> (r: Option<&UiNode<String>>)
        ensures
            match r {
                Some(n) => id < self@.len() && self@[id as int] == Some(n@),
                None => !(id < self@.len() && self@[id as int] is Some),
            },
    {
        if id < self.slots.len() {
            self.slots[id].as_ref()
        } else {
            None
        }
    }

    /// Adds a root node and returns its id.
    pub fn spawn_root(&mut self, tag: Option<ScreenTag>, layout: Layout, kind: NodeKind<String>) -> (id: NodeId)
        requires
            old(self).wf(),
        ensures
            final(self).wf(),
            id == old(self)@.len(),
            final(self)@ == old(self)@.push(
                Some(UiNode { parent: None, tag, layout, kind: kind@ }),
            ),
    {
        let id = self.slots.len();
        let node = UiNode { parent: None, tag, layout, kind };
        self.slots.push(Some(node));
        assert(self@ =~= old(self)@.push(Some(node@)));
        id
    }

    /// Adds a node under `parent` and returns its id, or changes nothing and
    /// returns `None` if `parent` is not present.
    pub fn spawn_child(
        &mut self,
        parent: NodeId,
        tag: Option<ScreenTag>,
        layout: Layout,
        kind: NodeKind<String>,
    ) -> (r: Option<NodeId>)
        requires
            old(self).wf(),
        ensures
            final(self).wf(),
            match r {
                Some(id) => {
                    &&& parent < old(self)@.len() && old(self)@[parent as int] is Some
                    &&& id == old(self)@.len()
                    &&& final(self)@ == old(self)@.push(
                        Some(UiNode { parent: Some(parent), tag, layout, kind: kind@ }),
                    )
                },
                None => {
                    &&& !(parent < old(self)@.len() && old(self)@[parent as int] is Some)
                    &&& final(self)@ == old(self)@
                },
            },
    {
        if !self.is_live(parent) {
            return None;
        }
        let id = self.slots.len();
        let node = UiNode { parent: Some(parent), tag, layout, kind };
        self.slots.push(Some(node));
        assert(self@ =~= old(self)@.push(Some(node@)));
        Some(id)
    }

    /// Labels the node `id` with `tag`, in place of any label it had. An id
    /// that names no node that is present changes nothing.
    pub fn insert_tag(&mut self, id: NodeId, tag: ScreenTag)
        requires
            old(self).wf(),
        ensures
            final(self).wf(),
            final(self)@ == labelled(old(self)@, id, tag),
    {
        if id >= self.slots.len() {
            return ;
        }
        match &mut self.slots[id] {
            Some(n) => {
                n.tag = Some(tag);
            },
            None => {},
        }
        assert(self@ =~= labelled(old(self)@, id, tag));
    }

    /// Gives the container `id` the background `color`. An id that names no
    /// container that is present changes nothing.
    pub fn insert_background(&mut self, id: NodeId, color: Rgba)
        requires
            old(self).wf(),
        ensures
            final(self).wf(),
            final(self)@ == backed(old(self)@, id, color),
    {
        if id >= self.slots.len() {
            return ;
        }
        match &mut self.slots[id] {
            Some(n) => match &mut n.kind {
                NodeKind::Container { background } => {
                    *background = Some(color);
                },
                _ => {},
            },
            None => {},
        }
        assert(self@ =~= backed(old(self)@, id, color));
    }

    /// Sets the background of the button `id`. An id that names no button
    /// that is present changes nothing.
    pub fn set_background(&mut self, id: NodeId, color: Rgba)
        requires
            old(self).wf(),
        ensures
            final(self).wf(),
            final(self)@ == recolored(old(self)@, id, color),
    {
        if id >= self.slots.len() {
            return ;
        }
        match &mut self.slots[id] {
            Some(n) => match &mut n.kind {
                NodeKind::Button { background, .. } => {
                    *background = color;
                },
                _ => {},
            },
            None => {},
        }
        assert(self@ =~= recolored(old(self)@, id, color));
    }

    /// Removes every node that carries `tag` or a label nested under it,
    /// together with everything that hangs under such a node. Where no node
    /// carries the tag, nothing changes.
    pub fn despawn(&mut self, tag: ScreenTag)
        requires
            old(self).wf(),
        ensures
            final(self).wf(),
            final(self)@ == without(old(self)@, tag),
            forall|i: int|
                0 <= i < final(self)@.len() && (#[trigger] final(self)@[i]) is Some
                    ==> !final(self)@[i]->0.carries(tag),
    {
        let n = self.slots.len();
        let mut i: usize = 0;
        while i < n
            invariant
                i <= n,
                n == old(self)@.len(),
                self@.len() == n,
                well_formed(old(self)@),
                forall|j: int| 0 <= j < i ==> #[trigger] self@[j] == without(old(self)@, tag)[j],
                forall|j: int| i <= j < n ==> #[trigger] self@[j] == old(self)@[j],
            decreases n - i,
        {
            let remove = match &self.slots[i] {
                Some(node) => {
                    let tagged = match node.tag {
                        Some(t) => t.is_within(tag),
                        None => false,
                    };
                    let orphaned = match node.parent {
                        Some(p) => p < i && self.slots[p].is_none(),
                        None => false,
                    };
                    tagged || orphaned
                },
                None => false,
            };
            proof {
                let before = old(self)@;
                assert(self@[i as int] == before[i as int]);
                if before[i as int] is Some {
                    match before[i as int]->0.parent {
                        Some(p) => {
                            assert(self@[p as int] == without(before, tag)[p as int]);
                        },
                        None => {},
                    }
                }
            }
            let ghost prev = self@;
            if remove {
                self.slots.set(i, None);
                assert(self@ =~= prev.update(i as int, None));
            }
            i = i + 1;
        }
        proof {
            lemma_without_well_formed(old(self)@, tag);
        }
    }
}

/// The teardown keeps the arena well formed, and what it leaves does not
/// carry the tag.
pub proof fn lemma_without_well_formed(s: Slots, tag: ScreenTag)
    requires
        well_formed(s),
    ensures
        well_formed(without(s, tag)),
        forall|i: int|
            0 <= i < s.len() && (#[trigger] without(s, tag)[i]) is Some ==> !without(
                s,
                tag,
            )[i]->0.carries(tag),
{
    let w = without(s, tag);
    assert forall|i: int| 0 <= i < w.len() && (#[trigger] w[i]) is Some implies match w[i]->0.parent {
        Some(p) => p < i && w[p as int] is Some,
        None => true,
    } by {
        assert(!doomed(s, tag, i));
    }
}

/// Whether some node that is present carries `tag` or a label nested under
/// it.
pub open spec fn tag_in_use(s: Slots, tag: ScreenTag) -> bool {
    exists|i: int| 0 <= i < s.len() && (#[trigger] s[i]) is Some && s[i]->0.carries(tag)
}

proof fn lemma_spared(s: Slots, tag: ScreenTag, i: int)
    requires
        !tag_in_use(s, tag),
    ensures
        !doomed(s, tag, i),
    decreases i,
{
    if 0 <= i < s.len() && s[i] is Some {
        match s[i]->0.parent {
            Some(p) => {
                if p < i {
                    lemma_spared(s, tag, p as int);
                }
            },
            None => {},
        }
    }
}

/// The teardown is idempotent: where no node carries the tag it changes
/// nothing, and after one teardown no node carries the tag.
pub proof fn lemma_without_idempotent(s: Slots, tag: ScreenTag)
    requires
        well_formed(s),
    ensures
        !tag_in_use(s, tag) ==> without(s, tag) == s,
        !tag_in_use(without(s, tag), tag),
        without(without(s, tag), tag) == without(s, tag),
{
    if !tag_in_use(s, tag) {
        assert forall|i: int| 0 <= i < s.len() implies !doomed(s, tag, i) by {
            lemma_spared(s, tag, i);
        }
    }
    let w = without(s, tag);
    lemma_without_well_formed(s, tag);
    assert forall|i: int| 0 <= i < w.len() implies !doomed(w, tag, i) by {
        lemma_spared(w, tag, i);
    }
}

proof fn lemma_doomed_under_tagged_roots(s: Slots, tag: ScreenTag, i: int)
    requires
        well_formed(s),
        forall|j: int|
            0 <= j < s.len() && (#[trigger] s[j]) is Some && s[j]->0.parent is None
                ==> s[j]->0.carries(tag),
        0 <= i < s.len(),
        s[i] is Some,
    ensures
        doomed(s, tag, i),
    decreases i,
{
    match s[i]->0.parent {
        Some(p) => {
            lemma_doomed_under_tagged_roots(s, tag, p as int);
        },
        None => {},
    }
}

/// Where every root that is present carries the tag, its teardown leaves no
/// node at all.
pub proof fn lemma_without_vacant(s: Slots, tag: ScreenTag)
    requires
        well_formed(s),
        forall|j: int|
            0 <= j < s.len() && (#[trigger] s[j]) is Some && s[j]->0.parent is None
                ==> s[j]->0.carries(tag),
    ensures
        vacant(without(s, tag)),
{
    let w = without(s, tag);
    assert forall|i: int| 0 <= i < w.len() implies (#[trigger] w[i]) is None by {
        if s[i] is Some {
            lemma_doomed_under_tagged_roots(s, tag, i);
        }
    }
}

/// A marker for the nodes of one screen: a type that stands for a
/// [`ScreenTag`].
pub trait ScreenMarker {
    /// The label that the marker stands for.
    spec fn screen_tag() -> ScreenTag;

    fn tag() -> (t: ScreenTag)
        ensures
            t == Self::screen_tag(),
    ;
}

/// Marks what appears on any menu screen, in the menu and in the pause
/// mode alike.
pub struct OnMenuScreen;

/// Marks what appears on the main menu.
pub struct OnMainMenuScreen;

/// Marks what appears on a settings screen.
pub struct OnSettingsMenuScreen;

/// Marks what appears on the pause menu.
pub struct OnPauseMenuScreen;

/// Marks what appears on the splash screen.
pub struct OnSplashScreen;

impl ScreenMarker for OnMenuScreen {
    open spec fn screen_tag() -> ScreenTag {
        ScreenTag::OnMenuScreen
    }

    fn tag() -> (t: ScreenTag) {
        ScreenTag::OnMenuScreen
    }
}

impl ScreenMarker for OnMainMenuScreen {
    open spec fn screen_tag() -> ScreenTag {
        ScreenTag::OnMainMenuScreen
    }

    fn tag() -> (t: ScreenTag) {
        ScreenTag::OnMainMenuScreen
    }
}

impl ScreenMarker for OnSettingsMenuScreen {
    open spec fn screen_tag() -> ScreenTag {
        ScreenTag::OnSettingsMenuScreen
    }

    fn tag() -> (t: ScreenTag) {
        ScreenTag::OnSettingsMenuScreen
    }
}

impl ScreenMarker for OnPauseMenuScreen {
    open spec fn screen_tag() -> ScreenTag {
        ScreenTag::OnPauseMenuScreen
    }

    fn tag() -> (t: ScreenTag) {
        ScreenTag::OnPauseMenuScreen
    }
}

impl ScreenMarker for OnSplashScreen {
    open spec fn screen_tag() -> ScreenTag {
        ScreenTag::OnSplashScreen
    }

    fn tag() -> (t: ScreenTag) {
        ScreenTag::OnSplashScreen
    }
}

/// Removes every node of the screen that `T` marks, with everything nested
/// under it. Runs when a state is left; where the screen has no node, it
/// does nothing.
pub fn despawn_entities<T: ScreenMarker>(ui: &mut UiTree)
    requires
        old(ui).wf(),
    ensures
        final(ui).wf(),
        final(ui)@ == without(old(ui)@, T::screen_tag()),
        !tag_in_use(final(ui)@, T::screen_tag()),
        !tag_in_use(old(ui)@, T::screen_tag()) ==> final(ui)@ == old(ui)@,
{
    ui.despawn(T::tag());
    proof {
        lemma_without_idempotent(old(ui)@, T::screen_tag());
    }
}

} // verus!
