//! What the host has to do so that what it shows follows the arena.

use vstd::prelude::*;
use crate::node::{NodeId, NodeKind, Rgba};
use crate::tree::{Slots, UiTree};

verus! {

/// One step that the host takes to follow the arena.
#[derive(Clone, Copy, PartialEq, Eq, Debug, Structural)]
pub enum HostAction {
    /// Show the node with this id, which is present and not shown yet.
    Spawn(NodeId),
    /// Remove what shows the node with this id, which is gone.
    Despawn(NodeId),
    /// Give the button with this id, which is shown, this background.
    Recolor(NodeId, Rgba),
}

/// The step that the node `i` asks for, if any. `shown` says for each id
/// whether the host shows that node; ids beyond its end are not shown.
pub open spec fn step_for(s: Slots, shown: Seq<bool>, i: int) -> Option<HostAction> {
    let live = 0 <= i < s.len() && s[i] is Some;
    let was_shown = 0 <= i < shown.len() && shown[i];
    if live && !was_shown {
        Some(HostAction::Spawn(i as usize))
    } else if !live && was_shown {
        Some(HostAction::Despawn(i as usize))
    } else if live {
        match s[i]->0.kind {
            NodeKind::Button { background, .. } => Some(HostAction::Recolor(i as usize, background)),
            _ => None,
        }
    } else {
        None
    }
}

/// The steps that the first `n` ids ask for, in the order of the ids, so
/// that a parent is shown before what hangs under it.
pub open spec fn plan(s: Slots, shown: Seq<bool>, n: int) -> Seq<HostAction>
    decreases n,
{
    if n <= 0 {
        Seq::empty()
    } else {
        match step_for(s, shown, n - 1) {
            Some(step) => plan(s, shown, n - 1).push(step),
            None => plan(s, shown, n - 1),
        }
    }
}

/// Lists what the host has to do to follow the arena: show the nodes that
/// are new, remove what shows the nodes that are gone, and set the colours
/// of the buttons. An id that `shown` claims beyond the ids handed out is
/// passed over.
pub fn host_plan(ui: &UiTree, shown: &Vec<bool>) -> (steps: Vec<HostAction>)
    ensures
        steps@ == plan(ui@, shown@, ui@.len() as int),
{
    let mut steps: Vec<HostAction> = Vec::new();
    let n = ui.len();
    let mut id: usize = 0;
    while id < n
        invariant
            id <= n,
            n == ui@.len(),
            steps@ == plan(ui@, shown@, id as int),
        decreases n - id,
    {
        let was_shown = id < shown.len() && shown[id];
        match ui.get(id) {
            Some(node) => {
                if !was_shown {
                    steps.push(HostAction::Spawn(id));
                } else {
                    match node.kind {
                        NodeKind::Button { background, .. } => {
                            steps.push(HostAction::Recolor(id, background));
                        },
                        _ => {},
                    }
                }
            },
            None => {
                if was_shown {
                    steps.push(HostAction::Despawn(id));
                }
            },
        }
        id = id + 1;
    }
    steps
}

} // verus!
