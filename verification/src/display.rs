//! Which UI library displays a territory, and the bookkeeping of spawning one:
//! finding the UI root node of its window and deciding which UI nodes it needs.
use vstd::prelude::*;

verus! {

/// The library used to display UI. Set on a window as its default, or on a
/// territory or tab to override that default.
#[derive(Clone, Copy, Debug, PartialEq, Eq, Structural, Hash)]
pub enum DisplayLibrary {
    BevyUi,
    BevyEgui,
    BevySickle,
}

impl DisplayLibrary {
    /// Whether a territory displayed with this library needs retained UI
    /// nodes (base, border, drag and resize nodes). Immediate-mode egui
    /// needs none.
    pub open spec fn spec_uses_ui_nodes(self) -> bool {
        !(self is BevyEgui)
    }

    pub fn uses_ui_nodes(&self) -> (r: bool)
        ensures
            r == self.spec_uses_ui_nodes(),
    {
        !matches!(self, DisplayLibrary::BevyEgui)
    }
}

/// Index `i` holds the last of the (root node, associated window) pairs in
/// `roots` that is associated with `window`.
pub open spec fn is_last_root_for(roots: Seq<(u64, u64)>, window: u64, i: int) -> bool {
    &&& 0 <= i < roots.len()
    &&& roots[i].1 == window
    &&& forall|j: int| i < j < roots.len() ==> (#[trigger] roots[j]).1 != window
}

/// Finds the UI root node associated with a window, among (root node,
/// associated window) pairs; when several are associated with it, the last
/// one wins. `None` when the window has no root node, in which case no
/// territory can be spawned in it.
pub fn find_root_node(roots: &Vec<(u64, u64)>, window: u64) -> (r: Option<u64>)
    ensures
        r is None <==> forall|i: int| 0 <= i < roots@.len() ==> (#[trigger] roots@[i]).1 != window,
        r matches Some(root) ==> exists|i: int| is_last_root_for(roots@, window, i) && roots@[i].0 == root,
{
    let n = roots.len();
    let mut found: Option<u64> = None;
    let mut i: usize = 0;
    let ghost mut at: int = -1;
    while i < n
        invariant
            n == roots@.len(),
            i <= n,
            found is None ==> forall|j: int| 0 <= j < i ==> (#[trigger] roots@[j]).1 != window,
            found is None <==> at == -1,
            found matches Some(root) ==> {
                &&& 0 <= at < i
                &&& roots@[at].1 == window
                &&& roots@[at].0 == root
                &&& forall|j: int| at < j < i ==> (#[trigger] roots@[j]).1 != window
            },
        decreases n - i,
    {
        let (root, associated) = roots[i];
        if associated == window {
            found = Some(root);
            proof { at = i as int; }
        }
        i += 1;
    }
    proof {
        if found is Some {
            assert(is_last_root_for(roots@, window, at));
        }
    }
    found
}

} // verus!
