//! Placeholders: the visual guides spawned while a tab is being moved, and
//! the bookkeeping that decides which of them stay, change kind or go as the
//! cursor leaves, enters and moves through windows.
use vstd::prelude::*;

use crate::states::TerritoryTabsState;

verus! {

/// What a placeholder stands for.
#[derive(Clone, Copy, Debug, PartialEq, Eq, Structural, Hash)]
pub enum PlaceholderType {
    SpawnTerritory,
    TabMove,
    TabOrigin,
    SpawnWindow,
    CombineTerritories,
    LoadLayout,
}

/// What becomes of one placeholder.
#[derive(Clone, Copy, Debug, PartialEq, Eq, Structural)]
pub enum PlaceholderAction {
    /// The placeholder stays as it is.
    Keep,
    /// The placeholder is despawned.
    Despawn,
    /// The placeholder is removed from the window's children, then despawned.
    DetachAndDespawn,
    /// The placeholder stays, now standing for the given type.
    Retype(PlaceholderType),
}

/// What a cursor event does to the placeholders: one action per existing
/// placeholder, in order, and the type of a new placeholder to spawn, if any.
pub struct PlaceholderPlan {
    pub actions: Vec<PlaceholderAction>,
    pub spawn: Option<PlaceholderType>,
}

/// The action for a placeholder when the cursor leaves a window during a tab move.
pub open spec fn spec_leaving_action(t: PlaceholderType) -> PlaceholderAction {
    match t {
        PlaceholderType::SpawnTerritory => PlaceholderAction::DetachAndDespawn,
        PlaceholderType::TabMove => PlaceholderAction::DetachAndDespawn,
        PlaceholderType::SpawnWindow => PlaceholderAction::Despawn,
        _ => PlaceholderAction::Keep,
    }
}

/// The action for a placeholder when the cursor enters a window during a tab move.
pub open spec fn spec_entering_action(t: PlaceholderType) -> PlaceholderAction {
    match t {
        PlaceholderType::SpawnTerritory => PlaceholderAction::Despawn,
        PlaceholderType::TabMove => PlaceholderAction::Despawn,
        PlaceholderType::SpawnWindow => PlaceholderAction::Despawn,
        _ => PlaceholderAction::Keep,
    }
}

/// The action for a placeholder when the cursor moves inside a window:
/// spawning a territory turns into moving the tab once the cursor is over a
/// territory and back once it is not, and a window spawn cannot be inside a
/// window.
pub open spec fn spec_moving_action(t: PlaceholderType, over_territory: bool) -> PlaceholderAction {
    match t {
        PlaceholderType::SpawnTerritory => if over_territory {
            PlaceholderAction::Retype(PlaceholderType::TabMove)
        } else {
            PlaceholderAction::Keep
        },
        PlaceholderType::TabMove => if over_territory {
            PlaceholderAction::Keep
        } else {
            PlaceholderAction::Retype(PlaceholderType::SpawnTerritory)
        },
        PlaceholderType::SpawnWindow => PlaceholderAction::Despawn,
        _ => PlaceholderAction::Keep,
    }
}

/// The placeholder types a tab move starts with, all children of the window
/// under the cursor: none without such a window, a single territory spawn
/// when no territory exists, else a tab move and a tab origin.
pub open spec fn spec_setup(has_mouse_window: bool, no_territories: bool) -> Seq<PlaceholderType> {
    if !has_mouse_window {
        Seq::empty()
    } else if no_territories {
        seq![PlaceholderType::SpawnTerritory]
    } else {
        seq![PlaceholderType::TabMove, PlaceholderType::TabOrigin]
    }
}

/// Whether activating a placeholder at the end of a tab move spawns a
/// territory: only a territory spawn that has a parent window, a valid spawn
/// and a window under the cursor does.
pub open spec fn spec_spawns_territory(
    t: PlaceholderType,
    has_parent: bool,
    valid_spawn: bool,
    has_mouse_window: bool,
) -> bool {
    t is SpawnTerritory && has_parent && valid_spawn && has_mouse_window
}

fn leaving_action(t: PlaceholderType) -> (r: PlaceholderAction)
    ensures
        r == spec_leaving_action(t),
{
    match t {
        PlaceholderType::SpawnTerritory => PlaceholderAction::DetachAndDespawn,
        PlaceholderType::TabMove => PlaceholderAction::DetachAndDespawn,
        PlaceholderType::SpawnWindow => PlaceholderAction::Despawn,
        _ => PlaceholderAction::Keep,
    }
}

fn entering_action(t: PlaceholderType) -> (r: PlaceholderAction)
    ensures
        r == spec_entering_action(t),
{
    match t {
        PlaceholderType::SpawnTerritory => PlaceholderAction::Despawn,
        PlaceholderType::TabMove => PlaceholderAction::Despawn,
        PlaceholderType::SpawnWindow => PlaceholderAction::Despawn,
        _ => PlaceholderAction::Keep,
    }
}

fn moving_action(t: PlaceholderType, over_territory: bool) -> (r: PlaceholderAction)
    ensures
        r == spec_moving_action(t, over_territory),
{
    match t {
        PlaceholderType::SpawnTerritory => if over_territory {
            PlaceholderAction::Retype(PlaceholderType::TabMove)
        } else {
            PlaceholderAction::Keep
        },
        PlaceholderType::TabMove => if over_territory {
            PlaceholderAction::Keep
        } else {
            PlaceholderAction::Retype(PlaceholderType::SpawnTerritory)
        },
        PlaceholderType::SpawnWindow => PlaceholderAction::Despawn,
        _ => PlaceholderAction::Keep,
    }
}

/// The tab-move placeholders to spawn when a tab move starts.
pub fn setup_tab_move_placeholders(has_mouse_window: bool, no_territories: bool) -> (r: Vec<PlaceholderType>)
    ensures
        r@ == spec_setup(has_mouse_window, no_territories),
{
    let mut r: Vec<PlaceholderType> = Vec::new();
    if has_mouse_window {
        if no_territories {
            r.push(PlaceholderType::SpawnTerritory);
        } else {
            r.push(PlaceholderType::TabMove);
            r.push(PlaceholderType::TabOrigin);
        }
    }
    assert(r@ =~= spec_setup(has_mouse_window, no_territories));
    r
}

/// When the cursor leaves a window during a tab move, territory spawns and
/// tab moves are taken out of the window and despawned, stray window spawns
/// are despawned, and a new window-spawn placeholder is spawned. Outside a
/// tab move nothing happens.
pub fn check_placeholder_types_leaving_window(
    state: TerritoryTabsState,
    placeholders: &Vec<PlaceholderType>,
) -> (r: PlaceholderPlan)
    ensures
        r.actions@.len() == placeholders@.len(),
        forall|i: int| 0 <= i < placeholders@.len() ==> #[trigger] r.actions@[i] == if state is MovingTabs {
            spec_leaving_action(placeholders@[i])
        } else {
            PlaceholderAction::Keep
        },
        r.spawn == if state is MovingTabs { Some(PlaceholderType::SpawnWindow) } else { None::<PlaceholderType> },
{
    let moving = matches!(state, TerritoryTabsState::MovingTabs);
    let mut actions: Vec<PlaceholderAction> = Vec::new();
    let n = placeholders.len();
    let mut i: usize = 0;
    while i < n
        invariant
            n == placeholders@.len(),
            i <= n,
            moving == (state is MovingTabs),
            actions@.len() == i,
            forall|j: int| 0 <= j < i ==> #[trigger] actions@[j] == if moving {
                spec_leaving_action(placeholders@[j])
            } else {
                PlaceholderAction::Keep
            },
        decreases n - i,
    {
        if moving {
            actions.push(leaving_action(placeholders[i]));
        } else {
            actions.push(PlaceholderAction::Keep);
        }
        i += 1;
    }
    let spawn = if moving { Some(PlaceholderType::SpawnWindow) } else { None };
    PlaceholderPlan { actions, spawn }
}

/// When the cursor enters a window during a tab move, territory spawns, tab
/// moves and window spawns are despawned, and a new territory-spawn
/// placeholder is spawned in the entered window. Outside a tab move nothing
/// happens.
pub fn check_placeholder_types_entering_window(
    state: TerritoryTabsState,
    placeholders: &Vec<PlaceholderType>,
) -> (r: PlaceholderPlan)
    ensures
        r.actions@.len() == placeholders@.len(),
        forall|i: int| 0 <= i < placeholders@.len() ==> #[trigger] r.actions@[i] == if state is MovingTabs {
            spec_entering_action(placeholders@[i])
        } else {
            PlaceholderAction::Keep
        },
        r.spawn == if state is MovingTabs { Some(PlaceholderType::SpawnTerritory) } else { None::<PlaceholderType> },
{
    let moving = matches!(state, TerritoryTabsState::MovingTabs);
    let mut actions: Vec<PlaceholderAction> = Vec::new();
    let n = placeholders.len();
    let mut i: usize = 0;
    while i < n
        invariant
            n == placeholders@.len(),
            i <= n,
            moving == (state is MovingTabs),
            actions@.len() == i,
            forall|j: int| 0 <= j < i ==> #[trigger] actions@[j] == if moving {
                spec_entering_action(placeholders@[j])
            } else {
                PlaceholderAction::Keep
            },
        decreases n - i,
    {
        if moving {
            actions.push(entering_action(placeholders[i]));
        } else {
            actions.push(PlaceholderAction::Keep);
        }
        i += 1;
    }
    let spawn = if moving { Some(PlaceholderType::SpawnTerritory) } else { None };
    PlaceholderPlan { actions, spawn }
}

/// When the cursor moves inside a window, each placeholder follows
/// [`spec_moving_action`] for whether the cursor is over a territory.
pub fn check_placeholder_types_mouse_moving(
    placeholders: &Vec<PlaceholderType>,
    over_territory: bool,
) -> (r: Vec<PlaceholderAction>)
    ensures
        r@.len() == placeholders@.len(),
        forall|i: int| 0 <= i < placeholders@.len() ==>
            #[trigger] r@[i] == spec_moving_action(placeholders@[i], over_territory),
{
    let mut actions: Vec<PlaceholderAction> = Vec::new();
    let n = placeholders.len();
    let mut i: usize = 0;
    while i < n
        invariant
            n == placeholders@.len(),
            i <= n,
            actions@.len() == i,
            forall|j: int| 0 <= j < i ==>
                #[trigger] actions@[j] == spec_moving_action(placeholders@[j], over_territory),
        decreases n - i,
    {
        actions.push(moving_action(placeholders[i], over_territory));
        i += 1;
    }
    actions
}

/// For each placeholder, given as its type, whether it has a parent window
/// and whether its spawn is valid: whether activating it at the end of a tab
/// move spawns a territory in the window under the cursor.
pub fn activate_placeholders(
    placeholders: &Vec<(PlaceholderType, bool, bool)>,
    has_mouse_window: bool,
) -> (r: Vec<bool>)
    ensures
        r@.len() == placeholders@.len(),
        forall|i: int| 0 <= i < placeholders@.len() ==> #[trigger] r@[i] == spec_spawns_territory(
            placeholders@[i].0,
            placeholders@[i].1,
            placeholders@[i].2,
            has_mouse_window,
        ),
{
    let mut spawns: Vec<bool> = Vec::new();
    let n = placeholders.len();
    let mut i: usize = 0;
    while i < n
        invariant
            n == placeholders@.len(),
            i <= n,
            spawns@.len() == i,
            forall|j: int| 0 <= j < i ==> #[trigger] spawns@[j] == spec_spawns_territory(
                placeholders@[j].0,
                placeholders@[j].1,
                placeholders@[j].2,
                has_mouse_window,
            ),
        decreases n - i,
    {
        let (t, has_parent, valid_spawn) = placeholders[i];
        let spawn = match t {
            PlaceholderType::SpawnTerritory => has_parent && valid_spawn && has_mouse_window,
            _ => false,
        };
        spawns.push(spawn);
        i += 1;
    }
    spawns
}

/// The type a placeholder has after an action that keeps it.
pub open spec fn type_after(t: PlaceholderType, a: PlaceholderAction) -> PlaceholderType {
    match a {
        PlaceholderAction::Retype(t2) => t2,
        _ => t,
    }
}

/// Cursor motion settles placeholders at once: after one step, a second step
/// with the cursor over the same kind of place changes no type; and the type
/// of a territory spawn or tab move after a step tells exactly whether the
/// cursor is over a territory.
pub proof fn lemma_mouse_moving_settles(t: PlaceholderType, over_territory: bool)
    ensures
        !(spec_moving_action(type_after(t, spec_moving_action(t, over_territory)), over_territory) is Retype),
        (t is SpawnTerritory || t is TabMove) ==> (type_after(t, spec_moving_action(t, over_territory))
            == if over_territory { PlaceholderType::TabMove } else { PlaceholderType::SpawnTerritory }),
{
}

/// Leaving a window and entering one remove every territory spawn, tab move
/// and window spawn, and only those; the tab origin survives both, and cursor
/// motion never changes or removes it.
pub proof fn lemma_crossing_windows_keeps_origin(t: PlaceholderType, over_territory: bool)
    ensures
        (spec_leaving_action(t) is Keep) == !(t is SpawnTerritory || t is TabMove || t is SpawnWindow),
        (spec_entering_action(t) is Keep) == !(t is SpawnTerritory || t is TabMove || t is SpawnWindow),
        spec_leaving_action(PlaceholderType::TabOrigin) is Keep,
        spec_entering_action(PlaceholderType::TabOrigin) is Keep,
        spec_moving_action(PlaceholderType::TabOrigin, over_territory) is Keep,
{
}

} // verus!
