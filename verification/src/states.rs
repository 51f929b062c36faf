//! The application's two state machines: the operating mode of the Territory
//! Tabs UI, and the main state that a tab move runs in.
use vstd::prelude::*;

verus! {

/// The operating mode of the Territory Tabs UI.
#[derive(Clone, Copy, Debug, PartialEq, Eq, Structural, Hash, Default)]
pub enum TerritoryTabsMode {
    /// The user has removed every territory. A way to spawn one should be presented.
    #[default]
    Empty,
    /// Nominal state. The user is operating features present in the UI.
    Operating,
    /// The user is changing the layout.
    MovingTerritories,
    /// The user is repositioning a feature, and may spawn a new territory.
    MovingTabs,
}

/// The main state of the Territory Tabs UI.
#[derive(Clone, Copy, Debug, PartialEq, Eq, Structural, Hash, Default)]
pub enum TerritoryTabsState {
    /// No territories exist.
    #[default]
    Empty,
    /// Running normally, operating the functions in tabs.
    Natural,
    /// A tab move is underway: no territories move and normal tab operations are disabled.
    MovingTabs,
    /// The user is dragging a territory.
    DraggingTerritories,
    /// The user is resizing a territory.
    ResizingTerritories,
    /// The user is loading a saved layout.
    LoadingLayouts,
}

/// What to do with the mode after territories were spawned or removed: the
/// mode to switch to, if any, and whether the switch leaves a mode that should
/// not have been running while territories disappeared.
#[derive(Clone, Copy, Debug, PartialEq, Eq, Structural)]
pub struct ModeUpdate {
    pub next: Option<TerritoryTabsMode>,
    pub unexpected: bool,
}

/// The update that [`empty_if_no_territories`] makes.
pub open spec fn spec_mode_update(current: TerritoryTabsMode, no_territories: bool) -> ModeUpdate {
    if no_territories {
        match current {
            TerritoryTabsMode::Empty => ModeUpdate { next: None, unexpected: false },
            TerritoryTabsMode::Operating => ModeUpdate { next: Some(TerritoryTabsMode::Empty), unexpected: false },
            TerritoryTabsMode::MovingTerritories => ModeUpdate { next: Some(TerritoryTabsMode::Empty), unexpected: true },
            TerritoryTabsMode::MovingTabs => ModeUpdate { next: Some(TerritoryTabsMode::Empty), unexpected: true },
        }
    } else {
        match current {
            TerritoryTabsMode::Empty => ModeUpdate { next: Some(TerritoryTabsMode::Operating), unexpected: false },
            _ => ModeUpdate { next: None, unexpected: false },
        }
    }
}

/// The mode in effect after an update.
pub open spec fn mode_after(current: TerritoryTabsMode, update: ModeUpdate) -> TerritoryTabsMode {
    match update.next {
        Some(m) => m,
        None => current,
    }
}

/// When territories were spawned or removed: with none left, the mode becomes
/// [`TerritoryTabsMode::Empty`]; when one exists again, an empty mode goes
/// back to [`TerritoryTabsMode::Operating`].
pub fn empty_if_no_territories(current: TerritoryTabsMode, no_territories: bool) -> (r: ModeUpdate)
    ensures
        r == spec_mode_update(current, no_territories),
{
    if no_territories {
        match current {
            TerritoryTabsMode::Empty => ModeUpdate { next: None, unexpected: false },
            TerritoryTabsMode::Operating => ModeUpdate { next: Some(TerritoryTabsMode::Empty), unexpected: false },
            TerritoryTabsMode::MovingTerritories => ModeUpdate { next: Some(TerritoryTabsMode::Empty), unexpected: true },
            TerritoryTabsMode::MovingTabs => ModeUpdate { next: Some(TerritoryTabsMode::Empty), unexpected: true },
        }
    } else {
        match current {
            TerritoryTabsMode::Empty => ModeUpdate { next: Some(TerritoryTabsMode::Operating), unexpected: false },
            _ => ModeUpdate { next: None, unexpected: false },
        }
    }
}

/// After the update, the mode is empty exactly when no territory is left,
/// and a second update with the same territories changes nothing.
pub proof fn lemma_mode_tracks_territories(current: TerritoryTabsMode, no_territories: bool)
    ensures
        (mode_after(current, spec_mode_update(current, no_territories)) == TerritoryTabsMode::Empty)
            == no_territories,
        spec_mode_update(mode_after(current, spec_mode_update(current, no_territories)), no_territories).next
            is None,
{
}

/// The state that a released tab-move chord leads to, or `None` when the
/// release comes in any state but [`TerritoryTabsState::MovingTabs`] and is
/// an invalid transition.
pub open spec fn spec_main_state_exit(current: TerritoryTabsState) -> Option<TerritoryTabsState> {
    if current is MovingTabs { Some(TerritoryTabsState::Natural) } else { None }
}

/// The state that a pressed tab-move chord leads to, or `None` when the press
/// comes in any state but [`TerritoryTabsState::Natural`] and is an invalid
/// transition.
pub open spec fn spec_main_state_enter(current: TerritoryTabsState) -> Option<TerritoryTabsState> {
    if current is Natural { Some(TerritoryTabsState::MovingTabs) } else { None }
}

/// Handles the end of a tab move: `MovingTabs` goes back to `Natural`.
pub fn territory_tabs_main_state_exit(current: TerritoryTabsState) -> (r: Option<TerritoryTabsState>)
    ensures
        r == spec_main_state_exit(current),
{
    match current {
        TerritoryTabsState::MovingTabs => Some(TerritoryTabsState::Natural),
        _ => None,
    }
}

/// Handles the start of a tab move: `Natural` goes to `MovingTabs`.
pub fn territory_tabs_main_state_enter(current: TerritoryTabsState) -> (r: Option<TerritoryTabsState>)
    ensures
        r == spec_main_state_enter(current),
{
    match current {
        TerritoryTabsState::Natural => Some(TerritoryTabsState::MovingTabs),
        _ => None,
    }
}

/// Starting a tab move and ending it comes back to where it started, and no
/// other state takes part in a tab move: a start is valid only in `Natural`,
/// an end only in `MovingTabs`.
pub proof fn lemma_tab_move_round_trip(current: TerritoryTabsState)
    ensures
        spec_main_state_enter(current) matches Some(s) ==> spec_main_state_exit(s) == Some(current),
        spec_main_state_exit(current) matches Some(s) ==> spec_main_state_enter(s) == Some(current),
        spec_main_state_enter(current) is Some <==> current == TerritoryTabsState::Natural,
        spec_main_state_exit(current) is Some <==> current == TerritoryTabsState::MovingTabs,
{
}

} // verus!
