use megalith::states::{
    empty_if_no_territories, territory_tabs_main_state_enter, territory_tabs_main_state_exit, ModeUpdate,
    TerritoryTabsMode, TerritoryTabsState,
};

#[test]
fn mode_empties_when_last_territory_goes() {
    assert_eq!(
        empty_if_no_territories(TerritoryTabsMode::Operating, true),
        ModeUpdate { next: Some(TerritoryTabsMode::Empty), unexpected: false }
    );
    assert_eq!(
        empty_if_no_territories(TerritoryTabsMode::MovingTabs, true),
        ModeUpdate { next: Some(TerritoryTabsMode::Empty), unexpected: true }
    );
    assert_eq!(
        empty_if_no_territories(TerritoryTabsMode::MovingTerritories, true),
        ModeUpdate { next: Some(TerritoryTabsMode::Empty), unexpected: true }
    );
    assert_eq!(empty_if_no_territories(TerritoryTabsMode::Empty, true), ModeUpdate { next: None, unexpected: false });
}

#[test]
fn mode_operates_again_when_a_territory_spawns() {
    assert_eq!(
        empty_if_no_territories(TerritoryTabsMode::Empty, false),
        ModeUpdate { next: Some(TerritoryTabsMode::Operating), unexpected: false }
    );
    for m in [TerritoryTabsMode::Operating, TerritoryTabsMode::MovingTerritories, TerritoryTabsMode::MovingTabs] {
        assert_eq!(empty_if_no_territories(m, false), ModeUpdate { next: None, unexpected: false });
    }
}

#[test]
fn mode_is_empty_exactly_without_territories() {
    let all = [
        TerritoryTabsMode::Empty,
        TerritoryTabsMode::Operating,
        TerritoryTabsMode::MovingTerritories,
        TerritoryTabsMode::MovingTabs,
    ];
    for m in all {
        for none_left in [true, false] {
            let after = empty_if_no_territories(m, none_left).next.unwrap_or(m);
            assert_eq!(after == TerritoryTabsMode::Empty, none_left);
            assert_eq!(empty_if_no_territories(after, none_left).next, None);
        }
    }
    assert_eq!(TerritoryTabsMode::default(), TerritoryTabsMode::Empty);
}

#[test]
fn tab_move_enters_and_exits() {
    assert_eq!(territory_tabs_main_state_enter(TerritoryTabsState::Natural), Some(TerritoryTabsState::MovingTabs));
    assert_eq!(territory_tabs_main_state_exit(TerritoryTabsState::MovingTabs), Some(TerritoryTabsState::Natural));
    assert_eq!(territory_tabs_main_state_enter(TerritoryTabsState::MovingTabs), None);
    assert_eq!(territory_tabs_main_state_exit(TerritoryTabsState::Natural), None);
    assert_eq!(territory_tabs_main_state_exit(TerritoryTabsState::Empty), None);
    assert_eq!(territory_tabs_main_state_enter(TerritoryTabsState::LoadingLayouts), None);
    let start = TerritoryTabsState::Natural;
    let moving = territory_tabs_main_state_enter(start).unwrap();
    assert_eq!(territory_tabs_main_state_exit(moving), Some(start));
    assert_eq!(TerritoryTabsState::default(), TerritoryTabsState::Empty);
}
