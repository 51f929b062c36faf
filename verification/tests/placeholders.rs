use megalith::placeholder::{
    activate_placeholders, check_placeholder_types_entering_window, check_placeholder_types_leaving_window,
    check_placeholder_types_mouse_moving, setup_tab_move_placeholders, PlaceholderAction, PlaceholderType,
};
use megalith::states::TerritoryTabsState;

use PlaceholderType::{CombineTerritories, LoadLayout, SpawnTerritory, SpawnWindow, TabMove, TabOrigin};

fn every_type() -> Vec<PlaceholderType> {
    vec![SpawnTerritory, TabMove, TabOrigin, SpawnWindow, CombineTerritories, LoadLayout]
}

#[test]
fn tab_move_setup() {
    assert_eq!(setup_tab_move_placeholders(true, true), vec![SpawnTerritory]);
    assert_eq!(setup_tab_move_placeholders(true, false), vec![TabMove, TabOrigin]);
    assert!(setup_tab_move_placeholders(false, false).is_empty());
    assert!(setup_tab_move_placeholders(false, true).is_empty());
}

#[test]
fn leaving_a_window() {
    let plan = check_placeholder_types_leaving_window(TerritoryTabsState::MovingTabs, &every_type());
    assert_eq!(
        plan.actions,
        vec![
            PlaceholderAction::DetachAndDespawn,
            PlaceholderAction::DetachAndDespawn,
            PlaceholderAction::Keep,
            PlaceholderAction::Despawn,
            PlaceholderAction::Keep,
            PlaceholderAction::Keep,
        ]
    );
    assert_eq!(plan.spawn, Some(SpawnWindow));
    let idle = check_placeholder_types_leaving_window(TerritoryTabsState::Natural, &every_type());
    assert!(idle.actions.iter().all(|a| *a == PlaceholderAction::Keep));
    assert_eq!(idle.spawn, None);
}

#[test]
fn entering_a_window() {
    let plan = check_placeholder_types_entering_window(TerritoryTabsState::MovingTabs, &every_type());
    assert_eq!(
        plan.actions,
        vec![
            PlaceholderAction::Despawn,
            PlaceholderAction::Despawn,
            PlaceholderAction::Keep,
            PlaceholderAction::Despawn,
            PlaceholderAction::Keep,
            PlaceholderAction::Keep,
        ]
    );
    assert_eq!(plan.spawn, Some(SpawnTerritory));
    let idle = check_placeholder_types_entering_window(TerritoryTabsState::DraggingTerritories, &every_type());
    assert!(idle.actions.iter().all(|a| *a == PlaceholderAction::Keep));
    assert_eq!(idle.spawn, None);
}

#[test]
fn moving_over_territories() {
    assert_eq!(
        check_placeholder_types_mouse_moving(&every_type(), true),
        vec![
            PlaceholderAction::Retype(TabMove),
            PlaceholderAction::Keep,
            PlaceholderAction::Keep,
            PlaceholderAction::Despawn,
            PlaceholderAction::Keep,
            PlaceholderAction::Keep,
        ]
    );
    assert_eq!(
        check_placeholder_types_mouse_moving(&every_type(), false),
        vec![
            PlaceholderAction::Keep,
            PlaceholderAction::Retype(SpawnTerritory),
            PlaceholderAction::Keep,
            PlaceholderAction::Despawn,
            PlaceholderAction::Keep,
            PlaceholderAction::Keep,
        ]
    );
}

#[test]
fn moving_settles_in_one_step() {
    for over in [true, false] {
        let before = every_type();
        let after: Vec<PlaceholderType> = before
            .iter()
            .zip(check_placeholder_types_mouse_moving(&before, over))
            .map(|(t, a)| if let PlaceholderAction::Retype(t2) = a { t2 } else { *t })
            .collect();
        for a in check_placeholder_types_mouse_moving(&after, over) {
            assert!(!matches!(a, PlaceholderAction::Retype(_)));
        }
    }
}

#[test]
fn activation_spawns_only_valid_territory_spawns() {
    let items = vec![
        (SpawnTerritory, true, true),
        (SpawnTerritory, false, true),
        (SpawnTerritory, true, false),
        (TabMove, true, true),
        (SpawnWindow, true, true),
    ];
    assert_eq!(activate_placeholders(&items, true), vec![true, false, false, false, false]);
    assert_eq!(activate_placeholders(&items, false), vec![false, false, false, false, false]);
}
