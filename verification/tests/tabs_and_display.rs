use megalith::display::{find_root_node, DisplayLibrary};
use megalith::tabs::{Tab, TabType};

#[test]
fn default_tab() {
    let t = Tab::default();
    assert!(!t.active);
    assert_eq!(t.name, "DEFAULT TAB");
    assert_eq!(t.icon, '⚠');
    assert_eq!(t.tab_type, TabType::FileSystem);
}

#[test]
fn tabs_from_type() {
    let expected = [
        (TabType::FileSystem, "File", '📁'),
        (TabType::DevBox, "Dev Box", '🛠'),
        (TabType::ECS, "ECS", '🍱'),
        (TabType::Glossary, "Glossary", '📖'),
        (TabType::SiteView, "Site View", '👁'),
    ];
    for (ty, name, icon) in expected {
        let t = Tab::build_from_type(ty);
        assert!(!t.active);
        assert_eq!(t.name, name);
        assert_eq!(t.icon, icon);
        assert_eq!(t.tab_type, ty);
    }
    let b = Tab::build(true, "Mine".to_string(), 'x', TabType::DevBox);
    assert!(b.active);
    assert_eq!(b.name, "Mine");
    assert_eq!(b.icon, 'x');
    assert_eq!(b.tab_type, TabType::DevBox);
}

#[test]
fn root_node_lookup_takes_the_last_match() {
    let roots = vec![(10, 1), (11, 2), (12, 1)];
    assert_eq!(find_root_node(&roots, 1), Some(12));
    assert_eq!(find_root_node(&roots, 2), Some(11));
    assert_eq!(find_root_node(&roots, 3), None);
    assert_eq!(find_root_node(&vec![], 1), None);
}

#[test]
fn egui_needs_no_nodes() {
    assert!(!DisplayLibrary::BevyEgui.uses_ui_nodes());
    assert!(DisplayLibrary::BevyUi.uses_ui_nodes());
    assert!(DisplayLibrary::BevySickle.uses_ui_nodes());
}
