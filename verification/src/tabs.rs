//! Tabs: the features that sit inside territories, each of a known type with
//! its display name and icon.
use vstd::prelude::*;

verus! {

/// The kinds of feature a tab can hold.
#[derive(Clone, Copy, Debug, PartialEq, Eq, Structural, Hash)]
pub enum TabType {
    FileSystem,
    DevBox,
    ECS,
    Glossary,
    SiteView,
}

/// A tab, active or inactive, representing a type of UI.
pub struct Tab {
    pub active: bool,
    pub name: String,
    pub icon: char,
    pub tab_type: TabType,
}

/// The display name of each type of tab.
pub open spec fn spec_tab_name(t: TabType) -> Seq<char> {
    match t {
        TabType::FileSystem => "File"@,
        TabType::DevBox => "Dev Box"@,
        TabType::ECS => "ECS"@,
        TabType::Glossary => "Glossary"@,
        TabType::SiteView => "Site View"@,
    }
}

/// The icon of each type of tab.
pub open spec fn spec_tab_icon(t: TabType) -> char {
    match t {
        TabType::FileSystem => '📁',
        TabType::DevBox => '🛠',
        TabType::ECS => '🍱',
        TabType::Glossary => '📖',
        TabType::SiteView => '👁',
    }
}

impl Default for Tab {
    /// An inactive file-system tab with the placeholder name and a warning icon.
    fn default() -> (r: Self)
        ensures
            !r.active,
            r.name@ == "DEFAULT TAB"@,
            r.icon == '⚠',
            r.tab_type == TabType::FileSystem,
    {
        Tab { active: false, name: "DEFAULT TAB".to_owned(), icon: '⚠', tab_type: TabType::FileSystem }
    }
}

impl Tab {
    /// A tab with every field given.
    pub fn build(active: bool, name: String, icon: char, tab_type: TabType) -> (r: Self)
        ensures
            r.active == active,
            r.name@ == name@,
            r.icon == icon,
            r.tab_type == tab_type,
    {
        Tab { active, name, icon, tab_type }
    }

    /// An inactive tab of the given type, with that type's name and icon.
    pub fn build_from_type(tab_type: TabType) -> (r: Self)
        ensures
            !r.active,
            r.name@ == spec_tab_name(tab_type),
            r.icon == spec_tab_icon(tab_type),
            r.tab_type == tab_type,
    {
        let (name, icon) = match tab_type {
            TabType::FileSystem => ("File".to_owned(), '📁'),
            TabType::DevBox => ("Dev Box".to_owned(), '🛠'),
            TabType::ECS => ("ECS".to_owned(), '🍱'),
            TabType::Glossary => ("Glossary".to_owned(), '📖'),
            TabType::SiteView => ("Site View".to_owned(), '👁'),
        };
        Tab { active: false, name, icon, tab_type }
    }
}

} // verus!
