//! The screens of the explorer and their tabs.

use vstd::prelude::*;

verus! {

/// Current view in the application
#[derive(Debug, Clone, Copy, PartialEq, Eq, Structural)]
pub enum View {
    Entities,
    EntityDetail,
    Solutions,
    SolutionDetail,
    Users,
    UserDetail,
    RecordDetail,
    OptionSets,
    GlobalSearch,
    Environments,
    SolutionLayers,
    FetchXML,
    SystemJobs,
    SystemJobDetail,
}

impl Default for View {
    fn default() -> (r: View)
        ensures
            r == View::Entities,
    {
        View::Entities
    }
}

/// Application state for the TUI
#[derive(Debug, Clone, Copy, PartialEq, Eq, Structural)]
pub enum AppState {
    Loading,
    Ready,
    Error,
}

impl Default for AppState {
    fn default() -> (r: AppState)
        ensures
            r == AppState::Loading,
    {
        AppState::Loading
    }
}

/// Detail tab for entity view
#[derive(Debug, Clone, Copy, PartialEq, Eq, Structural)]
pub enum EntityTab {
    Attributes,
    Relationships,
    Metadata,
    Query,
}

impl Default for EntityTab {
    fn default() -> (r: EntityTab)
        ensures
            r == EntityTab::Attributes,
    {
        EntityTab::Attributes
    }
}

impl EntityTab {
    /// The tab to the right; right of the last is the first.
    pub open spec fn right(self) -> EntityTab {
        match self {
            EntityTab::Attributes => EntityTab::Relationships,
            EntityTab::Relationships => EntityTab::Metadata,
            EntityTab::Metadata => EntityTab::Query,
            EntityTab::Query => EntityTab::Attributes,
        }
    }

    /// The tab to the left; left of the first is the last.
    pub open spec fn left(self) -> EntityTab {
        match self {
            EntityTab::Attributes => EntityTab::Query,
            EntityTab::Relationships => EntityTab::Attributes,
            EntityTab::Metadata => EntityTab::Relationships,
            EntityTab::Query => EntityTab::Metadata,
        }
    }

    /// The tab to the right.
    pub fn next(&self) -> (r: EntityTab)
        ensures
            r == self.right(),
    {
        match self {
            EntityTab::Attributes => EntityTab::Relationships,
            EntityTab::Relationships => EntityTab::Metadata,
            EntityTab::Metadata => EntityTab::Query,
            EntityTab::Query => EntityTab::Attributes,
        }
    }

    /// The tab to the left.
    pub fn prev(&self) -> (r: EntityTab)
        ensures
            r == self.left(),
    {
        match self {
            EntityTab::Attributes => EntityTab::Query,
            EntityTab::Relationships => EntityTab::Attributes,
            EntityTab::Metadata => EntityTab::Relationships,
            EntityTab::Query => EntityTab::Metadata,
        }
    }
}

/// Detail tab for user view
#[derive(Debug, Clone, Copy, PartialEq, Eq, Structural)]
pub enum UserTab {
    DirectRoles,
    Teams,
    AllRoles,
    Info,
}

impl Default for UserTab {
    fn default() -> (r: UserTab)
        ensures
            r == UserTab::DirectRoles,
    {
        UserTab::DirectRoles
    }
}

impl UserTab {
    /// The tab to the right; right of the last is the first.
    pub open spec fn right(self) -> UserTab {
        match self {
            UserTab::DirectRoles => UserTab::Teams,
            UserTab::Teams => UserTab::AllRoles,
            UserTab::AllRoles => UserTab::Info,
            UserTab::Info => UserTab::DirectRoles,
        }
    }

    /// The tab to the left; left of the first is the last.
    pub open spec fn left(self) -> UserTab {
        match self {
            UserTab::DirectRoles => UserTab::Info,
            UserTab::Teams => UserTab::DirectRoles,
            UserTab::AllRoles => UserTab::Teams,
            UserTab::Info => UserTab::AllRoles,
        }
    }

    /// The tab to the right.
    pub fn next(&self) -> (r: UserTab)
        ensures
            r == self.right(),
    {
        match self {
            UserTab::DirectRoles => UserTab::Teams,
            UserTab::Teams => UserTab::AllRoles,
            UserTab::AllRoles => UserTab::Info,
            UserTab::Info => UserTab::DirectRoles,
        }
    }

    /// The tab to the left.
    pub fn prev(&self) -> (r: UserTab)
        ensures
            r == self.left(),
    {
        match self {
            UserTab::DirectRoles => UserTab::Info,
            UserTab::Teams => UserTab::DirectRoles,
            UserTab::AllRoles => UserTab::Teams,
            UserTab::Info => UserTab::AllRoles,
        }
    }
}

/// Going one tab to the right and then one to the left, or the other way
/// round, leads back to the tab one was on.
pub proof fn tabs_turn_back(entity: EntityTab, user: UserTab)
    ensures
        entity.right().left() == entity,
        entity.left().right() == entity,
        user.right().left() == user,
        user.left().right() == user,
{
}

/// What a search over all that is loaded has found, by its place in the
/// list that holds it.
#[derive(Debug, Clone, Copy, PartialEq, Eq, Structural)]
pub enum SearchResult {
    /// Index in entities
    Entity(usize),
    /// Index in solutions
    Solution(usize),
    /// Index in global_optionsets
    OptionSet(usize),
}

} // verus!
