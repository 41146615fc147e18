//! Moving the cursor of the list that is looked at.

use vstd::prelude::*;
use crate::ui::app::App;
use crate::ui::guided::{GuidedQueryState, QueryMode};
use crate::ui::view::{self, EntityTab, UserTab};

verus! {

/// How close to the end of the jobs the cursor must come for the next page
/// to be asked for.
pub const LOAD_MORE_MARGIN: usize = 5;

/// The list that the keys for up and down move in.
#[derive(Debug, Clone, Copy, PartialEq, Eq, Structural)]
pub enum Focus {
    Entities,
    Attributes,
    Relationships,
    QueryColumns,
    QueryFilters,
    QueryResults,
    Solutions,
    Components,
    Users,
    DirectRoles,
    AllRoles,
    Teams,
    RecordFields,
    OptionSets,
    SearchResults,
    Environments,
    Layers,
    SystemJobs,
    /// No list: the keys for up and down do nothing.
    Nothing,
}

impl App {
    /// The list that is looked at, by view, tab and section.
    pub open spec fn focus(&self) -> Focus {
        match self.view {
            view::View::Entities => Focus::Entities,
            view::View::EntityDetail => match self.entity_tab {
                EntityTab::Attributes => Focus::Attributes,
                EntityTab::Relationships => Focus::Relationships,
                EntityTab::Metadata => Focus::Nothing,
                EntityTab::Query => match self.query.mode {
                    QueryMode::Columns => Focus::QueryColumns,
                    QueryMode::Filter => Focus::QueryFilters,
                    QueryMode::Results => Focus::QueryResults,
                    _ => Focus::Nothing,
                },
            },
            view::View::Solutions => Focus::Solutions,
            view::View::SolutionDetail => Focus::Components,
            view::View::Users => Focus::Users,
            view::View::UserDetail => match self.user_tab {
                UserTab::DirectRoles => Focus::DirectRoles,
                UserTab::AllRoles => Focus::AllRoles,
                UserTab::Teams => Focus::Teams,
                UserTab::Info => Focus::Nothing,
            },
            view::View::RecordDetail => Focus::RecordFields,
            view::View::OptionSets => Focus::OptionSets,
            view::View::GlobalSearch => Focus::SearchResults,
            view::View::Environments => Focus::Environments,
            view::View::FetchXML => Focus::Nothing,
            view::View::SolutionLayers => Focus::Layers,
            view::View::SystemJobs => Focus::SystemJobs,
            view::View::SystemJobDetail => Focus::Nothing,
        }
    }

    /// How many items the list `focus` has. The columns of a query are as
    /// many as the narrowed attributes.
    pub open spec fn focus_len(&self, focus: Focus) -> nat {
        match focus {
            Focus::Entities => self.filtered_entities@.len(),
            Focus::Attributes => self.filtered_attributes@.len(),
            Focus::Relationships => self.one_to_many@.len() + self.many_to_one@.len()
                + self.many_to_many@.len(),
            Focus::QueryColumns => self.filtered_attributes@.len(),
            Focus::QueryFilters => self.query.filters@.len(),
            Focus::QueryResults => self.query.result.rows@.len(),
            Focus::Solutions => self.filtered_solutions@.len(),
            Focus::Components => self.filtered_components@.len(),
            Focus::Users => self.filtered_users@.len(),
            Focus::DirectRoles => self.user_direct_roles@.len(),
            Focus::AllRoles => self.user_all_roles@.len(),
            Focus::Teams => self.user_teams@.len(),
            Focus::RecordFields => self.query.result.columns@.len(),
            Focus::OptionSets => self.filtered_optionsets@.len(),
            Focus::SearchResults => self.global_search_results@.len(),
            Focus::Environments => self.config.environments@.len(),
            Focus::Layers => self.solution_layers@.len(),
            Focus::SystemJobs => self.filtered_system_jobs@.len(),
            Focus::Nothing => 0,
        }
    }

    /// Where the cursor of the list `focus` stands. The direct roles and all
    /// roles of a user share one cursor.
    pub open spec fn cursor(&self, focus: Focus) -> usize {
        match focus {
            Focus::Entities => self.entity_index,
            Focus::Attributes => self.attribute_index,
            Focus::Relationships => self.relationship_index,
            Focus::QueryColumns => self.query.column_index,
            Focus::QueryFilters => self.query.filter_index,
            Focus::QueryResults => self.query.result_index,
            Focus::Solutions => self.solution_index,
            Focus::Components => self.component_index,
            Focus::Users => self.user_index,
            Focus::DirectRoles => self.user_role_index,
            Focus::AllRoles => self.user_role_index,
            Focus::Teams => self.user_team_index,
            Focus::RecordFields => self.record_detail_index,
            Focus::OptionSets => self.optionset_index,
            Focus::SearchResults => self.global_search_index,
            Focus::Environments => self.environment_index,
            Focus::Layers => self.solution_layers_index,
            Focus::SystemJobs => self.system_job_index,
            Focus::Nothing => 0,
        }
    }

    /// This state with the cursor of the list `focus` at `at`.
    pub open spec fn with_cursor(self, focus: Focus, at: usize) -> App {
        match focus {
            Focus::Entities => App { entity_index: at, ..self },
            Focus::Attributes => App { attribute_index: at, ..self },
            Focus::Relationships => App { relationship_index: at, ..self },
            Focus::QueryColumns => App {
                query: GuidedQueryState { column_index: at, ..self.query },
                ..self
            },
            Focus::QueryFilters => App {
                query: GuidedQueryState { filter_index: at, ..self.query },
                ..self
            },
            Focus::QueryResults => App {
                query: GuidedQueryState { result_index: at, ..self.query },
                ..self
            },
            Focus::Solutions => App { solution_index: at, ..self },
            Focus::Components => App { component_index: at, ..self },
            Focus::Users => App { user_index: at, ..self },
            Focus::DirectRoles => App { user_role_index: at, ..self },
            Focus::AllRoles => App { user_role_index: at, ..self },
            Focus::Teams => App { user_team_index: at, ..self },
            Focus::RecordFields => App { record_detail_index: at, ..self },
            Focus::OptionSets => App { optionset_index: at, ..self },
            Focus::SearchResults => App { global_search_index: at, ..self },
            Focus::Environments => App { environment_index: at, ..self },
            Focus::Layers => App { solution_layers_index: at, ..self },
            Focus::SystemJobs => App { system_job_index: at, ..self },
            Focus::Nothing => self,
        }
    }

    /// Whether the cursor of the list looked at can go one down: an item
    /// follows the one it stands on, and the place of that item is a number
    /// that the machine can hold.
    pub open spec fn can_go_down(&self) -> bool {
        self.cursor(self.focus()) + 1 < self.focus_len(self.focus()) && self.cursor(self.focus())
            < usize::MAX
    }

    /// Whether a step down to `at` in the jobs asks for their next page: the
    /// cursor has come within the margin of the end, a next page is known,
    /// and the list is not narrowed by a search text.
    pub open spec fn wants_more_jobs(&self, at: usize) -> bool {
        &&& at + LOAD_MORE_MARGIN >= self.filtered_system_jobs@.len()
        &&& self.system_jobs_next_link is Some
        &&& self.search_query@.len() == 0
    }

    /// This state after a step up: the cursor of the list looked at is one
    /// up, unless it was at the top. Nothing else differs.
    pub open spec fn after_up(self) -> App {
        self.with_cursor(
            self.focus(),
            if self.cursor(self.focus()) > 0 {
                (self.cursor(self.focus()) - 1) as usize
            } else {
                0
            },
        )
    }

    /// This state after a step down: the cursor of the list looked at is
    /// one down, unless it was on the last item or the list is empty. A step
    /// down in the jobs that brings the cursor close to their end asks for their
    /// next page. Nothing else differs.
    pub open spec fn after_down(self) -> App {
        if self.can_go_down() {
            App {
                should_load_more_jobs: self.should_load_more_jobs || (self.focus()
                    == Focus::SystemJobs && self.wants_more_jobs(
                    (self.system_job_index + 1) as usize,
                )),
                ..self.with_cursor(self.focus(), (self.cursor(self.focus()) + 1) as usize)
            }
        } else {
            self
        }
    }

    /// The list that is looked at.
    pub fn current_focus(&self) -> (r: Focus)
        ensures
            r == self.focus(),
    {
        match self.view {
            view::View::Entities => Focus::Entities,
            view::View::EntityDetail => match self.entity_tab {
                EntityTab::Attributes => Focus::Attributes,
                EntityTab::Relationships => Focus::Relationships,
                EntityTab::Metadata => Focus::Nothing,
                EntityTab::Query => match self.query.mode {
                    QueryMode::Columns => Focus::QueryColumns,
                    QueryMode::Filter => Focus::QueryFilters,
                    QueryMode::Results => Focus::QueryResults,
                    _ => Focus::Nothing,
                },
            },
            view::View::Solutions => Focus::Solutions,
            view::View::SolutionDetail => Focus::Components,
            view::View::Users => Focus::Users,
            view::View::UserDetail => match self.user_tab {
                UserTab::DirectRoles => Focus::DirectRoles,
                UserTab::AllRoles => Focus::AllRoles,
                UserTab::Teams => Focus::Teams,
                UserTab::Info => Focus::Nothing,
            },
            view::View::RecordDetail => Focus::RecordFields,
            view::View::OptionSets => Focus::OptionSets,
            view::View::GlobalSearch => Focus::SearchResults,
            view::View::Environments => Focus::Environments,
            view::View::FetchXML => Focus::Nothing,
            view::View::SolutionLayers => Focus::Layers,
            view::View::SystemJobs => Focus::SystemJobs,
            view::View::SystemJobDetail => Focus::Nothing,
        }
    }

    /// Whether an item follows the one that the cursor of `focus` stands on.
    fn has_next(&self, focus: Focus) -> (r: bool)
        ensures
            r == (self.cursor(focus) + 1 < self.focus_len(focus) && self.cursor(focus)
                < usize::MAX),
    {
        match focus {
            Focus::Entities => self.entity_index < usize::MAX && self.entity_index + 1
                < self.filtered_entities.len(),
            Focus::Attributes => self.attribute_index < usize::MAX && self.attribute_index + 1
                < self.filtered_attributes.len(),
            Focus::Relationships => {
                // The three lists together may be longer than any one list can be.
                let total: u128 = self.one_to_many.len() as u128 + self.many_to_one.len() as u128
                    + self.many_to_many.len() as u128;
                self.relationship_index < usize::MAX && self.relationship_index as u128 + 1 < total
            },
            Focus::QueryColumns => self.query.column_index < usize::MAX && self.query.column_index
                + 1 < self.filtered_attributes.len(),
            Focus::QueryFilters => self.query.filter_index < usize::MAX && self.query.filter_index
                + 1 < self.query.filters.len(),
            Focus::QueryResults => self.query.result_index < usize::MAX && self.query.result_index
                + 1 < self.query.result.rows.len(),
            Focus::Solutions => self.solution_index < usize::MAX && self.solution_index + 1
                < self.filtered_solutions.len(),
            Focus::Components => self.component_index < usize::MAX && self.component_index + 1
                < self.filtered_components.len(),
            Focus::Users => self.user_index < usize::MAX && self.user_index + 1
                < self.filtered_users.len(),
            Focus::DirectRoles => self.user_role_index < usize::MAX && self.user_role_index + 1
                < self.user_direct_roles.len(),
            Focus::AllRoles => self.user_role_index < usize::MAX && self.user_role_index + 1
                < self.user_all_roles.len(),
            Focus::Teams => self.user_team_index < usize::MAX && self.user_team_index + 1
                < self.user_teams.len(),
            Focus::RecordFields => self.record_detail_index < usize::MAX
                && self.record_detail_index + 1 < self.query.result.columns.len(),
            Focus::OptionSets => self.optionset_index < usize::MAX && self.optionset_index + 1
                < self.filtered_optionsets.len(),
            Focus::SearchResults => self.global_search_index < usize::MAX
                && self.global_search_index + 1 < self.global_search_results.len(),
            Focus::Environments => self.environment_index < usize::MAX && self.environment_index
                + 1 < self.config.environments.len(),
            Focus::Layers => self.solution_layers_index < usize::MAX && self.solution_layers_index
                + 1 < self.solution_layers.len(),
            Focus::SystemJobs => self.system_job_index < usize::MAX && self.system_job_index + 1
                < self.filtered_system_jobs.len(),
            Focus::Nothing => false,
        }
    }

    /// Where the cursor of the list `focus` stands.
    fn cursor_of(&self, focus: Focus) -> (r: usize)
        ensures
            r == self.cursor(focus),
    {
        match focus {
            Focus::Entities => self.entity_index,
            Focus::Attributes => self.attribute_index,
            Focus::Relationships => self.relationship_index,
            Focus::QueryColumns => self.query.column_index,
            Focus::QueryFilters => self.query.filter_index,
            Focus::QueryResults => self.query.result_index,
            Focus::Solutions => self.solution_index,
            Focus::Components => self.component_index,
            Focus::Users => self.user_index,
            Focus::DirectRoles => self.user_role_index,
            Focus::AllRoles => self.user_role_index,
            Focus::Teams => self.user_team_index,
            Focus::RecordFields => self.record_detail_index,
            Focus::OptionSets => self.optionset_index,
            Focus::SearchResults => self.global_search_index,
            Focus::Environments => self.environment_index,
            Focus::Layers => self.solution_layers_index,
            Focus::SystemJobs => self.system_job_index,
            Focus::Nothing => 0,
        }
    }

    /// Puts the cursor of the list `focus` at `at`.
    fn set_cursor(&mut self, focus: Focus, at: usize)
        ensures
            *final(self) == old(self).with_cursor(focus, at),
    {
        match focus {
            Focus::Entities => self.entity_index = at,
            Focus::Attributes => self.attribute_index = at,
            Focus::Relationships => self.relationship_index = at,
            Focus::QueryColumns => self.query.column_index = at,
            Focus::QueryFilters => self.query.filter_index = at,
            Focus::QueryResults => self.query.result_index = at,
            Focus::Solutions => self.solution_index = at,
            Focus::Components => self.component_index = at,
            Focus::Users => self.user_index = at,
            Focus::DirectRoles => self.user_role_index = at,
            Focus::AllRoles => self.user_role_index = at,
            Focus::Teams => self.user_team_index = at,
            Focus::RecordFields => self.record_detail_index = at,
            Focus::OptionSets => self.optionset_index = at,
            Focus::SearchResults => self.global_search_index = at,
            Focus::Environments => self.environment_index = at,
            Focus::Layers => self.solution_layers_index = at,
            Focus::SystemJobs => self.system_job_index = at,
            Focus::Nothing => {},
        }
    }

    /// Navigate up in the current list
    pub fn navigate_up(&mut self)
        ensures
            *final(self) == old(self).after_up(),
    {
        let focus = self.current_focus();
        let at = self.cursor_of(focus);
        if at > 0 {
            self.set_cursor(focus, at - 1);
        } else {
            proof {
                assert(*self == self.with_cursor(focus, 0));
            }
        }
    }

    /// Navigate down in the current list
    pub fn navigate_down(&mut self)
        ensures
            *final(self) == old(self).after_down(),
    {
        let focus = self.current_focus();
        if self.has_next(focus) {
            let at = self.cursor_of(focus) + 1;
            self.set_cursor(focus, at);
            if focus == Focus::SystemJobs {
                // Trigger load more if near end; only if not filtering locally
                if self.filtered_system_jobs.len() - at <= LOAD_MORE_MARGIN
                    && self.system_jobs_next_link.is_some() && self.search_query.as_str().is_empty() {
                    self.should_load_more_jobs = true;
                }
            }
        }
    }
}

} // verus!
