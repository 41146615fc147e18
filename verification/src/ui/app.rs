//! Application state and main TUI logic

use vstd::prelude::*;
use crate::config::Config;
use crate::models::entity::{
    AttributeMetadata, EntityMetadata, OptionSetMetadata, RelationshipMetadata,
};
use crate::models::query::{LookupInfo, QueryResultView};
use crate::models::solution::{Solution, SolutionComponent, SolutionComponentLayer};
use crate::models::system_jobs::SystemJob;
use crate::models::user::{RoleAssignment, SecurityRole, SystemUser, Team};
use crate::ui::filter::FilterOp;
use crate::ui::guided::{GuidedQueryState, QueryMode};
use crate::ui::input::{InputMode, KeyBindings};
use crate::ui::view::{self, AppState, EntityTab, SearchResult, UserTab};

verus! {

/// Main application struct
pub struct App {
    /// Current application state
    pub state: AppState,
    /// Current view
    pub view: view::View,
    /// Error message if any
    pub error: Option<String>,
    /// Key binding style
    pub key_bindings: KeyBindings,
    /// Input mode
    pub input_mode: InputMode,
    /// Search/filter query
    pub search_query: String,
    // Entity list state
    pub entities: Vec<EntityMetadata>,
    pub filtered_entities: Vec<usize>,
    pub entity_index: usize,
    // Entity detail state
    pub selected_entity: Option<EntityMetadata>,
    pub entity_attributes: Vec<AttributeMetadata>,
    pub filtered_attributes: Vec<usize>,
    pub attribute_index: usize,
    pub one_to_many: Vec<RelationshipMetadata>,
    pub many_to_one: Vec<RelationshipMetadata>,
    pub many_to_many: Vec<RelationshipMetadata>,
    pub entity_tab: EntityTab,
    pub relationship_index: usize,
    // Solution list state
    pub solutions: Vec<Solution>,
    pub filtered_solutions: Vec<usize>,
    pub solution_index: usize,
    // Solution detail state
    pub selected_solution: Option<Solution>,
    pub solution_components: Vec<SolutionComponent>,
    pub filtered_components: Vec<usize>,
    pub component_index: usize,
    // OptionSet state
    pub global_optionsets: Vec<OptionSetMetadata>,
    pub filtered_optionsets: Vec<usize>,
    pub optionset_index: usize,
    pub selected_optionset: Option<OptionSetMetadata>,
    // Global Search state
    pub global_search_results: Vec<SearchResult>,
    pub global_search_index: usize,
    // Environment state
    pub config: Config,
    pub environment_index: usize,
    // Solution layers state
    pub solution_layers: Vec<SolutionComponentLayer>,
    pub solution_layers_index: usize,
    // FetchXML state
    pub fetchxml_query: String,
    pub fetchxml_cursor: usize,
    // User list state
    pub users: Vec<SystemUser>,
    pub filtered_users: Vec<usize>,
    pub user_index: usize,
    pub show_disabled_users: bool,
    // User detail state
    pub selected_user: Option<SystemUser>,
    pub user_tab: UserTab,
    pub user_direct_roles: Vec<SecurityRole>,
    pub user_teams: Vec<Team>,
    pub user_all_roles: Vec<RoleAssignment>,
    pub user_role_index: usize,
    pub user_team_index: usize,
    // System Jobs state
    pub system_jobs: Vec<SystemJob>,
    pub filtered_system_jobs: Vec<usize>,
    pub system_job_index: usize,
    pub selected_system_job: Option<SystemJob>,
    pub system_jobs_next_link: Option<String>,
    pub should_load_more_jobs: bool,
    /// Guided Query builder state (integrated in Entity Detail)
    pub query: GuidedQueryState,
    // Record detail state
    pub selected_record_index: Option<usize>,
    pub record_detail_index: usize,
    /// Feedback message
    pub message: Option<String>,
    /// Should quit
    pub should_quit: bool,
}

/// The item that a cursor points to through a narrowed list: the place in
/// `items` that `filtered` holds at `cursor`, where both places exist.
pub open spec fn pointed(filtered: Seq<usize>, cursor: usize, items: nat) -> Option<int> {
    if cursor < filtered.len() && filtered[cursor as int] < items {
        Some(filtered[cursor as int] as int)
    } else {
        None
    }
}

/// The item that a cursor points to through a narrowed list.
pub fn pointed_index(filtered: &Vec<usize>, cursor: usize, items: usize) -> (r: Option<usize>)
    ensures
        match r {
            Some(at) => pointed(filtered@, cursor, items as nat) == Some(at as int),
            None => pointed(filtered@, cursor, items as nat) is None,
        },
{
    if cursor < filtered.len() && filtered[cursor] < items {
        Some(filtered[cursor])
    } else {
        None
    }
}

impl App {
    /// Whether this is the state in which the explorer starts: loading, in
    /// the view of the entities, with nothing loaded, found or selected, every
    /// cursor at the top, no text written, and the guided query as it is before
    /// anything is chosen.
    pub open spec fn is_new(&self, key_bindings: KeyBindings) -> bool {
        &&& self.state == AppState::Loading
        &&& self.view == view::View::Entities
        &&& self.error is None
        &&& self.key_bindings == key_bindings
        &&& self.input_mode == InputMode::Normal
        &&& self.search_query@.len() == 0
        &&& self.entities@.len() == 0
        &&& self.filtered_entities@.len() == 0
        &&& self.entity_index == 0
        &&& self.selected_entity is None
        &&& self.entity_attributes@.len() == 0
        &&& self.filtered_attributes@.len() == 0
        &&& self.attribute_index == 0
        &&& self.one_to_many@.len() == 0
        &&& self.many_to_one@.len() == 0
        &&& self.many_to_many@.len() == 0
        &&& self.entity_tab == EntityTab::Attributes
        &&& self.relationship_index == 0
        &&& self.solutions@.len() == 0
        &&& self.filtered_solutions@.len() == 0
        &&& self.solution_index == 0
        &&& self.selected_solution is None
        &&& self.solution_components@.len() == 0
        &&& self.filtered_components@.len() == 0
        &&& self.component_index == 0
        &&& self.global_optionsets@.len() == 0
        &&& self.filtered_optionsets@.len() == 0
        &&& self.optionset_index == 0
        &&& self.selected_optionset is None
        &&& self.global_search_results@.len() == 0
        &&& self.global_search_index == 0
        &&& self.config.environments@.len() == 0
        &&& self.config.current_env is None
        &&& self.environment_index == 0
        &&& self.solution_layers@.len() == 0
        &&& self.solution_layers_index == 0
        &&& self.fetchxml_query@.len() == 0
        &&& self.fetchxml_cursor == 0
        &&& self.users@.len() == 0
        &&& self.filtered_users@.len() == 0
        &&& self.user_index == 0
        &&& !self.show_disabled_users
        &&& self.selected_user is None
        &&& self.user_tab == UserTab::DirectRoles
        &&& self.user_direct_roles@.len() == 0
        &&& self.user_teams@.len() == 0
        &&& self.user_all_roles@.len() == 0
        &&& self.user_role_index == 0
        &&& self.user_team_index == 0
        &&& self.system_jobs@.len() == 0
        &&& self.filtered_system_jobs@.len() == 0
        &&& self.system_job_index == 0
        &&& self.selected_system_job is None
        &&& self.system_jobs_next_link is None
        &&& !self.should_load_more_jobs
        &&& self.query.is_cleared()
        &&& self.query.selected_columns@.len() == 0
        &&& self.query.column_index == 0
        &&& self.query.filter_attr is None
        &&& self.query.filter_op == FilterOp::Equals
        &&& self.query.filter_value@.len() == 0
        &&& self.query.filter_index == 0
        &&& !self.query.editing
        &&& self.selected_record_index is None
        &&& self.record_detail_index == 0
        &&& self.message is None
        &&& !self.should_quit
    }

    /// Create a new app instance
    pub fn new(key_bindings: KeyBindings) -> (app: App)
        ensures
            app.is_new(key_bindings),
    {
        App {
            state: AppState::Loading,
            view: view::View::Entities,
            error: None,
            key_bindings,
            input_mode: InputMode::Normal,
            search_query: String::new(),
            entities: Vec::new(),
            filtered_entities: Vec::new(),
            entity_index: 0,
            selected_entity: None,
            entity_attributes: Vec::new(),
            filtered_attributes: Vec::new(),
            attribute_index: 0,
            one_to_many: Vec::new(),
            many_to_one: Vec::new(),
            many_to_many: Vec::new(),
            entity_tab: EntityTab::Attributes,
            relationship_index: 0,
            solutions: Vec::new(),
            filtered_solutions: Vec::new(),
            solution_index: 0,
            selected_solution: None,
            solution_components: Vec::new(),
            filtered_components: Vec::new(),
            component_index: 0,
            global_optionsets: Vec::new(),
            filtered_optionsets: Vec::new(),
            optionset_index: 0,
            selected_optionset: None,
            global_search_results: Vec::new(),
            global_search_index: 0,
            config: Config::default(),
            environment_index: 0,
            solution_layers: Vec::new(),
            solution_layers_index: 0,
            fetchxml_query: String::new(),
            fetchxml_cursor: 0,
            users: Vec::new(),
            filtered_users: Vec::new(),
            user_index: 0,
            show_disabled_users: false,
            selected_user: None,
            user_tab: UserTab::DirectRoles,
            user_direct_roles: Vec::new(),
            user_teams: Vec::new(),
            user_all_roles: Vec::new(),
            user_role_index: 0,
            user_team_index: 0,
            system_jobs: Vec::new(),
            filtered_system_jobs: Vec::new(),
            system_job_index: 0,
            selected_system_job: None,
            system_jobs_next_link: None,
            should_load_more_jobs: false,
            query: GuidedQueryState::new(),
            selected_record_index: None,
            record_detail_index: 0,
            message: None,
            should_quit: false,
        }
    }

    /// The place among the entities of the one under the cursor.
    pub open spec fn entity_under_cursor(&self) -> Option<int> {
        pointed(self.filtered_entities@, self.entity_index, self.entities@.len())
    }

    /// The place among the attributes of the one under the cursor.
    pub open spec fn attribute_under_cursor(&self) -> Option<int> {
        pointed(self.filtered_attributes@, self.attribute_index, self.entity_attributes@.len())
    }

    /// The place among the solutions of the one under the cursor.
    pub open spec fn solution_under_cursor(&self) -> Option<int> {
        pointed(self.filtered_solutions@, self.solution_index, self.solutions@.len())
    }

    /// The place among the users of the one under the cursor.
    pub open spec fn user_under_cursor(&self) -> Option<int> {
        pointed(self.filtered_users@, self.user_index, self.users@.len())
    }

    /// The place among the components of the one under the cursor, going
    /// through the narrowed list.
    pub open spec fn component_under_cursor(&self) -> Option<int> {
        pointed(self.filtered_components@, self.component_index, self.solution_components@.len())
    }

    /// Get currently selected entity
    pub fn get_selected_entity(&self) -> (r: Option<&EntityMetadata>)
        ensures
            match r {
                Some(entity) => self.entity_under_cursor() is Some && *entity
                    == self.entities@[self.entity_under_cursor()->0],
                None => self.entity_under_cursor() is None,
            },
    {
        match pointed_index(&self.filtered_entities, self.entity_index, self.entities.len()) {
            Some(at) => Some(&self.entities[at]),
            None => None,
        }
    }

    pub fn get_selected_attribute(&self) -> (r: Option<&AttributeMetadata>)
        ensures
            match r {
                Some(attribute) => self.attribute_under_cursor() is Some && *attribute
                    == self.entity_attributes@[self.attribute_under_cursor()->0],
                None => self.attribute_under_cursor() is None,
            },
    {
        match pointed_index(
            &self.filtered_attributes,
            self.attribute_index,
            self.entity_attributes.len(),
        ) {
            Some(at) => Some(&self.entity_attributes[at]),
            None => None,
        }
    }

    /// The component at the place of the cursor, not going through the
    /// narrowed list.
    pub fn get_selected_component(&self) -> (r: Option<&SolutionComponent>)
        ensures
            match r {
                Some(component) => self.component_index < self.solution_components@.len()
                    && *component == self.solution_components@[self.component_index as int],
                None => self.component_index >= self.solution_components@.len(),
            },
    {
        if self.component_index < self.solution_components.len() {
            Some(&self.solution_components[self.component_index])
        } else {
            None
        }
    }

    /// Get currently selected solution
    pub fn get_selected_solution(&self) -> (r: Option<&Solution>)
        ensures
            match r {
                Some(solution) => self.solution_under_cursor() is Some && *solution
                    == self.solutions@[self.solution_under_cursor()->0],
                None => self.solution_under_cursor() is None,
            },
    {
        match pointed_index(&self.filtered_solutions, self.solution_index, self.solutions.len()) {
            Some(at) => Some(&self.solutions[at]),
            None => None,
        }
    }

    /// Get currently selected user
    pub fn get_selected_user(&self) -> (r: Option<&SystemUser>)
        ensures
            match r {
                Some(user) => self.user_under_cursor() is Some && *user
                    == self.users@[self.user_under_cursor()->0],
                None => self.user_under_cursor() is None,
            },
    {
        match pointed_index(&self.filtered_users, self.user_index, self.users.len()) {
            Some(at) => Some(&self.users[at]),
            None => None,
        }
    }

    /// Get selected solution component
    pub fn get_selected_solution_component(&self) -> (r: Option<&SolutionComponent>)
        ensures
            match r {
                Some(component) => self.component_under_cursor() is Some && *component
                    == self.solution_components@[self.component_under_cursor()->0],
                None => self.component_under_cursor() is None,
            },
    {
        match pointed_index(
            &self.filtered_components,
            self.component_index,
            self.solution_components.len(),
        ) {
            Some(at) => Some(&self.solution_components[at]),
            None => None,
        }
    }

    /// Whether `post` is `pre` after the detail of the entity under the cursor was
    /// entered.
    pub open spec fn entered_entity(pre: App, post: App) -> bool {
        &&& pre.entity_under_cursor() is None ==> post == pre
        &&& pre.entity_under_cursor() is Some ==> {
                &&& post.selected_entity is Some
                &&& pre.entities@[pre.entity_under_cursor()->0].same_as(
                    post.selected_entity->0,
                )
                &&& post.search_query@.len() == 0
                &&& post == (App {
                    selected_entity: post.selected_entity,
                    view: view::View::EntityDetail,
                    search_query: post.search_query,
                    ..pre
                })
            }
    }

    /// Enter detail view for selected entity: where an entity is under the
    /// cursor, a copy of it becomes the selected entity, the view is its detail,
    /// and the search text is emptied. Else nothing changes.
    pub fn enter_entity_detail(&mut self)
        ensures
            App::entered_entity(*old(self), *final(self)),
    {
        let picked = match self.get_selected_entity() {
            Some(entity) => Some(entity.clone()),
            None => None,
        };
        if let Some(entity) = picked {
            self.selected_entity = Some(entity);
            self.view = view::View::EntityDetail;
            self.search_query = String::new();
        }
    }

    /// Whether `post` is `pre` after the detail of the user under the cursor was
    /// entered.
    pub open spec fn entered_user(pre: App, post: App) -> bool {
        &&& pre.user_under_cursor() is None ==> post == pre
        &&& pre.user_under_cursor() is Some ==> {
                &&& post.selected_user == Some(
                    pre.users@[pre.user_under_cursor()->0],
                )
                &&& post.search_query@.len() == 0
                &&& post == (App {
                    selected_user: post.selected_user,
                    view: view::View::UserDetail,
                    search_query: post.search_query,
                    ..pre
                })
            }
    }

    /// Enter detail view for selected user
    pub fn enter_user_detail(&mut self)
        ensures
            App::entered_user(*old(self), *final(self)),
    {
        let picked = match self.get_selected_user() {
            Some(user) => Some(user.clone()),
            None => None,
        };
        if let Some(user) = picked {
            self.selected_user = Some(user);
            self.view = view::View::UserDetail;
            self.search_query = String::new();
        }
    }

    /// Whether `post` is `pre` after the detail of the solution under the cursor
    /// was entered.
    pub open spec fn entered_solution(pre: App, post: App) -> bool {
        &&& pre.solution_under_cursor() is None ==> post == pre
        &&& pre.solution_under_cursor() is Some ==> {
                &&& post.selected_solution == Some(
                    pre.solutions@[pre.solution_under_cursor()->0],
                )
                &&& post.search_query@.len() == 0
                &&& post.filtered_components@.len() == 0
                &&& post == (App {
                    selected_solution: post.selected_solution,
                    view: view::View::SolutionDetail,
                    search_query: post.search_query,
                    filtered_components: post.filtered_components,
                    ..pre
                })
            }
    }

    /// Enter detail view for selected solution
    pub fn enter_solution_detail(&mut self)
        ensures
            App::entered_solution(*old(self), *final(self)),
    {
        let picked = match self.get_selected_solution() {
            Some(solution) => Some(solution.clone()),
            None => None,
        };
        if let Some(solution) = picked {
            self.selected_solution = Some(solution);
            self.view = view::View::SolutionDetail;
            self.search_query = String::new();
            self.filtered_components.clear();
        }
    }

    /// Whether a row of results is there to be looked at.
    pub open spec fn record_ready(&self) -> bool {
        self.query.mode == QueryMode::Results && self.query.result.rows@.len() > 0
    }

    /// This state with the row under the cursor of the results as the record
    /// looked at, where there is a row to be looked at.
    pub open spec fn with_record_entered(self) -> App {
        if self.record_ready() {
            App {
                selected_record_index: Some(self.query.result_index),
                view: view::View::RecordDetail,
                record_detail_index: 0,
                ..self
            }
        } else {
            self
        }
    }

    /// Enter detail view for selected record
    pub fn enter_record_detail(&mut self)
        ensures
            *final(self) == old(self).with_record_entered(),
    {
        if self.query.mode == QueryMode::Results && self.query.result.rows.len() > 0 {
            self.selected_record_index = Some(self.query.result_index);
            self.view = view::View::RecordDetail;
            self.record_detail_index = 0;
        }
    }

    /// The lookup of the cell under the cursor of the record detail, if a
    /// record is selected and the cell has one.
    pub fn selected_lookup(&self) -> (r: Option<&LookupInfo>)
        ensures
            match r {
                Some(info) => self.selected_record_index is Some
                    && self.query.result@.lookups.contains_key(
                    (self.selected_record_index->0 as int, self.record_detail_index as int),
                ) && self.query.result@.lookups[(
                    self.selected_record_index->0 as int,
                    self.record_detail_index as int,
                )] == info@,
                None => self.selected_record_index is None
                    || !self.query.result@.lookups.contains_key(
                    (self.selected_record_index->0 as int, self.record_detail_index as int),
                ),
            },
    {
        match self.selected_record_index {
            Some(row) => self.query.result.lookups.get(row, self.record_detail_index),
            None => None,
        }
    }

    /// The view that going back from `self.view` leads to, if it leads
    /// anywhere.
    pub open spec fn view_behind(&self) -> Option<view::View> {
        match self.view {
            view::View::EntityDetail => Some(view::View::Entities),
            view::View::SolutionDetail => Some(view::View::Solutions),
            view::View::UserDetail => Some(view::View::Users),
            view::View::RecordDetail => Some(view::View::EntityDetail),
            view::View::SolutionLayers => Some(
                if self.selected_solution is Some {
                    view::View::SolutionDetail
                } else if self.selected_entity is Some {
                    view::View::EntityDetail
                } else {
                    view::View::Entities
                },
            ),
            _ => None,
        }
    }

    /// Whether `post` is what going back from the detail view of `pre` leads to.
    pub open spec fn went_back(pre: App, post: App) -> bool {
        &&& pre.view_behind() is None ==> post == pre
        &&& pre.view_behind() is Some ==> {
                &&& post.view == pre.view_behind()->0
                &&& post.search_query@ == if pre.view == view::View::EntityDetail
                    || pre.view == view::View::SolutionDetail || pre.view
                    == view::View::UserDetail {
                    Seq::<char>::empty()
                } else {
                    pre.search_query@
                }
                &&& post.selected_record_index == if pre.view
                    == view::View::RecordDetail {
                    None
                } else {
                    pre.selected_record_index
                }
                &&& post == (App {
                    view: post.view,
                    search_query: post.search_query,
                    selected_record_index: post.selected_record_index,
                    ..pre
                })
            }
    }

    /// Go back from detail view: to the list that the detail belongs to,
    /// with the search text emptied; from a record to the detail of its entity,
    /// with no record selected; from the layers to what was looked at before.
    /// From any other view nothing changes.
    pub fn go_back(&mut self)
        ensures
            App::went_back(*old(self), *final(self)),
    {
        match self.view {
            view::View::EntityDetail => {
                self.view = view::View::Entities;
                self.search_query = String::new();
            },
            view::View::SolutionDetail => {
                self.view = view::View::Solutions;
                self.search_query = String::new();
            },
            view::View::UserDetail => {
                self.view = view::View::Users;
                self.search_query = String::new();
            },
            view::View::RecordDetail => {
                self.view = view::View::EntityDetail;
                self.selected_record_index = None;
            },
            view::View::SolutionLayers => {
                // Return to whatever made sense before.
                if self.selected_solution.is_some() {
                    self.view = view::View::SolutionDetail;
                } else if self.selected_entity.is_some() {
                    self.view = view::View::EntityDetail;
                } else {
                    self.view = view::View::Entities;
                }
            },
            _ => {},
        }
    }

    /// This state with the tab to the right: of the entity detail, or of the
    /// user detail, where the cursors of the roles and teams go to the top. In
    /// any other view nothing differs.
    pub open spec fn after_next_tab(self) -> App {
        match self.view {
            view::View::EntityDetail => App { entity_tab: self.entity_tab.right(), ..self },
            view::View::UserDetail => App {
                user_tab: self.user_tab.right(),
                user_role_index: 0,
                user_team_index: 0,
                ..self
            },
            _ => self,
        }
    }

    /// This state with the tab to the left.
    pub open spec fn after_prev_tab(self) -> App {
        match self.view {
            view::View::EntityDetail => App { entity_tab: self.entity_tab.left(), ..self },
            view::View::UserDetail => App {
                user_tab: self.user_tab.left(),
                user_role_index: 0,
                user_team_index: 0,
                ..self
            },
            _ => self,
        }
    }

    /// Navigate to next tab
    pub fn next_tab(&mut self)
        ensures
            *final(self) == old(self).after_next_tab(),
    {
        match self.view {
            view::View::EntityDetail => {
                self.entity_tab = self.entity_tab.next();
            },
            view::View::UserDetail => {
                self.user_tab = self.user_tab.next();
                self.user_role_index = 0;
                self.user_team_index = 0;
            },
            _ => {},
        }
    }

    /// Navigate to previous tab
    pub fn prev_tab(&mut self)
        ensures
            *final(self) == old(self).after_prev_tab(),
    {
        match self.view {
            view::View::EntityDetail => {
                self.entity_tab = self.entity_tab.prev();
            },
            view::View::UserDetail => {
                self.user_tab = self.user_tab.prev();
                self.user_role_index = 0;
                self.user_team_index = 0;
            },
            _ => {},
        }
    }

    /// Clear the feedback message
    pub fn clear_message(&mut self)
        ensures
            *final(self) == (App { message: None, ..*old(self) }),
    {
        self.message = None;
    }

    /// Whether `post` is `pre` with the selection of the column under the cursor
    /// turned over.
    pub open spec fn column_toggled(pre: App, post: App) -> bool {
        &&& post.query.selected_columns@ == if pre.query.column_index < pre.query.selected_columns@.len() {
                pre.query.selected_columns@.update(
                    pre.query.column_index as int,
                    !pre.query.selected_columns@[pre.query.column_index as int],
                )
            } else {
                pre.query.selected_columns@
            }
        &&& post.query == (GuidedQueryState {
                selected_columns: post.query.selected_columns,
                ..pre.query
            })
        &&& post == (App { query: post.query, ..pre })
    }

    /// Toggle column selection at current index
    pub fn toggle_query_column(&mut self)
        ensures
            App::column_toggled(*old(self), *final(self)),
    {
        self.query.toggle_column();
    }

    /// Whether `post` is `pre` with every column selected.
    pub open spec fn all_columns_selected(pre: App, post: App) -> bool {
        &&& post.query.selected_columns@ == Seq::new(
                pre.query.selected_columns@.len(),
                |i: int| true,
            )
        &&& post.query == (GuidedQueryState {
                selected_columns: post.query.selected_columns,
                ..pre.query
            })
        &&& post == (App { query: post.query, ..pre })
    }

    /// Select all columns
    pub fn select_all_columns(&mut self)
        ensures
            App::all_columns_selected(*old(self), *final(self)),
    {
        self.query.select_all_columns();
    }

    /// Clear all column selections
    pub fn clear_column_selections(&mut self)
        ensures
            final(self).query.selected_columns@ == Seq::new(
                old(self).query.selected_columns@.len(),
                |i: int| false,
            ),
            final(self).query == (GuidedQueryState {
                selected_columns: final(self).query.selected_columns,
                ..old(self).query
            }),
            *final(self) == (App { query: final(self).query, ..*old(self) }),
    {
        self.query.clear_column_selections();
    }

    /// Whether `post` is `pre` after the filter in progress was added to the
    /// filters: it is added where it is on an attribute of the entity and does
    /// not lack the value that its operator needs.
    pub open spec fn filter_added(pre: App, post: App) -> bool {
        &&& !pre.query.filter_complete(pre.entity_attributes@) ==> post == pre
        &&& pre.query.filter_complete(pre.entity_attributes@) ==> {
                &&& post.query.filters@.len() == pre.query.filters@.len() + 1
                &&& post.query.filters@.drop_last() == pre.query.filters@
                &&& post.query.filters@.last().attribute_name@
                    == pre.entity_attributes@[pre.query.filter_attr->0 as int].logical_name@
                &&& post.query.filters@.last().operator == pre.query.filter_op
                &&& post.query.filters@.last().value@ == pre.query.filter_value@
                &&& post.query.filter_value@.len() == 0
                &&& post.query == (GuidedQueryState {
                    filters: post.query.filters,
                    filter_value: post.query.filter_value,
                    filter_attr: None,
                    ..pre.query
                })
            }
        &&& post == (App { query: post.query, ..pre })
    }

    /// Add current filter to the list, unless it lacks the value that its
    /// operator needs
    pub fn add_filter(&mut self)
        ensures
            App::filter_added(*old(self), *final(self)),
    {
        self.query.add_filter(&self.entity_attributes);
    }

    /// Whether `post` is `pre` without the filter under the cursor.
    pub open spec fn filter_removed(pre: App, post: App) -> bool {
        &&& pre.query.filter_index >= pre.query.filters@.len() ==> post == pre
        &&& pre.query.filter_index < pre.query.filters@.len() ==> {
                &&& post.query.filters@ == pre.query.filters@.remove(
                    pre.query.filter_index as int,
                )
                &&& post.query.filter_index == if pre.query.filter_index > 0 {
                    (pre.query.filter_index - 1) as usize
                } else {
                    0
                }
                &&& post.query == (GuidedQueryState {
                    filters: post.query.filters,
                    filter_index: post.query.filter_index,
                    ..pre.query
                })
            }
        &&& post == (App { query: post.query, ..pre })
    }

    /// Remove filter at current index
    pub fn remove_filter(&mut self)
        ensures
            App::filter_removed(*old(self), *final(self)),
    {
        self.query.remove_filter();
    }

    /// Whether `post` is `pre` with the guided query cleared.
    pub open spec fn query_cleared(pre: App, post: App) -> bool {
        &&& post.query.is_cleared()
        &&& post.query.selected_columns@.len() == pre.query.selected_columns@.len()
        &&& post.query.result@ == QueryResultView::empty()
        &&& post.query.column_index == pre.query.column_index
        &&& post.query.filter_attr == pre.query.filter_attr
        &&& post.query.filter_op == pre.query.filter_op
        &&& post.query.filter_value == pre.query.filter_value
        &&& post.query.filter_index == pre.query.filter_index
        &&& post.query.editing == pre.query.editing
        &&& post == (App { query: post.query, ..pre })
    }

    /// Clear query and results: no column is selected, there is no filter,
    /// no order and no result, the row limit is at its default, and the section
    /// is that of the columns.
    pub fn clear_query(&mut self)
        ensures
            App::query_cleared(*old(self), *final(self)),
    {
        self.query.clear();
    }

    /// Navigate query results up
    pub fn query_result_up(&mut self)
        ensures
            final(self).query == (GuidedQueryState {
                result_index: if old(self).query.result_index > 0 {
                    (old(self).query.result_index - 1) as usize
                } else {
                    0
                },
                ..old(self).query
            }),
            *final(self) == (App { query: final(self).query, ..*old(self) }),
    {
        self.query.result_up();
    }

    /// Navigate query results down
    pub fn query_result_down(&mut self)
        ensures
            final(self).query == (GuidedQueryState {
                result_index: if old(self).query.result_index + 1 < old(
                    self,
                ).query.result.rows@.len() {
                    (old(self).query.result_index + 1) as usize
                } else {
                    old(self).query.result_index
                },
                ..old(self).query
            }),
            *final(self) == (App { query: final(self).query, ..*old(self) }),
    {
        self.query.result_down();
    }
}

} // verus!
