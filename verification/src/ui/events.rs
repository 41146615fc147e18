//! From a key to the next state of the explorer and to what is to be asked
//! of the record store.

use vstd::prelude::*;
use crate::text::{
    insert_char, push_char, remove_char, remove_last, with_char_at, without_char_at, without_last,
};
use crate::ui::app::{pointed, pointed_index, App};
use crate::ui::filter::FilterOp;
use crate::ui::guided::{GuidedQueryState, QueryMode};
use crate::ui::input::{InputMode, Key};
use crate::ui::requests::{RelatedRecord, SearchTarget};
use crate::ui::view::{self, EntityTab};

verus! {

/// The code of the type of an entity among the components.
pub const ENTITY_COMPONENT: i32 = 1;

/// The code of the type of an attribute among the components.
pub const ATTRIBUTE_COMPONENT: i32 = 2;

/// What a key asks to be done outside the state of the explorer.
#[derive(Debug)]
pub enum Command {
    /// Nothing
    Nothing,
    /// Load the solutions
    LoadSolutions,
    /// Load the users
    LoadUsers,
    /// Load the global option sets
    LoadOptionSets,
    /// Load the newest system jobs
    LoadSystemJobs,
    /// Load the newest system jobs anew
    RefreshSystemJobs,
    /// Discover the environments that can be reached
    DiscoverEnvironments,
    /// Load the layers of a component
    LoadSolutionLayers { component_id: String, component_type: i32 },
    /// Ask the guided query that has this text
    ExecuteQuery(String),
    /// Ask for the page of results that this continuation names
    LoadNextPage(String),
    /// Write the results to a file
    Export,
    /// Load the detail of the entity of this logical name
    OpenEntity(String),
    /// Load the detail of the user with this identifier
    OpenUser(String),
    /// Load the detail of the solution with this identifier
    OpenSolution(String),
    /// Load what a search result stands for
    OpenSearchResult(SearchTarget),
    /// Connect to the environment at this address
    SwitchEnvironment(String),
    /// Load the detail of the entity of this logical name, which a component
    /// stands for
    JumpToComponent(String),
    /// Load the record that a lookup refers to
    OpenRelatedRecord(RelatedRecord),
    /// Load the job with this identifier in full
    OpenSystemJob(String),
    /// Ask the raw query at this endpoint
    ExecuteFetchXml(String),
}

impl Command {
    /// The text of the guided query that the command asks, if it asks one.
    pub open spec fn query_url(self) -> Option<String> {
        match self {
            Command::ExecuteQuery(url) => Some(url),
            _ => None,
        }
    }

    /// The continuation that the command asks for, if it asks for one.
    pub open spec fn page_link(self) -> Option<String> {
        match self {
            Command::LoadNextPage(link) => Some(link),
            _ => None,
        }
    }

    /// The endpoint of the raw query that the command asks, if it asks one.
    pub open spec fn fetch_xml_endpoint(self) -> Option<String> {
        match self {
            Command::ExecuteFetchXml(endpoint) => Some(endpoint),
            _ => None,
        }
    }

    /// The related record that the command opens, if it opens one.
    pub open spec fn related_record(self) -> Option<RelatedRecord> {
        match self {
            Command::OpenRelatedRecord(record) => Some(record),
            _ => None,
        }
    }

    /// The search result that the command opens, if it opens one.
    pub open spec fn search_target(self) -> Option<SearchTarget> {
        match self {
            Command::OpenSearchResult(target) => Some(target),
            _ => None,
        }
    }

    /// Whether the command asks to load the layers of the component `id` of
    /// the type `kind`.
    pub open spec fn loads_layers(self, id: Seq<char>, kind: i32) -> bool {
        self matches Command::LoadSolutionLayers { component_id, component_type } && component_id@
            == id && component_type == kind
    }
}

impl App {
    /// Whether the query tab of the entity detail is looked at.
    pub open spec fn in_query_tab(&self) -> bool {
        self.view == view::View::EntityDetail && self.entity_tab == EntityTab::Query
    }

    /// Whether a filter is in progress in the section of the filter.
    pub open spec fn filter_in_progress(&self) -> bool {
        self.in_query_tab() && self.query.mode == QueryMode::Filter && self.query.filter_attr
            is Some
    }

    /// Whether `view` is one of the detail views that `q` leads back from.
    pub open spec fn is_detail(view: view::View) -> bool {
        view == view::View::EntityDetail || view == view::View::SolutionDetail || view
            == view::View::UserDetail
    }

    /// Whether `key` is a shortcut that counts in every view.
    pub open spec fn is_shortcut(key: Key) -> bool {
        ||| key == Key::Esc
        ||| key == Key::Char('q')
        ||| key == Key::Char('/')
        ||| key == Key::Char('1')
        ||| key == Key::Char('2')
        ||| key == Key::Char('3')
        ||| key == Key::Char('4')
        ||| key == Key::Char('5')
        ||| key == Key::Char('g')
        ||| key == Key::Char('E')
        ||| key == Key::Char('D')
        ||| key == Key::Char('l')
        ||| key == Key::Char('L')
        ||| key == Key::Char('f')
        ||| key == Key::Char('F')
    }

    /// The component whose layers the key for layers asks for, with the code
    /// of its type: the entity or the attribute under the cursor, or the
    /// component at the place of the cursor.
    pub open spec fn layers_wanted(&self) -> Option<(Seq<char>, i32)> {
        match self.view {
            view::View::Entities => match self.entity_under_cursor() {
                Some(at) => Some((self.entities@[at].metadata_id@, ENTITY_COMPONENT)),
                None => None,
            },
            view::View::EntityDetail => if self.entity_tab == EntityTab::Attributes {
                match self.attribute_under_cursor() {
                    Some(at) => Some(
                        (self.entity_attributes@[at].metadata_id@, ATTRIBUTE_COMPONENT),
                    ),
                    None => None,
                }
            } else {
                None
            },
            view::View::SolutionDetail => if self.component_index
                < self.solution_components@.len() {
                let component = self.solution_components@[self.component_index as int];
                Some(
                    (
                        match component.object_id {
                            Some(id) => id@,
                            None => component.solution_component_id@,
                        },
                        component.type_code(),
                    ),
                )
            } else {
                None
            },
            _ => None,
        }
    }

    /// Whether `post` and `command` are what the shortcut `key` makes of
    /// `pre`.
    pub open spec fn shortcut_effect(pre: App, key: Key, post: App, command: Command) -> bool {
        if key == Key::Char('q') {
            // Only quit from main views, go back from detail views
            &&& command is Nothing
            &&& if App::is_detail(pre.view) {
                App::went_back(pre, post)
            } else {
                post == (App { should_quit: true, ..pre })
            }
        } else if key == Key::Char('/') {
            &&& command is Nothing
            &&& post.search_query@.len() == 0
            &&& post == (App {
                input_mode: InputMode::Search,
                search_query: post.search_query,
                ..pre
            })
        } else if key == Key::Esc {
            // A filter in progress is given up; else the way leads back
            &&& command is Nothing
            &&& if pre.filter_in_progress() {
                post == (App {
                    query: GuidedQueryState { filter_attr: None, ..pre.query },
                    ..pre
                })
            } else {
                App::went_back(pre, post)
            }
        } else if key == Key::Char('1') {
            &&& command is Nothing
            &&& post == if pre.view != view::View::Entities && pre.view
                != view::View::EntityDetail {
                App { view: view::View::Entities, ..pre }
            } else {
                pre
            }
        } else if key == Key::Char('2') {
            if pre.view != view::View::Solutions && pre.view != view::View::SolutionDetail {
                &&& post == (App { view: view::View::Solutions, ..pre })
                &&& if pre.solutions@.len() == 0 {
                    command is LoadSolutions
                } else {
                    command is Nothing
                }
            } else {
                post == pre && command is Nothing
            }
        } else if key == Key::Char('3') {
            if pre.view != view::View::Users && pre.view != view::View::UserDetail {
                &&& post == (App { view: view::View::Users, ..pre })
                &&& if pre.users@.len() == 0 {
                    command is LoadUsers
                } else {
                    command is Nothing
                }
            } else {
                post == pre && command is Nothing
            }
        } else if key == Key::Char('4') {
            if pre.view != view::View::OptionSets {
                &&& post == (App { view: view::View::OptionSets, ..pre })
                &&& if pre.global_optionsets@.len() == 0 {
                    command is LoadOptionSets
                } else {
                    command is Nothing
                }
            } else {
                post == pre && command is Nothing
            }
        } else if key == Key::Char('5') {
            if pre.view != view::View::SystemJobs && pre.view != view::View::SystemJobDetail {
                &&& post == (App { view: view::View::SystemJobs, ..pre })
                &&& if pre.system_jobs@.len() == 0 {
                    command is LoadSystemJobs
                } else {
                    command is Nothing
                }
            } else {
                post == pre && command is Nothing
            }
        } else if key == Key::Char('g') {
            &&& command is Nothing
            &&& post.search_query@.len() == 0
            &&& post == (App {
                input_mode: InputMode::Search,
                search_query: post.search_query,
                view: view::View::GlobalSearch,
                ..pre
            })
        } else if key == Key::Char('E') {
            command is Nothing && post == (App { view: view::View::Environments, ..pre })
        } else if key == Key::Char('D') {
            &&& post == pre
            &&& if pre.view == view::View::Environments {
                command is DiscoverEnvironments
            } else {
                command is Nothing
            }
        } else if key == Key::Char('l') || key == Key::Char('L') {
            &&& post == pre
            &&& match pre.layers_wanted() {
                Some((id, kind)) => command.loads_layers(id, kind),
                None => command is Nothing,
            }
        } else {
            // 'f' or 'F'
            &&& command is Nothing
            &&& post == (App {
                view: view::View::FetchXML,
                input_mode: InputMode::FetchXML,
                ..pre
            })
        }
    }

    /// The layers that the key for layers asks for.
    fn layers_command(&self) -> (command: Command)
        ensures
            match self.layers_wanted() {
                Some((id, kind)) => command.loads_layers(id, kind),
                None => command is Nothing,
            },
    {
        match self.view {
            view::View::Entities => match self.get_selected_entity() {
                Some(entity) => Command::LoadSolutionLayers {
                    component_id: entity.metadata_id.clone(),
                    component_type: ENTITY_COMPONENT,
                },
                None => Command::Nothing,
            },
            view::View::EntityDetail => {
                if self.entity_tab == EntityTab::Attributes {
                    match self.get_selected_attribute() {
                        Some(attribute) => Command::LoadSolutionLayers {
                            component_id: attribute.metadata_id.clone(),
                            component_type: ATTRIBUTE_COMPONENT,
                        },
                        None => Command::Nothing,
                    }
                } else {
                    Command::Nothing
                }
            },
            view::View::SolutionDetail => match self.get_selected_component() {
                Some(component) => {
                    let kind = match component.component_type {
                        Some(code) => code,
                        None => 0,
                    };
                    let id = match &component.object_id {
                        Some(id) => id.clone(),
                        None => component.solution_component_id.clone(),
                    };
                    Command::LoadSolutionLayers { component_id: id, component_type: kind }
                },
                None => Command::Nothing,
            },
            _ => Command::Nothing,
        }
    }

    /// Takes a key as a shortcut that counts in every view. Where the key is
    /// none, nothing changes and nothing is returned.
    pub fn handle_shortcut(&mut self, key: Key) -> (r: Option<Command>)
        ensures
            r is Some == App::is_shortcut(key),
            r is Some ==> App::shortcut_effect(*old(self), key, *final(self), r->0),
            r is None ==> *final(self) == *old(self),
    {
        match key {
            Key::Char('q') => {
                match self.view {
                    view::View::EntityDetail
                    | view::View::SolutionDetail
                    | view::View::UserDetail => self.go_back(),
                    _ => self.should_quit = true,
                }
                Some(Command::Nothing)
            },
            Key::Char('/') => {
                self.input_mode = InputMode::Search;
                self.search_query = String::new();
                Some(Command::Nothing)
            },
            Key::Esc => {
                if self.view == view::View::EntityDetail && self.entity_tab == EntityTab::Query
                    && self.query.mode == QueryMode::Filter && self.query.filter_attr.is_some() {
                    self.query.cancel_filter();
                } else {
                    self.go_back();
                }
                Some(Command::Nothing)
            },
            Key::Char('1') => {
                if self.view != view::View::Entities && self.view != view::View::EntityDetail {
                    self.view = view::View::Entities;
                }
                Some(Command::Nothing)
            },
            Key::Char('2') => {
                if self.view != view::View::Solutions && self.view != view::View::SolutionDetail {
                    self.view = view::View::Solutions;
                    if self.solutions.len() == 0 {
                        return Some(Command::LoadSolutions);
                    }
                }
                Some(Command::Nothing)
            },
            Key::Char('3') => {
                if self.view != view::View::Users && self.view != view::View::UserDetail {
                    self.view = view::View::Users;
                    if self.users.len() == 0 {
                        return Some(Command::LoadUsers);
                    }
                }
                Some(Command::Nothing)
            },
            Key::Char('4') => {
                if self.view != view::View::OptionSets {
                    self.view = view::View::OptionSets;
                    if self.global_optionsets.len() == 0 {
                        return Some(Command::LoadOptionSets);
                    }
                }
                Some(Command::Nothing)
            },
            Key::Char('5') => {
                if self.view != view::View::SystemJobs && self.view != view::View::SystemJobDetail {
                    self.view = view::View::SystemJobs;
                    if self.system_jobs.len() == 0 {
                        return Some(Command::LoadSystemJobs);
                    }
                }
                Some(Command::Nothing)
            },
            Key::Char('g') => {
                self.input_mode = InputMode::Search;
                self.search_query = String::new();
                self.view = view::View::GlobalSearch;
                Some(Command::Nothing)
            },
            Key::Char('E') => {
                self.view = view::View::Environments;
                Some(Command::Nothing)
            },
            Key::Char('D') => {
                if self.view == view::View::Environments {
                    Some(Command::DiscoverEnvironments)
                } else {
                    Some(Command::Nothing)
                }
            },
            Key::Char('l') | Key::Char('L') => Some(self.layers_command()),
            Key::Char('f') | Key::Char('F') => {
                self.view = view::View::FetchXML;
                self.input_mode = InputMode::FetchXML;
                Some(Command::Nothing)
            },
            _ => None,
        }
    }
}

impl App {
    /// Whether `post` and `command` are what `key` makes of `pre` in the
    /// query tab of the entity detail.
    ///
    /// Enter starts a filter on the column under the cursor, with `Equals`
    /// as its operator, adds the filter in progress unless it lacks its value,
    /// opens the row under the cursor, or, in the sections of the order and of
    /// the options, asks the query. F5 asks the query from any section. Tab
    /// leads to the next section; where that is the section of the results, it
    /// asks the query, whose answer is what enters the results. In the section
    /// of the filter, `d`
    /// removes the filter under the cursor, `o` and `O` turn the operator on and
    /// back, the backspace key takes the last character from the value, and any
    /// other character is added to the value while a filter is in progress.
    /// Else the space bar turns the selection of the column under the cursor
    /// over, `a` selects all columns, `c` clears the query, and, in the section
    /// of the results, `n` asks for the next page and `e` for an export.
    pub open spec fn query_key_effect(pre: App, key: Key, post: App, command: Command) -> bool {
        let in_filter = pre.query.mode == QueryMode::Filter;
        if key == Key::Enter {
            match pre.query.mode {
                QueryMode::Columns => {
                    &&& command is Nothing
                    &&& post == (App {
                        query: GuidedQueryState {
                            filter_attr: Some(pre.query.column_index),
                            filter_op: FilterOp::Equals,
                            mode: QueryMode::Filter,
                            ..pre.query
                        },
                        ..pre
                    })
                },
                QueryMode::Filter => command is Nothing && App::filter_added(pre, post),
                QueryMode::Results => command is Nothing && post == pre.with_record_entered(),
                _ => (command is Nothing || command is ExecuteQuery) && App::guided_query_asked(
                    pre,
                    post,
                    command.query_url(),
                ),
            }
        } else if key == Key::F(5) {
            (command is Nothing || command is ExecuteQuery) && App::guided_query_asked(
                pre,
                post,
                command.query_url(),
            )
        } else if key == Key::Tab {
            if pre.query.mode.leads_to_results() {
                (command is Nothing || command is ExecuteQuery) && App::guided_query_asked(
                    pre,
                    post,
                    command.query_url(),
                )
            } else {
                &&& command is Nothing
                &&& post == (App {
                    query: GuidedQueryState { mode: pre.query.mode.following(), ..pre.query },
                    ..pre
                })
            }
        } else if key == Key::Char('d') {
            &&& command is Nothing
            &&& if in_filter {
                App::filter_removed(pre, post)
            } else {
                post == pre
            }
        } else if key == Key::Char('o') {
            &&& command is Nothing
            &&& post == if in_filter {
                App {
                    query: GuidedQueryState {
                        filter_op: pre.query.filter_op.successor(),
                        ..pre.query
                    },
                    ..pre
                }
            } else {
                pre
            }
        } else if key == Key::Char('O') {
            &&& command is Nothing
            &&& post == if in_filter {
                App {
                    query: GuidedQueryState {
                        filter_op: pre.query.filter_op.predecessor(),
                        ..pre.query
                    },
                    ..pre
                }
            } else {
                pre
            }
        } else if key == Key::Backspace {
            &&& command is Nothing
            &&& if in_filter {
                &&& post.query.filter_value@ == without_last(pre.query.filter_value@)
                &&& post == (App {
                    query: GuidedQueryState {
                        filter_value: post.query.filter_value,
                        ..pre.query
                    },
                    ..pre
                })
            } else {
                post == pre
            }
        } else if let Key::Char(c) = key {
            if in_filter && pre.query.filter_attr is Some {
                &&& command is Nothing
                &&& post.query.filter_value@ == pre.query.filter_value@.push(c)
                &&& post == (App {
                    query: GuidedQueryState {
                        filter_value: post.query.filter_value,
                        ..pre.query
                    },
                    ..pre
                })
            } else if c == ' ' {
                command is Nothing && App::column_toggled(pre, post)
            } else if c == 'a' {
                command is Nothing && App::all_columns_selected(pre, post)
            } else if c == 'c' {
                command is Nothing && App::query_cleared(pre, post)
            } else if c == 'n' {
                if pre.query.mode == QueryMode::Results {
                    (command is Nothing || command is LoadNextPage) && App::next_page_asked(
                        pre,
                        post,
                        command.page_link(),
                    )
                } else {
                    command is Nothing && post == pre
                }
            } else if c == 'e' {
                &&& post == pre
                &&& if pre.query.mode == QueryMode::Results {
                    command is Export
                } else {
                    command is Nothing
                }
            } else {
                command is Nothing && post == pre
            }
        } else {
            command is Nothing && post == pre
        }
    }

    /// Asks the guided query.
    fn query_command(&mut self) -> (command: Command)
        ensures
            command is Nothing || command is ExecuteQuery,
            App::guided_query_asked(*old(self), *final(self), command.query_url()),
    {
        match self.execute_guided_query() {
            Some(url) => Command::ExecuteQuery(url),
            None => Command::Nothing,
        }
    }

    /// Takes a key in the query tab of the entity detail.
    pub fn handle_query_key(&mut self, key: Key) -> (command: Command)
        ensures
            App::query_key_effect(*old(self), key, *final(self), command),
    {
        match key {
            Key::Enter => {
                match self.query.mode {
                    QueryMode::Columns => {
                        // Start adding filter for selected column
                        self.query.begin_filter();
                        Command::Nothing
                    },
                    QueryMode::Filter => {
                        // Add current filter
                        self.add_filter();
                        Command::Nothing
                    },
                    QueryMode::Results => {
                        self.enter_record_detail();
                        Command::Nothing
                    },
                    _ => {
                        // Execute query in other modes
                        self.query_command()
                    },
                }
            },
            Key::Char('d') => {
                if self.query.mode == QueryMode::Filter {
                    self.remove_filter();
                }
                Command::Nothing
            },
            Key::Char('o') => {
                if self.query.mode == QueryMode::Filter {
                    self.query.filter_op = self.query.filter_op.next();
                }
                Command::Nothing
            },
            Key::Char('O') => {
                if self.query.mode == QueryMode::Filter {
                    self.query.filter_op = self.query.filter_op.prev();
                }
                Command::Nothing
            },
            Key::Backspace => {
                if self.query.mode == QueryMode::Filter {
                    self.query.filter_value = remove_last(self.query.filter_value.as_str());
                }
                Command::Nothing
            },
            Key::Char(c) => {
                if self.query.mode == QueryMode::Filter && self.query.filter_attr.is_some() {
                    push_char(&mut self.query.filter_value, c);
                    Command::Nothing
                } else if c == ' ' {
                    self.toggle_query_column();
                    Command::Nothing
                } else if c == 'a' {
                    self.select_all_columns();
                    Command::Nothing
                } else if c == 'c' {
                    self.clear_query();
                    Command::Nothing
                } else if c == 'n' {
                    if self.query.mode == QueryMode::Results {
                        match self.load_next_page() {
                            Some(link) => Command::LoadNextPage(link),
                            None => Command::Nothing,
                        }
                    } else {
                        Command::Nothing
                    }
                } else if c == 'e' {
                    if self.query.mode == QueryMode::Results {
                        Command::Export
                    } else {
                        Command::Nothing
                    }
                } else {
                    Command::Nothing
                }
            },
            Key::F(5) => self.query_command(),
            Key::Tab => {
                // Switch query mode; the results are entered by asking
                if self.query.next_section() {
                    self.query_command()
                } else {
                    Command::Nothing
                }
            },
            _ => Command::Nothing,
        }
    }
}

impl App {
    /// The job under the cursor, by its place among the jobs.
    pub open spec fn job_under_cursor(&self) -> Option<int> {
        pointed(self.filtered_system_jobs@, self.system_job_index, self.system_jobs@.len())
    }

    /// The environment under the cursor, by its place.
    pub open spec fn environment_under_cursor(&self) -> Option<int> {
        if self.environment_index < self.config.environments@.len() {
            Some(self.environment_index as int)
        } else {
            None
        }
    }

    /// Whether `post` and `command` are what the enter key makes of `pre`
    /// outside the query tab: what is under the cursor is opened, and what that
    /// needs is asked to be loaded.
    pub open spec fn enter_effect(pre: App, post: App, command: Command) -> bool {
        match pre.view {
            view::View::Entities => match pre.entity_under_cursor() {
                Some(at) => {
                    &&& App::entered_entity(pre, post)
                    &&& command matches Command::OpenEntity(name)
                    &&& name@ == pre.entities@[at].logical_name@
                },
                None => command is Nothing && post == pre,
            },
            view::View::Users => match pre.user_under_cursor() {
                Some(at) => {
                    &&& App::entered_user(pre, post)
                    &&& command matches Command::OpenUser(id)
                    &&& id@ == pre.users@[at].id@
                },
                None => command is Nothing && post == pre,
            },
            view::View::Solutions => match pre.solution_under_cursor() {
                Some(at) => {
                    &&& App::entered_solution(pre, post)
                    &&& command matches Command::OpenSolution(id)
                    &&& id@ == pre.solutions@[at].solution_id@
                },
                None => command is Nothing && post == pre,
            },
            view::View::GlobalSearch => (command is Nothing || command is OpenSearchResult)
                && App::search_result_entered(pre, post, command.search_target()),
            view::View::Environments => {
                &&& post == pre
                &&& match pre.environment_under_cursor() {
                    Some(at) => command matches Command::SwitchEnvironment(url) && url@
                        == pre.config.environments@[at]@,
                    None => command is Nothing,
                }
            },
            view::View::SolutionDetail => {
                &&& post == pre
                &&& match pre.component_entity() {
                    Some(at) => command matches Command::JumpToComponent(name) && name@
                        == pre.entities@[at].logical_name@,
                    None => command is Nothing,
                }
            },
            view::View::RecordDetail => (command is Nothing || command is OpenRelatedRecord)
                && App::related_record_asked(pre, post, command.related_record()),
            view::View::SystemJobs => match pre.job_under_cursor() {
                Some(at) => {
                    &&& post == (App {
                        selected_system_job: Some(pre.system_jobs@[at]),
                        view: view::View::SystemJobDetail,
                        ..pre
                    })
                    &&& command matches Command::OpenSystemJob(id)
                    &&& id@ == pre.system_jobs@[at].id@
                },
                None => command is Nothing && post == pre,
            },
            _ => command is Nothing && post == pre,
        }
    }

    /// Takes the enter key outside the query tab.
    pub fn handle_enter(&mut self) -> (command: Command)
        ensures
            App::enter_effect(*old(self), *final(self), command),
    {
        match self.view {
            view::View::Entities => {
                let name = match self.get_selected_entity() {
                    Some(entity) => entity.logical_name.clone(),
                    None => {
                        return Command::Nothing;
                    },
                };
                self.enter_entity_detail();
                Command::OpenEntity(name)
            },
            view::View::Users => {
                let id = match self.get_selected_user() {
                    Some(user) => user.id.clone(),
                    None => {
                        return Command::Nothing;
                    },
                };
                self.enter_user_detail();
                Command::OpenUser(id)
            },
            view::View::Solutions => {
                let id = match self.get_selected_solution() {
                    Some(solution) => solution.solution_id.clone(),
                    None => {
                        return Command::Nothing;
                    },
                };
                self.enter_solution_detail();
                Command::OpenSolution(id)
            },
            view::View::GlobalSearch => match self.enter_search_result() {
                Some(target) => Command::OpenSearchResult(target),
                None => Command::Nothing,
            },
            view::View::Environments => {
                if self.environment_index < self.config.environments.len() {
                    Command::SwitchEnvironment(
                        self.config.environments[self.environment_index].clone(),
                    )
                } else {
                    Command::Nothing
                }
            },
            view::View::SolutionDetail => match self.jump_to_component() {
                Some(name) => Command::JumpToComponent(name),
                None => Command::Nothing,
            },
            view::View::RecordDetail => match self.navigate_to_related_record() {
                Some(record) => Command::OpenRelatedRecord(record),
                None => Command::Nothing,
            },
            view::View::SystemJobs => {
                match pointed_index(
                    &self.filtered_system_jobs,
                    self.system_job_index,
                    self.system_jobs.len(),
                ) {
                    Some(at) => {
                        let job = self.system_jobs[at].clone();
                        let id = job.id.clone();
                        self.selected_system_job = Some(job);
                        self.view = view::View::SystemJobDetail;
                        Command::OpenSystemJob(id)
                    },
                    None => Command::Nothing,
                }
            },
            _ => Command::Nothing,
        }
    }

    /// Whether `post` and `command` are what `key` makes of `pre` in normal
    /// mode. A shortcut that counts in every view comes first; then the keys
    /// that move the cursor and turn the tabs; then, in the query tab, the keys
    /// of the guided query; then the enter key, the key that loads the jobs
    /// anew, and the tab keys.
    pub open spec fn normal_mode_effect(pre: App, key: Key, post: App, command: Command) -> bool {
        if App::is_shortcut(key) {
            App::shortcut_effect(pre, key, post, command)
        } else if pre.key_bindings.moves(key, Key::Up, 'k') {
            command is Nothing && post == pre.after_up()
        } else if pre.key_bindings.moves(key, Key::Down, 'j') {
            command is Nothing && post == pre.after_down()
        } else if pre.key_bindings.moves(key, Key::Left, 'h') {
            command is Nothing && post == pre.after_prev_tab()
        } else if pre.key_bindings.moves(key, Key::Right, 'l') {
            command is Nothing && post == pre.after_next_tab()
        } else if pre.in_query_tab() {
            App::query_key_effect(pre, key, post, command)
        } else if key == Key::Enter {
            App::enter_effect(pre, post, command)
        } else if pre.view == view::View::SystemJobs && (key == Key::Char('r') || key == Key::Char(
            'R',
        )) {
            command is RefreshSystemJobs && post == pre
        } else if key == Key::Tab {
            command is Nothing && post == pre.after_next_tab()
        } else if key == Key::BackTab {
            command is Nothing && post == pre.after_prev_tab()
        } else {
            command is Nothing && post == pre
        }
    }

    /// Handle input in normal mode
    pub fn handle_normal_mode(&mut self, key: Key) -> (command: Command)
        ensures
            App::normal_mode_effect(*old(self), key, *final(self), command),
    {
        // Global shortcuts
        if let Some(command) = self.handle_shortcut(key) {
            return command;
        }
        // Navigation

        if self.key_bindings.is_up(key) {
            self.navigate_up();
            return Command::Nothing;
        }
        if self.key_bindings.is_down(key) {
            self.navigate_down();
            return Command::Nothing;
        }
        if self.key_bindings.is_left(key) {
            self.prev_tab();
            return Command::Nothing;
        }
        if self.key_bindings.is_right(key) {
            self.next_tab();
            return Command::Nothing;
        }
        // Query tab specific keys

        if self.view == view::View::EntityDetail && self.entity_tab == EntityTab::Query {
            return self.handle_query_key(key);
        }
        // Enter to select

        if key == Key::Enter {
            return self.handle_enter();
        }
        // Refresh for System Jobs

        if self.view == view::View::SystemJobs {
            if key == Key::Char('r') || key == Key::Char('R') {
                return Command::RefreshSystemJobs;
            }
        }
        // Tab key for switching tabs

        if key == Key::Tab {
            self.next_tab();
        }
        if key == Key::BackTab {
            self.prev_tab();
        }
        Command::Nothing
    }

    /// Whether `post` is `pre` with the list of the view narrowed by the
    /// search text, or searched everywhere in the view of the search. The jobs
    /// are narrowed only where `jobs` says so.
    pub open spec fn search_applied(pre: App, post: App, jobs: bool) -> bool {
        match pre.view {
            view::View::Entities => App::entities_narrowed(pre, post),
            view::View::EntityDetail => App::attributes_narrowed(pre, post),
            view::View::Solutions => App::solutions_narrowed(pre, post),
            view::View::SolutionDetail => App::components_narrowed(pre, post),
            view::View::Users => App::users_narrowed(pre, post),
            view::View::OptionSets => App::optionsets_narrowed(pre, post),
            view::View::SystemJobs => if jobs {
                App::system_jobs_narrowed(pre, post)
            } else {
                post == pre
            },
            view::View::GlobalSearch => App::searched_everywhere(pre, post),
            _ => post == pre,
        }
    }

    /// Narrows the list of the view by the search text.
    fn apply_search(&mut self, jobs: bool)
        ensures
            App::search_applied(*old(self), *final(self), jobs),
    {
        match self.view {
            view::View::Entities => self.filter_entities(),
            view::View::EntityDetail => self.filter_attributes(),
            view::View::Solutions => self.filter_solutions(),
            view::View::SolutionDetail => self.filter_solution_components(),
            view::View::Users => self.filter_users(),
            view::View::OptionSets => self.filter_optionsets(),
            view::View::SystemJobs => {
                if jobs {
                    self.filter_system_jobs();
                }
            },
            view::View::GlobalSearch => self.execute_global_search(),
            _ => {},
        }
    }

    /// Whether `post` and `command` are what `key` makes of `pre` while a
    /// search text is written. The enter key ends the writing and narrows the
    /// list of the view by the text. The escape key ends the writing, empties the
    /// text, and shows the list of the view in full; the jobs are loaded anew.
    /// The backspace key takes the last character from the text, and a
    /// character key adds its character.
    pub open spec fn search_mode_effect(pre: App, key: Key, post: App, command: Command) -> bool {
        match key {
            Key::Enter => command is Nothing && App::search_applied(
                App { input_mode: InputMode::Normal, ..pre },
                post,
                true,
            ),
            Key::Esc => {
                &&& post.search_query@.len() == 0
                &&& App::search_applied(
                    App { input_mode: InputMode::Normal, search_query: post.search_query, ..pre },
                    post,
                    false,
                )
                &&& if pre.view == view::View::SystemJobs {
                    command is LoadSystemJobs
                } else {
                    command is Nothing
                }
            },
            Key::Backspace => {
                &&& command is Nothing
                &&& post.search_query@ == without_last(pre.search_query@)
                &&& post == (App { search_query: post.search_query, ..pre })
            },
            Key::Char(c) => {
                &&& command is Nothing
                &&& post.search_query@ == pre.search_query@.push(c)
                &&& post == (App { search_query: post.search_query, ..pre })
            },
            _ => command is Nothing && post == pre,
        }
    }

    /// Handle input in search mode
    pub fn handle_search_mode(&mut self, key: Key) -> (command: Command)
        ensures
            App::search_mode_effect(*old(self), key, *final(self), command),
    {
        match key {
            Key::Enter => {
                self.input_mode = InputMode::Normal;
                // Apply filter based on current view
                self.apply_search(true);
                Command::Nothing
            },
            Key::Esc => {
                // Reset filters
                self.input_mode = InputMode::Normal;
                self.search_query = String::new();
                let ghost mid = *self;
                self.apply_search(false);
                proof {
                    assert(self.search_query == mid.search_query);
                }
                if self.view == view::View::SystemJobs {
                    Command::LoadSystemJobs
                } else {
                    Command::Nothing
                }
            },
            Key::Backspace => {
                self.search_query = remove_last(self.search_query.as_str());
                Command::Nothing
            },
            Key::Char(c) => {
                push_char(&mut self.search_query, c);
                Command::Nothing
            },
            _ => Command::Nothing,
        }
    }

    /// Where the cursor of the raw query stands, counted in characters and
    /// never beyond the end of the text.
    pub open spec fn fetchxml_place(&self) -> int {
        if self.fetchxml_cursor <= self.fetchxml_query@.len() {
            self.fetchxml_cursor as int
        } else {
            self.fetchxml_query@.len() as int
        }
    }

    /// Whether `post` and `command` are what `key` makes of `pre` while a raw
    /// query is written. The enter key ends the writing and asks the query. A
    /// character key puts its character at the cursor, which goes one on, as
    /// long as the machine can count that far. The
    /// backspace key takes the character before the cursor away, and the cursor
    /// goes one back. The arrows move the cursor within the text. The escape
    /// key ends the writing and shows the entities.
    pub open spec fn fetchxml_mode_effect(pre: App, key: Key, post: App, command: Command) -> bool {
        match key {
            Key::Enter => {
                &&& command is Nothing || command is ExecuteFetchXml
                &&& post.input_mode == InputMode::Normal
                &&& App::fetch_xml_asked(
                    pre,
                    App { input_mode: pre.input_mode, ..post },
                    command.fetch_xml_endpoint(),
                )
            },
            Key::Char(c) => {
                &&& command is Nothing
                &&& if pre.fetchxml_place() < usize::MAX {
                    &&& post.fetchxml_query@ == with_char_at(
                        pre.fetchxml_query@,
                        pre.fetchxml_place(),
                        c,
                    )
                    &&& post == (App {
                        fetchxml_query: post.fetchxml_query,
                        fetchxml_cursor: (pre.fetchxml_place() + 1) as usize,
                        ..pre
                    })
                } else {
                    post == pre
                }
            },
            Key::Backspace => {
                &&& command is Nothing
                &&& if pre.fetchxml_place() > 0 {
                    &&& post.fetchxml_query@ == without_char_at(
                        pre.fetchxml_query@,
                        pre.fetchxml_place() - 1,
                    )
                    &&& post == (App {
                        fetchxml_query: post.fetchxml_query,
                        fetchxml_cursor: (pre.fetchxml_place() - 1) as usize,
                        ..pre
                    })
                } else {
                    post == pre
                }
            },
            Key::Left => {
                &&& command is Nothing
                &&& post == if pre.fetchxml_cursor > 0 {
                    App { fetchxml_cursor: (pre.fetchxml_cursor - 1) as usize, ..pre }
                } else {
                    pre
                }
            },
            Key::Right => {
                &&& command is Nothing
                &&& post == if pre.fetchxml_cursor < pre.fetchxml_query@.len() {
                    App { fetchxml_cursor: (pre.fetchxml_cursor + 1) as usize, ..pre }
                } else {
                    pre
                }
            },
            Key::Esc => {
                &&& command is Nothing
                &&& post == (App {
                    input_mode: InputMode::Normal,
                    view: view::View::Entities,
                    ..pre
                })
            },
            _ => command is Nothing && post == pre,
        }
    }

    /// Handle input in FetchXML mode
    pub fn handle_fetchxml_mode(&mut self, key: Key) -> (command: Command)
        ensures
            App::fetchxml_mode_effect(*old(self), key, *final(self), command),
    {
        match key {
            Key::Enter => {
                let asked = self.execute_fetch_xml_query();
                let ghost mid = *self;
                self.input_mode = InputMode::Normal;
                proof {
                    assert(mid == (App { input_mode: old(self).input_mode, ..*self }));
                }
                match asked {
                    Some(endpoint) => Command::ExecuteFetchXml(endpoint),
                    None => Command::Nothing,
                }
            },
            Key::Char(c) => {
                let len = self.fetchxml_query.as_str().unicode_len();
                let at = if self.fetchxml_cursor <= len {
                    self.fetchxml_cursor
                } else {
                    len
                };
                if at < usize::MAX {
                    self.fetchxml_query = insert_char(self.fetchxml_query.as_str(), at, c);
                    self.fetchxml_cursor = at + 1;
                }
                Command::Nothing
            },
            Key::Backspace => {
                let len = self.fetchxml_query.as_str().unicode_len();
                let at = if self.fetchxml_cursor <= len {
                    self.fetchxml_cursor
                } else {
                    len
                };
                if at > 0 {
                    self.fetchxml_query = remove_char(self.fetchxml_query.as_str(), at - 1);
                    self.fetchxml_cursor = at - 1;
                }
                Command::Nothing
            },
            Key::Left => {
                if self.fetchxml_cursor > 0 {
                    self.fetchxml_cursor -= 1;
                }
                Command::Nothing
            },
            Key::Right => {
                if self.fetchxml_cursor < self.fetchxml_query.as_str().unicode_len() {
                    self.fetchxml_cursor += 1;
                }
                Command::Nothing
            },
            Key::Esc => {
                self.input_mode = InputMode::Normal;
                self.view = view::View::Entities;
                Command::Nothing
            },
            _ => Command::Nothing,
        }
    }

    /// Whether `post` and `command` are what pressing `key` makes of `pre`:
    /// the message shown is taken away, and the key is taken in the mode that
    /// the explorer is in.
    pub open spec fn key_effect(pre: App, key: Key, post: App, command: Command) -> bool {
        let cleared = App { message: None, ..pre };
        match pre.input_mode {
            InputMode::Normal => App::normal_mode_effect(cleared, key, post, command),
            InputMode::Search => App::search_mode_effect(cleared, key, post, command),
            InputMode::FetchXML => App::fetchxml_mode_effect(cleared, key, post, command),
        }
    }

    /// Takes a key that was pressed.
    pub fn handle_key(&mut self, key: Key) -> (command: Command)
        ensures
            App::key_effect(*old(self), key, *final(self), command),
    {
        // Clear any global message on any keypress
        self.message = None;
        match self.input_mode {
            InputMode::Normal => self.handle_normal_mode(key),
            InputMode::Search => self.handle_search_mode(key),
            InputMode::FetchXML => self.handle_fetchxml_mode(key),
        }
    }
}

} // verus!
