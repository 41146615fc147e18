use rynamo::json::JsonValue;
use rynamo::models::{
    AttributeMetadata, EntityMetadata, OptionSetMetadata, RelationshipMetadata, SecurityRole,
    Solution, SolutionComponent, SolutionComponentLayer, SystemJob, SystemUser, Team,
};
use rynamo::ui::events::Command;
use rynamo::ui::navigate::Focus;
use rynamo::ui::requests::SearchTarget;
use rynamo::ui::{
    App, AppState, EntityTab, FilterOp, InputMode, Key, KeyBindings, QueryMode, SearchResult,
    UserTab, View,
};

fn entity(name: &str, set: Option<&str>) -> EntityMetadata {
    EntityMetadata {
        metadata_id: format!("ID-{}", name),
        logical_name: name.to_string(),
        schema_name: None,
        display_name: None,
        description: None,
        primary_id_attribute: None,
        primary_name_attribute: None,
        entity_set_name: set.map(String::from),
        is_custom_entity: None,
        is_managed: None,
        object_type_code: None,
    }
}

fn attribute(name: &str) -> AttributeMetadata {
    AttributeMetadata {
        metadata_id: format!("attr-{}", name),
        logical_name: name.to_string(),
        schema_name: None,
        display_name: None,
        description: None,
        attribute_type: None,
        attribute_type_name: None,
        required_level: None,
        is_custom_attribute: None,
        is_primary_id: None,
        is_primary_name: None,
        max_length: None,
    }
}

fn solution(name: &str) -> Solution {
    Solution {
        solution_id: format!("sol-{}", name),
        unique_name: name.to_string(),
        friendly_name: None,
        version: None,
        is_managed: None,
        description: None,
        installed_on: None,
    }
}

fn user(name: &str) -> SystemUser {
    SystemUser {
        id: format!("user-{}", name),
        full_name: Some(name.to_string()),
        domain_name: None,
        email: Some(format!("{}@contoso.com", name)),
        is_disabled: None,
        business_unit: None,
        title: None,
        created_on: None,
    }
}

fn job(name: &str, status: i32) -> SystemJob {
    SystemJob {
        id: format!("job-{}", name),
        name: Some(name.to_string()),
        operation_type: None,
        status_code: Some(status),
        state_code: None,
        started_on: None,
        completed_on: None,
        created_on: None,
        created_by: None,
        created_by_name: None,
        message: None,
        friendly_message: None,
        regarding_object_id: None,
        regarding_object_name: None,
        regarding_object_type: None,
    }
}

fn optionset(name: &str) -> OptionSetMetadata {
    OptionSetMetadata {
        metadata_id: format!("os-{}", name),
        name: name.to_string(),
        display_name: None,
        description: None,
        is_global: None,
        option_set_type: None,
        options: None,
    }
}

fn role(name: &str) -> SecurityRole {
    SecurityRole { id: format!("role-{}", name), name: name.to_string(), business_unit: None, is_managed: None }
}

fn team(name: &str) -> Team {
    Team { id: format!("team-{}", name), name: name.to_string(), team_type: None, description: None, is_default: None }
}

fn text(s: &str) -> JsonValue {
    JsonValue::String(s.to_string())
}

fn object(members: Vec<(&str, JsonValue)>) -> JsonValue {
    JsonValue::Object(members.into_iter().map(|(k, v)| (k.to_string(), v)).collect())
}

fn page(names: &[&str], next: Option<&str>) -> JsonValue {
    let records = names.iter().map(|n| object(vec![("name", text(n))])).collect();
    let mut members = vec![("value", JsonValue::Array(records))];
    if let Some(link) = next {
        members.push(("@odata.nextLink", text(link)));
    }
    object(members)
}

/// An explorer that looks at the query tab of the entity `account`, which has
/// the attributes `accountid`, `name` and `revenue`.
fn in_query_tab() -> App {
    let mut app = App::new(KeyBindings::Arrows);
    app.load_entities(Ok(vec![entity("contact", None), entity("account", Some("accounts"))]));
    assert_eq!(app.handle_key(Key::Enter), open_entity("account"));
    app.begin_loading();
    app.load_entity_detail(
        Ok(vec![attribute("revenue"), attribute("accountid"), attribute("name")]),
        None,
        None,
        None,
    );
    app.entity_tab = EntityTab::Query;
    app
}

fn open_entity(name: &str) -> CommandSeen {
    CommandSeen::OpenEntity(name.to_string())
}

/// What a command asks, written so that two can be compared.
#[derive(Debug, PartialEq)]
enum CommandSeen {
    Nothing,
    Simple(&'static str),
    Layers(String, i32),
    Query(String),
    NextPage(String),
    OpenEntity(String),
    OpenUser(String),
    OpenSolution(String),
    SearchEntity(usize, String),
    SearchSolution(usize, String),
    SearchOptionSet,
    Switch(String),
    Jump(String),
    Related(usize, String, String),
    Job(String),
    FetchXml(String),
}

impl PartialEq<CommandSeen> for Command {
    fn eq(&self, other: &CommandSeen) -> bool {
        seen(self) == *other
    }
}

fn seen(command: &Command) -> CommandSeen {
    match command {
        Command::Nothing => CommandSeen::Nothing,
        Command::LoadSolutions => CommandSeen::Simple("solutions"),
        Command::LoadUsers => CommandSeen::Simple("users"),
        Command::LoadOptionSets => CommandSeen::Simple("optionsets"),
        Command::LoadSystemJobs => CommandSeen::Simple("jobs"),
        Command::RefreshSystemJobs => CommandSeen::Simple("refresh"),
        Command::DiscoverEnvironments => CommandSeen::Simple("discover"),
        Command::Export => CommandSeen::Simple("export"),
        Command::LoadSolutionLayers { component_id, component_type } => {
            CommandSeen::Layers(component_id.clone(), *component_type)
        }
        Command::ExecuteQuery(url) => CommandSeen::Query(url.clone()),
        Command::LoadNextPage(link) => CommandSeen::NextPage(link.clone()),
        Command::OpenEntity(name) => CommandSeen::OpenEntity(name.clone()),
        Command::OpenUser(id) => CommandSeen::OpenUser(id.clone()),
        Command::OpenSolution(id) => CommandSeen::OpenSolution(id.clone()),
        Command::OpenSearchResult(SearchTarget::Entity { index, logical_name }) => {
            CommandSeen::SearchEntity(*index, logical_name.clone())
        }
        Command::OpenSearchResult(SearchTarget::Solution { index, solution_id }) => {
            CommandSeen::SearchSolution(*index, solution_id.clone())
        }
        Command::OpenSearchResult(SearchTarget::OptionSet) => CommandSeen::SearchOptionSet,
        Command::SwitchEnvironment(url) => CommandSeen::Switch(url.clone()),
        Command::JumpToComponent(name) => CommandSeen::Jump(name.clone()),
        Command::OpenRelatedRecord(record) => {
            CommandSeen::Related(record.entity_index, record.logical_name.clone(), record.id.clone())
        }
        Command::OpenSystemJob(id) => CommandSeen::Job(id.clone()),
        Command::ExecuteFetchXml(endpoint) => CommandSeen::FetchXml(endpoint.clone()),
    }
}

fn type_text(app: &mut App, text: &str) {
    for c in text.chars() {
        assert_eq!(app.handle_key(Key::Char(c)), CommandSeen::Nothing);
    }
}

#[test]
fn a_new_explorer_is_loading_the_entities() {
    let app = App::new(KeyBindings::Vim);
    assert_eq!(app.state, AppState::Loading);
    assert_eq!(app.view, View::Entities);
    assert_eq!(app.key_bindings, KeyBindings::Vim);
    assert_eq!(app.input_mode, InputMode::Normal);
    assert_eq!(app.query.mode, QueryMode::Columns);
    assert_eq!(app.query.top, Some(50));
    assert_eq!(app.query.filter_op, FilterOp::Equals);
    assert!(app.entities.is_empty());
    assert!(!app.should_quit);
    assert_eq!(app.current_focus(), Focus::Entities);
    assert_eq!(View::default(), View::Entities);
    assert_eq!(AppState::default(), AppState::Loading);
    assert_eq!(EntityTab::default(), EntityTab::Attributes);
    assert_eq!(UserTab::default(), UserTab::DirectRoles);
    assert_eq!(KeyBindings::default(), KeyBindings::Arrows);
    assert_eq!(InputMode::default(), InputMode::Normal);
}

#[test]
fn keys_that_move() {
    let arrows = KeyBindings::Arrows;
    let vim = KeyBindings::Vim;
    assert!(arrows.is_up(Key::Up) && vim.is_up(Key::Up));
    assert!(vim.is_up(Key::Char('k')) && !arrows.is_up(Key::Char('k')));
    assert!(arrows.is_down(Key::Down) && vim.is_down(Key::Char('j')));
    assert!(!arrows.is_down(Key::Char('j')) && !vim.is_down(Key::Up));
    assert!(arrows.is_left(Key::Left) && vim.is_left(Key::Char('h')));
    assert!(!arrows.is_left(Key::Char('h')));
    assert!(arrows.is_right(Key::Right) && vim.is_right(Key::Char('l')));
    assert!(!arrows.is_right(Key::Char('l')) && !vim.is_right(Key::Enter));
}

#[test]
fn entities_are_sorted_when_loaded() {
    let mut app = App::new(KeyBindings::Arrows);
    app.load_entities(Ok(vec![entity("contact", None), entity("account", None), entity("lead", None)]));
    let names: Vec<&str> = app.entities.iter().map(|e| e.logical_name.as_str()).collect();
    assert_eq!(names, vec!["account", "contact", "lead"]);
    assert_eq!(app.filtered_entities, vec![0, 1, 2]);
    assert_eq!(app.state, AppState::Ready);
    assert_eq!(app.get_selected_entity().unwrap().logical_name, "account");
}

#[test]
fn a_failed_load_shows_the_error() {
    let mut app = App::new(KeyBindings::Arrows);
    app.load_entities(Err("timeout".to_string()));
    assert_eq!(app.state, AppState::Error);
    assert_eq!(app.error.as_deref(), Some("Failed to load entities: timeout"));
    app.begin_loading();
    assert_eq!(app.state, AppState::Loading);
    assert_eq!(app.error, None);
    app.load_solutions(Err("x".to_string()));
    assert_eq!(app.error.as_deref(), Some("Failed to load solutions: x"));
    app.load_users(Err("x".to_string()));
    assert_eq!(app.error.as_deref(), Some("Failed to load users: x"));
    app.load_system_jobs(Err("x".to_string()));
    assert_eq!(app.error.as_deref(), Some("Failed to load system jobs: x"));
    app.load_solution_detail(Err("x".to_string()));
    assert_eq!(app.error.as_deref(), Some("Failed to load solution components: x"));
    app.load_global_optionsets(Err("x".to_string()));
    assert_eq!(app.error.as_deref(), Some("Failed to load global option sets: x"));
    assert_eq!(app.state, AppState::Error);
    app.load_solution_layers(Err("x".to_string()));
    assert_eq!(app.error.as_deref(), Some("Failed to load solution layers: x"));
    assert_eq!(app.state, AppState::Ready);
    app.load_entity_detail(Err("x".to_string()), None, None, None);
    assert_eq!(app.error.as_deref(), Some("Failed to load attributes: x"));
    assert_eq!(app.state, AppState::Error);
    assert!(!app.user_roles_loaded(Err("x".to_string())));
    assert_eq!(app.error.as_deref(), Some("Failed to load user roles: x"));
    assert!(!app.user_teams_loaded(Err("x".to_string())));
    assert_eq!(app.error.as_deref(), Some("Failed to load user teams: x"));
}

#[test]
fn the_cursor_stays_within_the_list() {
    let mut app = App::new(KeyBindings::Arrows);
    app.navigate_down();
    assert_eq!(app.entity_index, 0);
    app.load_entities(Ok(vec![entity("a", None), entity("b", None), entity("c", None)]));
    app.navigate_up();
    assert_eq!(app.entity_index, 0);
    app.navigate_down();
    app.navigate_down();
    assert_eq!(app.entity_index, 2);
    app.navigate_down();
    assert_eq!(app.entity_index, 2);
    app.navigate_up();
    assert_eq!(app.entity_index, 1);
    assert_eq!(app.handle_key(Key::Down), CommandSeen::Nothing);
    assert_eq!(app.entity_index, 2);
    assert_eq!(app.handle_key(Key::Up), CommandSeen::Nothing);
    assert_eq!(app.entity_index, 1);
}

#[test]
fn each_view_moves_its_own_cursor() {
    let mut app = in_query_tab();
    app.apply_rows_for_test();
    assert_eq!(app.current_focus(), Focus::QueryColumns);
    app.navigate_down();
    assert_eq!(app.query.column_index, 1);
    app.query.mode = QueryMode::Results;
    assert_eq!(app.current_focus(), Focus::QueryResults);
    app.navigate_down();
    assert_eq!(app.query.result_index, 1);
    app.navigate_down();
    assert_eq!(app.query.result_index, 1);
    app.query.mode = QueryMode::Options;
    assert_eq!(app.current_focus(), Focus::Nothing);
    app.navigate_down();
    app.navigate_up();
    assert_eq!(app.query.column_index, 1);
    assert_eq!(app.query.result_index, 1);
    app.entity_tab = EntityTab::Relationships;
    app.one_to_many = vec![relationship(), relationship()];
    app.many_to_many = vec![relationship()];
    for expected in [1, 2, 2] {
        app.navigate_down();
        assert_eq!(app.relationship_index, expected);
    }
    app.view = View::RecordDetail;
    assert_eq!(app.current_focus(), Focus::RecordFields);
    app.navigate_down();
    assert_eq!(app.record_detail_index, 0);
}

fn relationship() -> RelationshipMetadata {
    RelationshipMetadata {
        schema_name: None,
        referencing_entity: None,
        referencing_attribute: None,
        referenced_entity: None,
        referenced_attribute: None,
        entity1_logical_name: None,
        entity2_logical_name: None,
        intersect_entity_name: None,
    }
}

trait ForTest {
    fn apply_rows_for_test(&mut self);
}

impl ForTest for App {
    fn apply_rows_for_test(&mut self) {
        self.guided_query_answered(&page(&["a", "b"], Some("next")), "raw".to_string());
        self.query.mode = QueryMode::Columns;
    }
}

#[test]
fn a_step_down_near_the_end_of_the_jobs_asks_for_more() {
    let mut app = App::new(KeyBindings::Arrows);
    let jobs: Vec<SystemJob> = (0..8).map(|i| job(&format!("job {}", i), 30)).collect();
    app.load_system_jobs(Ok((jobs, Some("more".to_string()))));
    app.view = View::SystemJobs;
    app.navigate_down();
    app.navigate_down();
    assert!(!app.should_load_more_jobs);
    assert_eq!(app.take_more_jobs_request(), None);
    app.navigate_down();
    assert_eq!(app.system_job_index, 3);
    assert!(app.should_load_more_jobs);
    assert_eq!(app.take_more_jobs_request().as_deref(), Some("more"));
    assert!(!app.should_load_more_jobs);
    app.load_more_system_jobs(Ok((vec![job("late", 31)], None)));
    assert_eq!(app.system_jobs.len(), 9);
    assert_eq!(app.filtered_system_jobs.len(), 9);
    assert_eq!(app.system_job_index, 0);
    assert_eq!(app.system_jobs_next_link, None);
    app.load_more_system_jobs(Err("gone".to_string()));
    assert_eq!(app.error.as_deref(), Some("Failed to load more jobs: gone"));
    assert_eq!(app.message.as_deref(), Some("Error loading more: gone"));
    assert_eq!(app.system_jobs.len(), 9);
}

#[test]
fn tabs_turn_in_both_directions() {
    let mut app = App::new(KeyBindings::Arrows);
    app.next_tab();
    assert_eq!(app.entity_tab, EntityTab::Attributes);
    app.view = View::EntityDetail;
    for expected in [EntityTab::Relationships, EntityTab::Metadata, EntityTab::Query, EntityTab::Attributes] {
        app.next_tab();
        assert_eq!(app.entity_tab, expected);
    }
    for expected in [EntityTab::Query, EntityTab::Metadata, EntityTab::Relationships, EntityTab::Attributes] {
        app.prev_tab();
        assert_eq!(app.entity_tab, expected);
    }
    app.view = View::UserDetail;
    app.user_role_index = 3;
    app.user_team_index = 2;
    app.next_tab();
    assert_eq!(app.user_tab, UserTab::Teams);
    assert_eq!((app.user_role_index, app.user_team_index), (0, 0));
    app.prev_tab();
    app.prev_tab();
    assert_eq!(app.user_tab, UserTab::Info);
    assert_eq!(app.handle_key(Key::Tab), CommandSeen::Nothing);
    assert_eq!(app.user_tab, UserTab::DirectRoles);
    assert_eq!(app.handle_key(Key::BackTab), CommandSeen::Nothing);
    assert_eq!(app.user_tab, UserTab::Info);
    assert_eq!(app.handle_key(Key::Right), CommandSeen::Nothing);
    assert_eq!(app.user_tab, UserTab::DirectRoles);
    assert_eq!(app.handle_key(Key::Left), CommandSeen::Nothing);
    assert_eq!(app.user_tab, UserTab::Info);
}

#[test]
fn searching_narrows_the_list_whatever_the_letter_case() {
    let mut app = App::new(KeyBindings::Arrows);
    app.load_entities(Ok(vec![entity("account", None), entity("Contact", None), entity("lead", None)]));
    assert_eq!(app.handle_key(Key::Char('/')), CommandSeen::Nothing);
    assert_eq!(app.input_mode, InputMode::Search);
    type_text(&mut app, "CONTx");
    assert_eq!(app.handle_key(Key::Backspace), CommandSeen::Nothing);
    assert_eq!(app.search_query, "CONT");
    app.entity_index = 1;
    assert_eq!(app.handle_key(Key::Enter), CommandSeen::Nothing);
    assert_eq!(app.input_mode, InputMode::Normal);
    assert_eq!(app.filtered_entities, vec![0]);
    assert_eq!(app.entity_index, 0);
    assert_eq!(app.get_selected_entity().unwrap().logical_name, "Contact");

    assert_eq!(app.handle_key(Key::Char('/')), CommandSeen::Nothing);
    assert_eq!(app.search_query, "");
    type_text(&mut app, "zzz");
    assert_eq!(app.handle_key(Key::Enter), CommandSeen::Nothing);
    assert!(app.filtered_entities.is_empty());
    assert!(app.get_selected_entity().is_none());

    assert_eq!(app.handle_key(Key::Char('/')), CommandSeen::Nothing);
    type_text(&mut app, "a");
    assert_eq!(app.handle_key(Key::Esc), CommandSeen::Nothing);
    assert_eq!(app.search_query, "");
    assert_eq!(app.filtered_entities, vec![0, 1, 2]);
}

#[test]
fn each_list_is_narrowed_by_its_own_texts() {
    let mut app = App::new(KeyBindings::Arrows);
    app.load_solutions(Ok(vec![solution("Core"), solution("Sales")]));
    app.load_users(Ok(vec![user("Ada"), user("Grace")]));
    app.load_system_jobs(Ok((vec![job("Import", 30), job("Export", 31)], None)));
    app.load_global_optionsets(Ok(vec![optionset("statuscode"), optionset("industry")]));
    app.load_solution_detail(Ok(vec![
        SolutionComponent {
            solution_component_id: "c1".to_string(),
            component_type: Some(1),
            object_id: Some("ABC".to_string()),
            root_component_behavior: None,
        },
        SolutionComponent {
            solution_component_id: "c2".to_string(),
            component_type: Some(61),
            object_id: None,
            root_component_behavior: None,
        },
    ]));
    app.search_query = "SAL".to_string();
    app.filter_solutions();
    assert_eq!(app.filtered_solutions, vec![1]);
    app.search_query = "grace@".to_string();
    app.filter_users();
    assert_eq!(app.filtered_users, vec![1]);
    app.search_query = "failed".to_string();
    app.filter_system_jobs();
    assert_eq!(app.filtered_system_jobs, vec![1]);
    app.search_query = "indu".to_string();
    app.filter_optionsets();
    assert_eq!(app.filtered_optionsets, vec![1]);
    app.search_query = "web res".to_string();
    app.filter_solution_components();
    assert_eq!(app.filtered_components, vec![1]);
    app.search_query = "abc".to_string();
    app.filter_solution_components();
    assert_eq!(app.filtered_components, vec![0]);
    app.search_query = String::new();
    app.filter_solution_components();
    assert_eq!(app.filtered_components, vec![0, 1]);
    app.load_entity_detail(Ok(vec![attribute("name"), attribute("revenue")]), None, None, None);
    app.search_query = "REV".to_string();
    app.filter_attributes();
    assert_eq!(app.filtered_attributes, vec![1]);
    assert_eq!(app.get_selected_attribute().unwrap().logical_name, "revenue");
}

#[test]
fn the_search_over_everything_lists_entities_then_solutions_then_option_sets() {
    let mut app = App::new(KeyBindings::Arrows);
    app.load_entities(Ok(vec![entity("account", None), entity("task", None)]));
    app.load_solutions(Ok(vec![solution("Accounting"), solution("Core")]));
    app.load_global_optionsets(Ok(vec![optionset("x"), optionset("accountstatus")]));
    assert_eq!(app.handle_key(Key::Char('g')), CommandSeen::Nothing);
    assert_eq!(app.view, View::GlobalSearch);
    assert_eq!(app.input_mode, InputMode::Search);
    type_text(&mut app, "ACCOUNT");
    assert_eq!(app.handle_key(Key::Enter), CommandSeen::Nothing);
    assert_eq!(
        app.global_search_results,
        vec![SearchResult::Entity(0), SearchResult::Solution(0), SearchResult::OptionSet(1)]
    );
    assert_eq!(app.handle_key(Key::Enter), CommandSeen::SearchEntity(0, "account".to_string()));
    app.search_entity_opened(0);
    assert_eq!(app.view, View::EntityDetail);
    assert_eq!(app.selected_entity.as_ref().unwrap().logical_name, "account");

    app.view = View::GlobalSearch;
    app.global_search_index = 1;
    assert_eq!(app.handle_key(Key::Enter), CommandSeen::SearchSolution(0, "sol-Accounting".to_string()));
    app.search_solution_opened(0);
    assert_eq!(app.view, View::SolutionDetail);
    assert_eq!(app.selected_solution.as_ref().unwrap().unique_name, "Accounting");

    app.view = View::GlobalSearch;
    app.global_search_index = 2;
    assert_eq!(app.handle_key(Key::Enter), CommandSeen::SearchOptionSet);
    assert_eq!(app.view, View::OptionSets);
    assert_eq!(app.optionset_index, 1);

    app.search_query = String::new();
    app.execute_global_search();
    assert!(app.global_search_results.is_empty());
    assert_eq!(app.view, View::OptionSets);
}

#[test]
fn a_guided_query_is_built_step_by_step() {
    let mut app = in_query_tab();
    assert_eq!(app.query.selected_columns, vec![false, false, false]);
    let names: Vec<&str> = app.entity_attributes.iter().map(|a| a.logical_name.as_str()).collect();
    assert_eq!(names, vec!["accountid", "name", "revenue"]);

    // Select `name` and `revenue`.
    assert_eq!(app.handle_key(Key::Down), CommandSeen::Nothing);
    assert_eq!(app.handle_key(Key::Char(' ')), CommandSeen::Nothing);
    assert_eq!(app.handle_key(Key::Down), CommandSeen::Nothing);
    assert_eq!(app.handle_key(Key::Char(' ')), CommandSeen::Nothing);
    assert_eq!(app.query.selected_columns, vec![false, true, true]);

    // Filter on `revenue`: greater than 100.
    assert_eq!(app.handle_key(Key::Enter), CommandSeen::Nothing);
    assert_eq!(app.query.mode, QueryMode::Filter);
    assert_eq!(app.query.filter_attr, Some(2));
    assert_eq!(app.query.filter_op, FilterOp::Equals);
    for _ in 0..5 {
        assert_eq!(app.handle_key(Key::Char('o')), CommandSeen::Nothing);
    }
    assert_eq!(app.query.filter_op, FilterOp::GreaterThan);
    assert_eq!(app.handle_key(Key::Char('O')), CommandSeen::Nothing);
    assert_eq!(app.handle_key(Key::Char('o')), CommandSeen::Nothing);
    type_text(&mut app, "7009");
    assert_eq!(app.handle_key(Key::Backspace), CommandSeen::Nothing);
    assert_eq!(app.query.filter_value, "700");
    assert_eq!(app.handle_key(Key::Enter), CommandSeen::Nothing);
    assert_eq!(app.query.filters.len(), 1);
    assert_eq!(app.query.filter_attr, None);
    assert_eq!(app.query.filter_value, "");

    // On to the options, and ask.
    assert_eq!(app.handle_key(Key::Tab), CommandSeen::Nothing);
    assert_eq!(app.query.mode, QueryMode::Options);
    let asked = app.handle_key(Key::Enter);
    assert_eq!(
        asked,
        CommandSeen::Query("accounts?$select=name,revenue&$filter=revenue gt 700&$top=50".to_string())
    );
    assert_eq!(app.state, AppState::Loading);
    assert_eq!(app.query.mode, QueryMode::Options);

    app.guided_query_answered(&page(&["Contoso", "Fabrikam"], Some("page-2")), "{}".to_string());
    assert_eq!(app.state, AppState::Ready);
    assert_eq!(app.query.mode, QueryMode::Results);
    assert_eq!(app.query.result.rows.len(), 2);
    assert_eq!(app.query.result.raw_json.as_deref(), Some("{}"));

    // The next page, then an export.
    assert_eq!(app.handle_key(Key::Char('n')), CommandSeen::NextPage("page-2".to_string()));
    app.next_page_answered(&page(&["Northwind"], None), "{2}".to_string());
    assert_eq!(app.query.result.rows.len(), 3);
    assert_eq!(app.query.result.next_link, None);
    assert_eq!(app.handle_key(Key::Char('n')), CommandSeen::Nothing);
    assert_eq!(app.state, AppState::Ready);
    assert_eq!(app.handle_key(Key::Char('e')), CommandSeen::Simple("export"));
    let export = app.export_query_results("20240102_030405").unwrap();
    assert_eq!(export.path, "exports/account_20240102_030405.csv");
    assert_eq!(export.content, "name\nContoso\nFabrikam\nNorthwind\n");
    app.export_finished(Ok(export.path));
    assert_eq!(app.message.as_deref(), Some("Exported to exports/account_20240102_030405.csv"));
    app.export_finished(Err("disk full".to_string()));
    assert_eq!(app.message.as_deref(), Some("Export failed: disk full"));

    // A row is opened, and left again.
    assert_eq!(app.handle_key(Key::Down), CommandSeen::Nothing);
    assert_eq!(app.handle_key(Key::Enter), CommandSeen::Nothing);
    assert_eq!(app.view, View::RecordDetail);
    assert_eq!(app.selected_record_index, Some(1));
    assert_eq!(app.handle_key(Key::Esc), CommandSeen::Nothing);
    assert_eq!(app.view, View::EntityDetail);
    assert_eq!(app.selected_record_index, None);
}

#[test]
fn the_query_is_never_asked_without_an_explicit_key() {
    let mut app = in_query_tab();
    for key in [Key::Tab, Key::Tab, Key::Char(' '), Key::Char('a'), Key::Down, Key::Up] {
        assert_eq!(app.handle_key(key), CommandSeen::Nothing);
        assert_eq!(app.state, AppState::Ready);
    }
    assert_eq!(app.query.mode, QueryMode::Options);
    app.query.mode = QueryMode::Columns;
    assert_eq!(
        app.handle_key(Key::F(5)),
        CommandSeen::Query("accounts?$select=accountid,name,revenue&$top=50".to_string())
    );
    assert_eq!(app.handle_key(Key::F(4)), CommandSeen::Nothing);
}

#[test]
fn cancelling_discards_the_filter_in_progress() {
    let mut app = in_query_tab();
    assert_eq!(app.handle_key(Key::Enter), CommandSeen::Nothing);
    type_text(&mut app, "abc");
    assert_eq!(app.query.filter_value, "abc");
    assert_eq!(app.handle_key(Key::Esc), CommandSeen::Nothing);
    assert_eq!(app.query.filter_attr, None);
    assert!(app.query.filters.is_empty());
    assert_eq!(app.view, View::EntityDetail);
    assert_eq!(app.query.mode, QueryMode::Filter);
    // Nothing in progress: enter adds nothing, and escape leads back.
    assert_eq!(app.handle_key(Key::Enter), CommandSeen::Nothing);
    assert!(app.query.filters.is_empty());
    assert_eq!(app.handle_key(Key::Esc), CommandSeen::Nothing);
    assert_eq!(app.view, View::Entities);
}

#[test]
fn filters_are_removed_under_the_cursor() {
    let mut app = in_query_tab();
    for value in ["x", "y"] {
        app.query.mode = QueryMode::Columns;
        assert_eq!(app.handle_key(Key::Enter), CommandSeen::Nothing);
        type_text(&mut app, value);
        assert_eq!(app.handle_key(Key::Enter), CommandSeen::Nothing);
    }
    assert_eq!(app.query.filters.len(), 2);
    assert_eq!(app.handle_key(Key::Down), CommandSeen::Nothing);
    assert_eq!(app.query.filter_index, 1);
    assert_eq!(app.handle_key(Key::Char('d')), CommandSeen::Nothing);
    assert_eq!(app.query.filters.len(), 1);
    assert_eq!(app.query.filters[0].value, "x");
    assert_eq!(app.query.filter_index, 0);
    app.query.mode = QueryMode::Columns;
    assert_eq!(app.handle_key(Key::Char('d')), CommandSeen::Nothing);
    assert_eq!(app.query.filters.len(), 1);
}

#[test]
fn clearing_the_query_resets_the_guided_state() {
    let mut app = in_query_tab();
    assert_eq!(app.handle_key(Key::Char('a')), CommandSeen::Nothing);
    assert_eq!(app.query.selected_columns, vec![true, true, true]);
    assert_eq!(app.handle_key(Key::Enter), CommandSeen::Nothing);
    type_text(&mut app, "x");
    assert_eq!(app.handle_key(Key::Enter), CommandSeen::Nothing);
    app.query.order_by = Some(1);
    app.query.order_desc = true;
    app.query.top = Some(3);
    app.guided_query_answered(&page(&["a"], Some("more")), "raw".to_string());
    app.query.result_index = 0;

    app.clear_query();
    assert_eq!(app.query.selected_columns, vec![false, false, false]);
    assert!(app.query.filters.is_empty());
    assert_eq!(app.query.order_by, None);
    assert!(!app.query.order_desc);
    assert_eq!(app.query.top, Some(50));
    assert!(app.query.result.columns.is_empty());
    assert!(app.query.result.rows.is_empty());
    assert!(app.query.result.lookups.is_empty());
    assert_eq!(app.query.result.next_link, None);
    assert_eq!(app.query.result.error, None);
    assert_eq!(app.query.result.raw_json, None);
    assert_eq!(app.query.mode, QueryMode::Columns);
    assert_eq!(app.selected_entity.as_ref().unwrap().logical_name, "account");

    // The key does the same.
    app.select_all_columns();
    assert_eq!(app.handle_key(Key::Char('c')), CommandSeen::Nothing);
    assert_eq!(app.query.selected_columns, vec![false, false, false]);
    app.select_all_columns();
    app.clear_column_selections();
    assert_eq!(app.query.selected_columns, vec![false, false, false]);
    app.toggle_query_column();
    assert_eq!(app.query.selected_columns, vec![true, false, false]);
}

#[test]
fn another_entity_resets_the_guided_state() {
    let mut app = in_query_tab();
    app.select_all_columns();
    app.guided_query_answered(&page(&["a"], None), "raw".to_string());
    app.load_entity_detail(Ok(vec![attribute("a"), attribute("b")]), Some(vec![relationship()]), None, None);
    assert_eq!(app.query.selected_columns, vec![false, false]);
    assert!(app.query.result.rows.is_empty());
    assert_eq!(app.query.mode, QueryMode::Columns);
    assert_eq!(app.entity_tab, EntityTab::Attributes);
    assert_eq!(app.one_to_many.len(), 1);
    assert_eq!(app.state, AppState::Ready);
}

#[test]
fn a_failed_query_leaves_the_state_for_another_try() {
    let mut app = in_query_tab();
    app.select_all_columns();
    app.query.mode = QueryMode::Options;
    assert!(matches!(app.handle_key(Key::Enter), Command::ExecuteQuery(_)));
    app.guided_query_failed("503");
    assert_eq!(app.query.result.error.as_deref(), Some("Query failed: 503"));
    assert_eq!(app.state, AppState::Ready);
    assert_eq!(app.query.mode, QueryMode::Options);
    assert_eq!(app.query.selected_columns, vec![true, true, true]);
    assert!(matches!(app.handle_key(Key::Enter), Command::ExecuteQuery(_)));

    app.guided_query_answered(&page(&["a"], Some("second-page")), String::new());
    assert_eq!(app.load_next_page().as_deref(), Some("second-page"));
    app.next_page_failed("reset");
    assert_eq!(app.error.as_deref(), Some("Failed to load next page: reset"));
    assert_eq!(app.query.result.rows.len(), 1);
    assert_eq!(app.query.result.next_link.as_deref(), Some("second-page"));
}

#[test]
fn a_query_without_an_entity_is_an_error_of_the_result() {
    let mut app = App::new(KeyBindings::Arrows);
    assert_eq!(app.execute_guided_query(), None);
    assert_eq!(app.query.result.error.as_deref(), Some("No entity selected"));
    assert_eq!(app.state, AppState::Loading);
}

#[test]
fn a_raw_query_is_written_and_asked() {
    let mut app = App::new(KeyBindings::Arrows);
    app.load_entities(Ok(vec![entity("account", Some("accounts"))]));
    assert_eq!(app.handle_key(Key::Char('f')), CommandSeen::Nothing);
    assert_eq!(app.view, View::FetchXML);
    assert_eq!(app.input_mode, InputMode::FetchXML);
    assert_eq!(app.handle_key(Key::Enter), CommandSeen::Nothing);
    assert_eq!(app.input_mode, InputMode::Normal);
    assert_eq!(app.error, None);

    app.input_mode = InputMode::FetchXML;
    type_text(&mut app, "<entity nme='account'/>");
    for _ in 0..14 {
        assert_eq!(app.handle_key(Key::Left), CommandSeen::Nothing);
    }
    assert_eq!(app.handle_key(Key::Char('a')), CommandSeen::Nothing);
    assert_eq!(app.fetchxml_query, "<entity name='account'/>");
    assert_eq!(app.fetchxml_cursor, 10);
    assert_eq!(app.handle_key(Key::Char('q')), CommandSeen::Nothing);
    assert_eq!(app.handle_key(Key::Backspace), CommandSeen::Nothing);
    assert_eq!(app.fetchxml_query, "<entity name='account'/>");
    for _ in 0..40 {
        assert_eq!(app.handle_key(Key::Right), CommandSeen::Nothing);
    }
    assert_eq!(app.fetchxml_cursor, 24);
    let asked = app.handle_key(Key::Enter);
    assert_eq!(
        asked,
        CommandSeen::FetchXml("accounts?fetchXml=%3Centity%20name%3D%27account%27%2F%3E".to_string())
    );
    assert_eq!(app.state, AppState::Loading);
    assert_eq!(app.input_mode, InputMode::Normal);
    app.fetch_xml_answered(&page(&["a"], None));
    assert_eq!(app.view, View::EntityDetail);
    assert_eq!(app.entity_tab, EntityTab::Query);
    assert_eq!(app.query.mode, QueryMode::Results);
    assert_eq!(app.query.result.rows.len(), 1);
    app.fetch_xml_failed("400");
    assert_eq!(app.error.as_deref(), Some("FetchXML execution failed: 400"));
}

#[test]
fn a_raw_query_without_an_entity_fails_closed() {
    let mut app = App::new(KeyBindings::Arrows);
    app.fetchxml_query = "<fetch/>".to_string();
    assert_eq!(app.execute_fetch_xml_query(), None);
    assert_eq!(app.error.as_deref(), Some("Could not find <entity name='...'> in FetchXML"));
    assert_eq!(app.state, AppState::Ready);
    app.fetchxml_query = "<entity name=\"lead\">".to_string();
    assert_eq!(
        app.execute_fetch_xml_query().as_deref(),
        Some("leads?fetchXml=%3Centity%20name%3D%22lead%22%3E")
    );
    app.input_mode = InputMode::FetchXML;
    assert_eq!(app.handle_key(Key::Esc), CommandSeen::Nothing);
    assert_eq!(app.view, View::Entities);
    assert_eq!(app.input_mode, InputMode::Normal);
}

#[test]
fn a_lookup_leads_to_the_related_record() {
    let mut app = in_query_tab();
    let record = object(vec![
        ("_primarycontactid_value", text("c-1")),
        ("_primarycontactid_value@Microsoft.Dynamics.CRM.lookuplogicalname", text("contact")),
        ("_unknown_value", text("u-1")),
        ("_unknown_value@Microsoft.Dynamics.CRM.lookuplogicalname", text("mystery")),
        ("name", text("Contoso")),
    ]);
    app.guided_query_answered(&object(vec![("value", JsonValue::Array(vec![record]))]), String::new());
    assert_eq!(app.handle_key(Key::Enter), CommandSeen::Nothing);
    assert_eq!(app.view, View::RecordDetail);
    assert!(app.selected_lookup().is_some());
    let asked = app.handle_key(Key::Enter);
    assert_eq!(asked, CommandSeen::Related(1, "contact".to_string(), "c-1".to_string()));
    let Command::OpenRelatedRecord(target) = asked else { unreachable!() };

    app.load_entity_detail(Ok(vec![attribute("fullname")]), None, None, None);
    assert_eq!(app.open_related_record(&target).as_deref(), Some("contacts(c-1)"));
    assert_eq!(app.selected_entity.as_ref().unwrap().logical_name, "contact");
    assert_eq!(app.state, AppState::Loading);
    app.related_record_answered(object(vec![("fullname", text("Ada"))]), "raw".to_string());
    assert_eq!(app.view, View::RecordDetail);
    assert_eq!(app.selected_record_index, Some(0));
    assert_eq!(app.query.result.columns, vec!["fullname".to_string()]);
    assert_eq!(app.query.result.rows, vec![vec!["Ada".to_string()]]);
    assert_eq!(app.query.result.raw_json.as_deref(), Some("raw"));
    assert_eq!(app.state, AppState::Ready);
    app.related_record_failed("404");
    assert_eq!(app.error.as_deref(), Some("Failed to fetch related record: 404"));
}

#[test]
fn a_lookup_to_an_unknown_entity_is_an_error() {
    let mut app = in_query_tab();
    let record = object(vec![
        ("_unknown_value", text("u-1")),
        ("_unknown_value@Microsoft.Dynamics.CRM.lookuplogicalname", text("mystery")),
    ]);
    app.guided_query_answered(&object(vec![("value", JsonValue::Array(vec![record]))]), String::new());
    app.enter_record_detail();
    assert!(app.navigate_to_related_record().is_none());
    assert_eq!(app.error.as_deref(), Some("Entity metadata not found for: mystery"));
    app.error = None;
    app.record_detail_index = 1;
    assert!(app.navigate_to_related_record().is_none());
    assert_eq!(app.error, None);
}

#[test]
fn global_shortcuts_switch_views_and_ask_for_what_is_missing() {
    let mut app = App::new(KeyBindings::Arrows);
    assert_eq!(app.handle_key(Key::Char('2')), CommandSeen::Simple("solutions"));
    assert_eq!(app.view, View::Solutions);
    app.load_solutions(Ok(vec![solution("Core")]));
    assert_eq!(app.handle_key(Key::Char('2')), CommandSeen::Nothing);
    assert_eq!(app.handle_key(Key::Char('3')), CommandSeen::Simple("users"));
    assert_eq!(app.view, View::Users);
    assert_eq!(app.handle_key(Key::Char('4')), CommandSeen::Simple("optionsets"));
    assert_eq!(app.view, View::OptionSets);
    assert_eq!(app.handle_key(Key::Char('5')), CommandSeen::Simple("jobs"));
    assert_eq!(app.view, View::SystemJobs);
    assert_eq!(app.handle_key(Key::Char('r')), CommandSeen::Simple("refresh"));
    assert_eq!(app.handle_key(Key::Char('2')), CommandSeen::Nothing);
    assert_eq!(app.view, View::Solutions);
    assert_eq!(app.handle_key(Key::Char('1')), CommandSeen::Nothing);
    assert_eq!(app.view, View::Entities);
    assert_eq!(app.handle_key(Key::Char('D')), CommandSeen::Nothing);
    assert_eq!(app.handle_key(Key::Char('E')), CommandSeen::Nothing);
    assert_eq!(app.view, View::Environments);
    assert_eq!(app.handle_key(Key::Char('D')), CommandSeen::Simple("discover"));
    assert_eq!(app.handle_key(Key::Char('x')), CommandSeen::Nothing);
    assert!(!app.should_quit);
    assert_eq!(app.handle_key(Key::Char('q')), CommandSeen::Nothing);
    assert!(app.should_quit);
}

#[test]
fn q_leads_back_from_a_detail_view() {
    let mut app = App::new(KeyBindings::Arrows);
    app.load_solutions(Ok(vec![solution("Core")]));
    app.view = View::Solutions;
    assert_eq!(app.handle_key(Key::Enter), CommandSeen::OpenSolution("sol-Core".to_string()));
    assert_eq!(app.view, View::SolutionDetail);
    assert_eq!(app.selected_solution.as_ref().unwrap().unique_name, "Core");
    assert_eq!(app.handle_key(Key::Char('q')), CommandSeen::Nothing);
    assert_eq!(app.view, View::Solutions);
    assert!(!app.should_quit);
    app.view = View::SolutionLayers;
    app.go_back();
    assert_eq!(app.view, View::SolutionDetail);
    app.selected_solution = None;
    app.view = View::SolutionLayers;
    app.go_back();
    assert_eq!(app.view, View::Entities);
    app.go_back();
    assert_eq!(app.view, View::Entities);
}

#[test]
fn a_message_is_taken_away_by_any_key() {
    let mut app = App::new(KeyBindings::Arrows);
    app.message = Some("Exported".to_string());
    assert_eq!(app.handle_key(Key::Other), CommandSeen::Nothing);
    assert_eq!(app.message, None);
    app.message = Some("again".to_string());
    app.clear_message();
    assert_eq!(app.message, None);
}

#[test]
fn layers_are_asked_for_what_is_under_the_cursor() {
    let mut app = App::new(KeyBindings::Arrows);
    assert_eq!(app.handle_key(Key::Char('l')), CommandSeen::Nothing);
    app.load_entities(Ok(vec![entity("account", None)]));
    assert_eq!(app.handle_key(Key::Char('l')), CommandSeen::Layers("ID-account".to_string(), 1));
    app.view = View::EntityDetail;
    app.load_entity_detail(Ok(vec![attribute("name")]), None, None, None);
    assert_eq!(app.handle_key(Key::Char('L')), CommandSeen::Layers("attr-name".to_string(), 2));
    app.entity_tab = EntityTab::Metadata;
    assert_eq!(app.handle_key(Key::Char('L')), CommandSeen::Nothing);
    app.view = View::SolutionDetail;
    app.load_solution_detail(Ok(vec![SolutionComponent {
        solution_component_id: "c1".to_string(),
        component_type: Some(61),
        object_id: None,
        root_component_behavior: None,
    }]));
    assert_eq!(app.handle_key(Key::Char('l')), CommandSeen::Layers("c1".to_string(), 61));
    app.load_solution_layers(Ok(vec![SolutionComponentLayer {
        name: "layer".to_string(),
        solution_name: "Core".to_string(),
        order: 1,
        is_managed: true,
    }]));
    assert_eq!(app.view, View::SolutionLayers);
    assert_eq!(app.solution_layers.len(), 1);
}

#[test]
fn a_component_that_is_an_entity_can_be_jumped_to() {
    let mut app = App::new(KeyBindings::Arrows);
    app.load_entities(Ok(vec![entity("account", None), entity("contact", None)]));
    app.view = View::SolutionDetail;
    app.load_solution_detail(Ok(vec![
        SolutionComponent {
            solution_component_id: "c1".to_string(),
            component_type: Some(1),
            object_id: Some("id-CONTACT".to_string()),
            root_component_behavior: None,
        },
        SolutionComponent {
            solution_component_id: "c2".to_string(),
            component_type: Some(2),
            object_id: Some("id-contact".to_string()),
            root_component_behavior: None,
        },
    ]));
    assert_eq!(app.handle_key(Key::Enter), CommandSeen::Jump("contact".to_string()));
    app.open_entity("contact");
    assert_eq!(app.view, View::EntityDetail);
    assert_eq!(app.selected_entity.as_ref().unwrap().logical_name, "contact");
    app.view = View::SolutionDetail;
    app.component_index = 1;
    assert_eq!(app.handle_key(Key::Enter), CommandSeen::Nothing);
    app.open_entity("nothing");
    assert!(app.selected_entity.is_none());
}

#[test]
fn users_jobs_and_environments_are_opened_by_enter() {
    let mut app = App::new(KeyBindings::Arrows);
    app.load_users(Ok(vec![user("Ada")]));
    app.view = View::Users;
    assert_eq!(app.handle_key(Key::Enter), CommandSeen::OpenUser("user-Ada".to_string()));
    assert_eq!(app.view, View::UserDetail);
    assert!(app.user_roles_loaded(Ok(vec![role("Sales"), role("Admin")])));
    assert!(app.user_teams_loaded(Ok(vec![team("A"), team("B")])));
    app.load_user_detail(vec![Some(vec![role("Basic"), role("Admin")]), None]);
    let all: Vec<&str> = app.user_all_roles.iter().map(|a| a.role.name.as_str()).collect();
    assert_eq!(all, vec!["Admin", "Admin", "Basic", "Sales"]);
    assert_eq!(app.user_tab, UserTab::DirectRoles);
    assert_eq!(app.state, AppState::Ready);

    app.load_system_jobs(Ok((vec![job("Import", 30)], None)));
    app.view = View::SystemJobs;
    assert_eq!(app.handle_key(Key::Enter), CommandSeen::Job("job-Import".to_string()));
    assert_eq!(app.view, View::SystemJobDetail);
    assert_eq!(app.selected_system_job.as_ref().unwrap().id, "job-Import");
    app.system_job_loaded(job("Import in full", 31));
    assert_eq!(app.selected_system_job.as_ref().unwrap().get_status_label(), "Failed");

    app.view = View::Environments;
    assert_eq!(app.handle_key(Key::Enter), CommandSeen::Nothing);
    app.config.add_environment("https://a".to_string());
    assert_eq!(app.handle_key(Key::Enter), CommandSeen::Switch("https://a".to_string()));
}

#[test]
fn switching_and_discovering_environments() {
    let mut app = App::new(KeyBindings::Arrows);
    app.switch_environment("https://b");
    assert_eq!(app.message.as_deref(), Some("Connecting to https://b..."));
    assert_eq!(app.state, AppState::Loading);
    assert_eq!(app.connection_failed("denied"), "Connection failed: denied");
    assert_eq!(app.error.as_deref(), Some("Connection failed: denied"));
    assert_eq!(app.state, AppState::Error);
    app.environment_connected("https://b");
    assert_eq!(app.config.current_env.as_deref(), Some("https://b"));
    app.view = View::Environments;
    app.environment_switched("https://b");
    assert_eq!(app.view, View::Entities);
    assert_eq!(app.message.as_deref(), Some("Switched to https://b"));
    assert_eq!(app.state, AppState::Ready);

    app.begin_discovery();
    assert_eq!(app.message.as_deref(), Some("Discovering environments..."));
    app.discover_environments(Ok(vec!["https://x/".to_string(), "https://y".to_string(), "https://x".to_string()]));
    assert_eq!(app.message.as_deref(), Some("Discovered 2 new environments"));
    assert_eq!(app.config.environments, vec!["https://x".to_string(), "https://y".to_string()]);
    app.discover_environments(Err("offline".to_string()));
    assert_eq!(app.error.as_deref(), Some("Discovery failed: offline"));
    assert_eq!(app.state, AppState::Ready);
}

#[test]
fn attribute_usage_is_asked_and_reported() {
    let mut app = in_query_tab();
    app.entity_tab = EntityTab::Attributes;
    app.attribute_index = 1;
    let request = app.show_attribute_usage().unwrap();
    assert_eq!(request.attribute, "name");
    assert_eq!(request.endpoint, "accounts/$count?$filter=name ne null");
    assert_eq!(app.message.as_deref(), Some("Calculating usage for name..."));
    app.attribute_usage_counted("name", 1234);
    assert_eq!(app.message.as_deref(), Some("Attribute 'name' is populated in 1234 records"));
    app.attribute_usage_counted("name", -1);
    assert_eq!(app.message.as_deref(), Some("Attribute 'name' is populated in -1 records"));
    app.attribute_usage_failed("500");
    assert_eq!(app.error.as_deref(), Some("Failed to calculate usage: 500"));
    app.selected_entity = None;
    assert!(app.show_attribute_usage().is_none());
}

#[test]
fn nothing_to_export_is_said_in_the_message() {
    let mut app = App::new(KeyBindings::Arrows);
    assert!(app.export_query_results("t").is_none());
    assert_eq!(app.message.as_deref(), Some("No results to export"));
}

#[test]
fn vim_keys_move_only_with_vim_bindings() {
    let mut app = App::new(KeyBindings::Vim);
    app.load_entities(Ok(vec![entity("a", None), entity("b", None)]));
    assert_eq!(app.handle_key(Key::Char('j')), CommandSeen::Nothing);
    assert_eq!(app.entity_index, 1);
    assert_eq!(app.handle_key(Key::Char('k')), CommandSeen::Nothing);
    assert_eq!(app.entity_index, 0);
    let mut app = App::new(KeyBindings::Arrows);
    app.load_entities(Ok(vec![entity("a", None), entity("b", None)]));
    assert_eq!(app.handle_key(Key::Char('j')), CommandSeen::Nothing);
    assert_eq!(app.entity_index, 0);
}

#[test]
fn stepping_into_the_results_asks_the_query() {
    for before in [QueryMode::Options, QueryMode::OrderBy] {
        let mut app = in_query_tab();
        app.guided_query_answered(&page(&["old"], None), "old".to_string());
        app.query.mode = before;
        let asked = app.handle_key(Key::Tab);
        assert_eq!(asked, CommandSeen::Query("accounts?$top=50".to_string()));
        assert_eq!(app.state, AppState::Loading);
        assert_eq!(app.query.mode, before);

        app.guided_query_answered(&page(&["new", "newer"], None), "new".to_string());
        assert_eq!(app.query.mode, QueryMode::Results);
        assert_eq!(
            app.query.result.rows,
            vec![vec!["new".to_string()], vec!["newer".to_string()]]
        );
        assert_eq!(app.query.result.raw_json.as_deref(), Some("new"));
        assert_eq!(app.state, AppState::Ready);

        // From the results the way leads on to the columns, without a query.
        assert_eq!(app.handle_key(Key::Tab), CommandSeen::Nothing);
        assert_eq!(app.query.mode, QueryMode::Columns);
    }
}

#[test]
fn stepping_into_the_results_without_an_entity_is_an_error() {
    let mut app = in_query_tab();
    app.selected_entity = None;
    app.query.mode = QueryMode::Options;
    assert_eq!(app.handle_key(Key::Tab), CommandSeen::Nothing);
    assert_eq!(app.query.result.error.as_deref(), Some("No entity selected"));
    assert_eq!(app.query.mode, QueryMode::Options);
}

#[test]
fn a_failed_step_into_the_results_stays_in_the_options() {
    let mut app = in_query_tab();
    app.query.mode = QueryMode::Options;
    assert!(matches!(app.handle_key(Key::Tab), Command::ExecuteQuery(_)));
    app.guided_query_failed("503");
    assert_eq!(app.query.mode, QueryMode::Options);
    assert_eq!(app.query.result.error.as_deref(), Some("Query failed: 503"));
    assert_eq!(app.state, AppState::Ready);
}

#[test]
fn confirming_a_column_starts_a_filter_with_equals() {
    let mut app = in_query_tab();
    app.query.filter_op = FilterOp::Contains;
    assert_eq!(app.handle_key(Key::Down), CommandSeen::Nothing);
    assert_eq!(app.handle_key(Key::Enter), CommandSeen::Nothing);
    assert_eq!(app.query.mode, QueryMode::Filter);
    assert_eq!(app.query.filter_attr, Some(1));
    assert_eq!(app.query.filter_op, FilterOp::Equals);
    assert!(app.query.filters.is_empty());
    assert_eq!(app.query.selected_columns, vec![false, false, false]);
    assert_eq!(app.state, AppState::Ready);
}

#[test]
fn enter_does_not_add_a_filter_that_lacks_its_value() {
    let mut app = in_query_tab();
    assert_eq!(app.handle_key(Key::Enter), CommandSeen::Nothing);
    assert_eq!(app.handle_key(Key::Enter), CommandSeen::Nothing);
    assert!(app.query.filters.is_empty());
    assert_eq!(app.query.filter_attr, Some(0));
    app.add_filter();
    assert!(app.query.filters.is_empty());

    // An operator that takes no value needs none.
    for _ in 0..7 {
        assert_eq!(app.handle_key(Key::Char('o')), CommandSeen::Nothing);
    }
    assert_eq!(app.query.filter_op, FilterOp::IsNull);
    assert_eq!(app.handle_key(Key::Enter), CommandSeen::Nothing);
    assert_eq!(app.query.filters.len(), 1);
    assert_eq!(app.query.filters[0].to_odata(), "accountid eq null");
    assert_eq!(app.query.filter_attr, None);
}
