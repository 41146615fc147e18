use rynamo::json::JsonValue;
use rynamo::models::{AttributeMetadata, EntityMetadata};
use rynamo::ui::{FilterOp, GuidedQueryState, QueryMode};

fn attribute(name: &str) -> AttributeMetadata {
    AttributeMetadata {
        metadata_id: format!("id-{}", name),
        logical_name: name.to_string(),
        schema_name: None,
        display_name: None,
        description: None,
        attribute_type: None,
        attribute_type_name: None,
        required_level: None,
        is_custom_attribute: None,
        is_primary_id: None,
        is_primary_name: None,
        max_length: None,
    }
}

fn entity(name: &str, set: Option<&str>) -> EntityMetadata {
    EntityMetadata {
        metadata_id: format!("id-{}", name),
        logical_name: name.to_string(),
        schema_name: None,
        display_name: None,
        description: None,
        primary_id_attribute: None,
        primary_name_attribute: None,
        entity_set_name: set.map(String::from),
        is_custom_entity: None,
        is_managed: None,
        object_type_code: None,
    }
}

fn page(names: &[&str]) -> JsonValue {
    let records = names
        .iter()
        .map(|n| JsonValue::Object(vec![("name".to_string(), JsonValue::String(n.to_string()))]))
        .collect();
    JsonValue::Object(vec![("value".to_string(), JsonValue::Array(records))])
}

#[test]
fn new_state_starts_in_columns_with_top_fifty() {
    let state = GuidedQueryState::new();
    assert_eq!(state.mode, QueryMode::Columns);
    assert!(state.selected_columns.is_empty());
    assert_eq!(state.top, Some(50));
    assert_eq!(state.order_by, None);
    assert!(!state.order_desc);
    assert!(state.filters.is_empty());
    assert_eq!(state.filter_attr, None);
    assert_eq!(state.filter_op, FilterOp::Equals);
    assert_eq!(state.filter_value, "");
    assert!(state.result.rows.is_empty());
    assert_eq!(QueryMode::default(), QueryMode::Columns);
}

#[test]
fn sections_follow_one_another_in_a_cycle() {
    assert_eq!(QueryMode::Columns.next(), QueryMode::Filter);
    assert_eq!(QueryMode::Filter.next(), QueryMode::Options);
    assert_eq!(QueryMode::Options.next(), QueryMode::Results);
    assert_eq!(QueryMode::Results.next(), QueryMode::Columns);
    assert_eq!(QueryMode::OrderBy.next(), QueryMode::Results);
    let mut state = GuidedQueryState::new();
    assert!(!state.next_section());
    assert_eq!(state.mode, QueryMode::Filter);
    assert!(!state.next_section());
    assert_eq!(state.mode, QueryMode::Options);
    state.mode = QueryMode::Results;
    assert!(!state.next_section());
    assert_eq!(state.mode, QueryMode::Columns);
}

#[test]
fn the_results_are_not_entered_by_stepping_on() {
    for before in [QueryMode::Options, QueryMode::OrderBy] {
        let mut state = GuidedQueryState::new();
        state.mode = before;
        state.apply_failure("earlier".to_string());
        assert!(state.next_section());
        assert_eq!(state.mode, before);
        assert_eq!(state.result.error.as_deref(), Some("earlier"));
        assert!(state.next_section());
        assert_eq!(state.mode, before);
    }
}

#[test]
fn a_new_filter_starts_with_equals() {
    let mut state = GuidedQueryState::new();
    state.reset_for_entity(2);
    state.filter_op = FilterOp::Contains;
    state.filter_value = "kept".to_string();
    state.column_index = 1;
    state.begin_filter();
    assert_eq!(state.filter_op, FilterOp::Equals);
    assert_eq!(state.filter_attr, Some(1));
    assert_eq!(state.mode, QueryMode::Filter);
    assert_eq!(state.filter_value, "kept");
    assert!(state.filters.is_empty());
    assert_eq!(state.selected_columns, vec![false, false]);
}

#[test]
fn a_filter_without_its_value_is_not_added() {
    let attributes = vec![attribute("name")];
    for op in [
        FilterOp::Equals,
        FilterOp::NotEquals,
        FilterOp::Contains,
        FilterOp::StartsWith,
        FilterOp::EndsWith,
        FilterOp::GreaterThan,
        FilterOp::LessThan,
    ] {
        let mut state = GuidedQueryState::new();
        state.filter_attr = Some(0);
        state.filter_op = op;
        state.add_filter(&attributes);
        assert!(state.filters.is_empty(), "{:?}", op);
        assert_eq!(state.filter_attr, Some(0));
        assert_eq!(state.filter_op, op);
        state.filter_value = "x".to_string();
        state.add_filter(&attributes);
        assert_eq!(state.filters.len(), 1, "{:?}", op);
        assert_eq!(state.filters[0].operator, op);
        assert_eq!(state.filters[0].value, "x");
        assert_eq!(state.filter_attr, None);
    }
}

#[test]
fn a_null_check_is_added_without_a_value() {
    let attributes = vec![attribute("name")];
    for op in [FilterOp::IsNull, FilterOp::IsNotNull] {
        let mut state = GuidedQueryState::new();
        state.filter_attr = Some(0);
        state.filter_op = op;
        state.add_filter(&attributes);
        assert_eq!(state.filters.len(), 1);
        assert_eq!(state.filters[0].attribute_name, "name");
        assert_eq!(state.filters[0].operator, op);
        assert_eq!(state.filters[0].value, "");
        assert_eq!(state.filter_attr, None);
    }
}

#[test]
fn toggling_changes_only_the_flag_under_the_cursor() {
    let mut state = GuidedQueryState::new();
    state.reset_for_entity(3);
    assert_eq!(state.selected_columns, vec![false, false, false]);
    state.column_index = 1;
    state.toggle_column();
    assert_eq!(state.selected_columns, vec![false, true, false]);
    state.toggle_column();
    assert_eq!(state.selected_columns, vec![false, false, false]);
    state.column_index = 7;
    state.toggle_column();
    assert_eq!(state.selected_columns, vec![false, false, false]);
}

#[test]
fn select_all_and_clear_all_need_no_confirmation() {
    let mut state = GuidedQueryState::new();
    state.reset_for_entity(4);
    state.select_all_columns();
    assert_eq!(state.selected_columns, vec![true; 4]);
    state.clear_column_selections();
    assert_eq!(state.selected_columns, vec![false; 4]);
}

#[test]
fn a_filter_is_seeded_committed_and_cancelled() {
    let attributes = vec![attribute("name"), attribute("revenue")];
    let mut state = GuidedQueryState::new();
    state.reset_for_entity(2);
    state.column_index = 1;
    state.begin_filter();
    assert_eq!(state.mode, QueryMode::Filter);
    assert_eq!(state.filter_attr, Some(1));
    assert_eq!(state.filter_op, FilterOp::Equals);

    state.cancel_filter();
    assert_eq!(state.filter_attr, None);
    assert!(state.filters.is_empty());
    state.add_filter(&attributes);
    assert!(state.filters.is_empty());

    state.filter_attr = Some(1);
    state.filter_op = FilterOp::GreaterThan;
    state.filter_value = "1000".to_string();
    state.add_filter(&attributes);
    assert_eq!(state.filters.len(), 1);
    assert_eq!(state.filters[0].attribute_name, "revenue");
    assert_eq!(state.filters[0].operator, FilterOp::GreaterThan);
    assert_eq!(state.filters[0].value, "1000");
    assert_eq!(state.filter_attr, None);
    assert_eq!(state.filter_value, "");
}

#[test]
fn a_filter_on_a_missing_attribute_is_not_added() {
    let attributes = vec![attribute("name")];
    let mut state = GuidedQueryState::new();
    state.filter_attr = Some(5);
    state.filter_value = "x".to_string();
    state.add_filter(&attributes);
    assert!(state.filters.is_empty());
    assert_eq!(state.filter_attr, Some(5));
    assert_eq!(state.filter_value, "x");
}

#[test]
fn removing_a_filter_moves_the_cursor_up() {
    let attributes = vec![attribute("a"), attribute("b"), attribute("c")];
    let mut state = GuidedQueryState::new();
    for at in 0..3 {
        state.filter_attr = Some(at);
        state.filter_value = at.to_string();
        state.add_filter(&attributes);
    }
    state.filter_index = 2;
    state.remove_filter();
    assert_eq!(state.filters.len(), 2);
    assert_eq!(state.filter_index, 1);
    assert_eq!(state.filters[1].attribute_name, "b");
    state.filter_index = 0;
    state.remove_filter();
    assert_eq!(state.filters.len(), 1);
    assert_eq!(state.filter_index, 0);
    assert_eq!(state.filters[0].attribute_name, "b");
    state.filter_index = 3;
    state.remove_filter();
    assert_eq!(state.filters.len(), 1);
    assert_eq!(state.filter_index, 3);
}

#[test]
fn clearing_resets_selection_filters_result_and_mode() {
    let attributes = vec![attribute("name"), attribute("revenue")];
    let mut state = GuidedQueryState::new();
    state.reset_for_entity(2);
    state.select_all_columns();
    state.filter_attr = Some(0);
    state.filter_value = "x".to_string();
    state.add_filter(&attributes);
    state.order_by = Some(1);
    state.order_desc = true;
    state.top = Some(5);
    state.apply_response(&page(&["a", "b"]), "raw".to_string());
    state.result_index = 1;
    assert_eq!(state.mode, QueryMode::Results);
    assert_eq!(state.result.rows.len(), 2);

    state.clear();
    assert_eq!(state.selected_columns, vec![false, false]);
    assert!(state.filters.is_empty());
    assert_eq!(state.order_by, None);
    assert!(!state.order_desc);
    assert_eq!(state.top, Some(50));
    assert!(state.result.columns.is_empty());
    assert!(state.result.rows.is_empty());
    assert!(state.result.lookups.is_empty());
    assert_eq!(state.result.error, None);
    assert_eq!(state.result.next_link, None);
    assert_eq!(state.result.raw_json, None);
    assert_eq!(state.result_index, 0);
    assert_eq!(state.mode, QueryMode::Columns);
}

#[test]
fn resetting_for_an_entity_keeps_the_limit_and_the_filter_in_progress() {
    let mut state = GuidedQueryState::new();
    state.top = Some(7);
    state.filter_attr = Some(2);
    state.filter_op = FilterOp::Contains;
    state.filter_value = "abc".to_string();
    state.mode = QueryMode::Results;
    state.reset_for_entity(1);
    assert_eq!(state.selected_columns, vec![false]);
    assert_eq!(state.mode, QueryMode::Columns);
    assert_eq!(state.top, Some(7));
    assert_eq!(state.filter_attr, Some(2));
    assert_eq!(state.filter_op, FilterOp::Contains);
    assert_eq!(state.filter_value, "abc");
}

#[test]
fn the_query_follows_from_the_selections() {
    let attributes = vec![attribute("accountid"), attribute("name"), attribute("revenue")];
    let mut state = GuidedQueryState::new();
    state.reset_for_entity(3);
    state.selected_columns = vec![false, true, true];
    state.filter_attr = Some(1);
    state.filter_value = "x".to_string();
    state.add_filter(&attributes);
    state.filter_attr = Some(2);
    state.filter_op = FilterOp::GreaterThan;
    state.filter_value = "10".to_string();
    state.add_filter(&attributes);
    state.order_by = Some(2);
    state.order_desc = true;
    state.top = Some(25);
    let url = state.build_url(&entity("account", Some("accounts")), &attributes);
    assert_eq!(
        url,
        "accounts?$select=name,revenue&$filter=name eq 'x' and revenue gt 10&$orderby=revenue desc&$top=25"
    );
    let definition = state.definition(&entity("account", Some("accounts")), &attributes);
    assert_eq!(definition.entity_name, "account");
    assert_eq!(definition.select, vec!["name".to_string(), "revenue".to_string()]);
    assert_eq!(definition.filter, "name eq 'x' and revenue gt 10");
    assert_eq!(definition.order_by, "revenue desc");
    assert_eq!(definition.top, Some(25));
    assert_eq!(definition.skip, None);
}

#[test]
fn the_entity_set_is_guessed_where_the_catalog_gives_none() {
    let state = GuidedQueryState::new();
    assert_eq!(state.build_url(&entity("contact", None), &vec![]), "contacts?$top=50");
    assert_eq!(entity("category", None).resolve_set_name(), "categorys");
    assert_eq!(entity("category", Some("categories")).resolve_set_name(), "categories");
}

#[test]
fn flags_and_order_beyond_the_attributes_select_nothing() {
    let attributes = vec![attribute("a")];
    let mut state = GuidedQueryState::new();
    state.selected_columns = vec![true, true, true];
    state.order_by = Some(4);
    state.top = None;
    assert_eq!(state.selected_column_names(&attributes), vec!["a".to_string()]);
    assert_eq!(state.build_url(&entity("x", Some("xs")), &attributes), "xs?$select=a");
    state.order_by = Some(0);
    assert_eq!(state.build_url(&entity("x", Some("xs")), &attributes), "xs?$select=a&$orderby=a");
}

#[test]
fn a_response_replaces_the_result_and_shows_it() {
    let mut state = GuidedQueryState::new();
    state.apply_response(&page(&["a", "b", "c"]), "first".to_string());
    state.result_index = 2;
    state.apply_response(&page(&["z"]), "second".to_string());
    assert_eq!(state.result.rows, vec![vec!["z".to_string()]]);
    assert_eq!(state.result.raw_json.as_deref(), Some("second"));
    assert_eq!(state.result_index, 0);
    assert_eq!(state.mode, QueryMode::Results);
}

#[test]
fn a_failure_leaves_the_selections_and_the_rows() {
    let mut state = GuidedQueryState::new();
    state.reset_for_entity(2);
    state.select_all_columns();
    state.apply_response(&page(&["a"]), "raw".to_string());
    state.apply_failure("Query failed: timeout".to_string());
    assert_eq!(state.result.error.as_deref(), Some("Query failed: timeout"));
    assert_eq!(state.result.rows.len(), 1);
    assert_eq!(state.selected_columns, vec![true, true]);
    assert_eq!(state.mode, QueryMode::Results);
}

#[test]
fn the_result_cursor_stays_within_the_rows() {
    let mut state = GuidedQueryState::new();
    state.result_down();
    assert_eq!(state.result_index, 0);
    state.apply_response(&page(&["a", "b"]), String::new());
    state.result_up();
    assert_eq!(state.result_index, 0);
    state.result_down();
    assert_eq!(state.result_index, 1);
    state.result_down();
    assert_eq!(state.result_index, 1);
    state.result_up();
    assert_eq!(state.result_index, 0);
}

#[test]
fn the_next_page_is_appended() {
    let mut state = GuidedQueryState::new();
    state.apply_response(&page(&["a"]), "one".to_string());
    state.apply_next_page(&page(&["b", "c"]), "two".to_string());
    assert_eq!(state.result.rows.len(), 3);
    assert_eq!(state.result.raw_json.as_deref(), Some("two"));
    assert_eq!(state.mode, QueryMode::Results);
}
