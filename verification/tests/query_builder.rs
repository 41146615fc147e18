use rynamo::models::{QueryDefinition, QueryField};
use rynamo::ui::{filter_expression, FilterCondition, FilterOp};

fn definition(set: &str) -> QueryDefinition {
    QueryDefinition {
        entity_name: "account".to_string(),
        entity_set_name: set.to_string(),
        ..QueryDefinition::default()
    }
}

#[test]
fn empty_definition_gives_the_entity_set_alone() {
    let url = definition("accounts").build_url();
    assert_eq!(url, "accounts");
    assert!(!url.contains('?'));
}

#[test]
fn default_definition_is_empty() {
    let d = QueryDefinition::default();
    assert_eq!(d.entity_name, "");
    assert_eq!(d.entity_set_name, "");
    assert!(d.select.is_empty());
    assert_eq!(d.filter, "");
    assert_eq!(d.order_by, "");
    assert_eq!(d.top, None);
    assert_eq!(d.skip, None);
    assert_eq!(d.build_url(), "");
}

#[test]
fn select_filter_and_top_come_in_that_order() {
    let mut d = definition("accounts");
    d.select = vec!["a".to_string(), "b".to_string()];
    d.filter = filter_expression(&vec![FilterCondition {
        attribute_name: "a".to_string(),
        operator: FilterOp::Equals,
        value: "x".to_string(),
    }]);
    d.top = Some(10);
    let url = d.build_url();
    assert_eq!(url, "accounts?$select=a,b&$filter=a eq 'x'&$top=10");
    let select = url.find("$select=a,b").unwrap();
    let filter = url.find("$filter=a eq 'x'").unwrap();
    let top = url.find("$top=10").unwrap();
    assert!(select < filter && filter < top);
}

#[test]
fn all_clauses_in_fixed_order() {
    let d = QueryDefinition {
        entity_name: "contact".to_string(),
        entity_set_name: "contacts".to_string(),
        select: vec!["fullname".to_string()],
        filter: "statecode eq 0".to_string(),
        order_by: "fullname desc".to_string(),
        top: Some(5),
        skip: Some(20),
    };
    assert_eq!(
        d.build_url(),
        "contacts?$select=fullname&$filter=statecode eq 0&$orderby=fullname desc&$top=5&$skip=20"
    );
}

#[test]
fn single_clauses() {
    let mut d = definition("accounts");
    d.select = vec!["name".to_string()];
    assert_eq!(d.build_url(), "accounts?$select=name");

    let mut d = definition("accounts");
    d.filter = "name eq 'x'".to_string();
    assert_eq!(d.build_url(), "accounts?$filter=name eq 'x'");

    let mut d = definition("accounts");
    d.order_by = "name".to_string();
    assert_eq!(d.build_url(), "accounts?$orderby=name");

    let mut d = definition("accounts");
    d.top = Some(0);
    assert_eq!(d.build_url(), "accounts?$top=0");

    let mut d = definition("accounts");
    d.skip = Some(1234567890);
    assert_eq!(d.build_url(), "accounts?$skip=1234567890");
}

#[test]
fn the_largest_limit_is_written_in_full() {
    let mut d = definition("accounts");
    d.top = Some(usize::MAX);
    assert_eq!(d.build_url(), format!("accounts?$top={}", usize::MAX));
}

#[test]
fn clear_resets_every_field_to_its_default() {
    let mut d = QueryDefinition {
        entity_name: "contact".to_string(),
        entity_set_name: "contacts".to_string(),
        select: vec!["fullname".to_string()],
        filter: "statecode eq 0".to_string(),
        order_by: "fullname".to_string(),
        top: Some(5),
        skip: Some(20),
    };
    d.clear();
    assert!(d.select.is_empty());
    assert_eq!(d.filter, "");
    assert_eq!(d.order_by, "");
    assert_eq!(d.top, None);
    assert_eq!(d.skip, None);
    assert_eq!(d.entity_name, "");
    assert_eq!(d.entity_set_name, "");
    assert_eq!(d.build_url(), "");
    assert_eq!(d.build_url(), QueryDefinition::default().build_url());
}

#[test]
fn query_field_cycles_both_ways() {
    let all = [
        QueryField::Entity,
        QueryField::Select,
        QueryField::Filter,
        QueryField::OrderBy,
        QueryField::Top,
    ];
    for i in 0..all.len() {
        assert_eq!(all[i].next(), all[(i + 1) % all.len()]);
        assert_eq!(all[i].prev(), all[(i + all.len() - 1) % all.len()]);
        assert_eq!(all[i].next().prev(), all[i]);
        assert_eq!(all[i].prev().next(), all[i]);
    }
    assert_eq!(QueryField::default(), QueryField::Entity);
}

#[test]
fn query_field_labels() {
    assert_eq!(QueryField::Entity.label(), "Entity");
    assert_eq!(QueryField::Select.label(), "$select");
    assert_eq!(QueryField::Filter.label(), "$filter");
    assert_eq!(QueryField::OrderBy.label(), "$orderby");
    assert_eq!(QueryField::Top.label(), "$top");
}
