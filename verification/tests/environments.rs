use rynamo::api::{
    api_url, attribute_count_endpoint, fetch_xml_endpoint, record_endpoint, request_url,
    system_jobs_query, token_scope,
};
use rynamo::config::{normalize_environment_url, Config};
use rynamo::export::{
    export_path, export_results, export_to_csv, export_to_json, pair_rows, ExportFormat,
};
use rynamo::fetchxml::{extract_entity_name, find_entity, resolve_entity_set};
use rynamo::json::JsonValue;
use rynamo::models::{EntityMetadata, QueryResult};

fn entity(name: &str, set: Option<&str>) -> EntityMetadata {
    EntityMetadata {
        metadata_id: format!("id-{}", name),
        logical_name: name.to_string(),
        schema_name: None,
        display_name: None,
        description: None,
        primary_id_attribute: None,
        primary_name_attribute: None,
        entity_set_name: set.map(String::from),
        is_custom_entity: None,
        is_managed: None,
        object_type_code: None,
    }
}

#[test]
fn test_environment_url_normalization() {
    let url = "https://test.crm.dynamics.com/";
    let normalized = normalize_environment_url(url);
    assert_eq!(normalized, "https://test.crm.dynamics.com");
}

#[test]
fn normalization_takes_every_trailing_slash_and_nothing_else() {
    assert_eq!(normalize_environment_url("https://a.b//"), "https://a.b");
    assert_eq!(normalize_environment_url("https://a.b"), "https://a.b");
    assert_eq!(normalize_environment_url("/"), "");
    assert_eq!(normalize_environment_url(""), "");
}

#[test]
fn adding_an_environment_makes_it_current_and_known_once() {
    let mut config = Config::default();
    assert!(config.environments.is_empty());
    assert_eq!(config.current_env, None);
    config.add_environment("https://a".to_string());
    config.add_environment("https://b".to_string());
    config.add_environment("https://a".to_string());
    assert_eq!(config.environments, vec!["https://a".to_string(), "https://b".to_string()]);
    assert_eq!(config.current_env.as_deref(), Some("https://a"));
}

#[test]
fn discovered_environments_are_added_once_without_trailing_slashes() {
    let mut config = Config::default();
    config.add_environment("https://a".to_string());
    let added = config.add_discovered(&vec![
        "https://a/".to_string(),
        "https://b/".to_string(),
        "https://b".to_string(),
        "https://c".to_string(),
    ]);
    assert_eq!(added, 2);
    assert_eq!(
        config.environments,
        vec!["https://a".to_string(), "https://b".to_string(), "https://c".to_string()]
    );
    assert_eq!(config.current_env.as_deref(), Some("https://a"));
    assert_eq!(config.add_discovered(&vec![]), 0);
}

#[test]
fn entity_name_is_found_between_the_quotes() {
    assert_eq!(
        extract_entity_name("<fetch><entity name=\"account\"><attribute name=\"name\"/></entity></fetch>")
            .as_deref(),
        Some("account")
    );
    assert_eq!(
        extract_entity_name("<fetch><entity name='contact'/></fetch>").as_deref(),
        Some("contact")
    );
    assert_eq!(extract_entity_name("<entity name=\"\">").as_deref(), Some(""));
    assert_eq!(
        extract_entity_name("<entity name='a'><link-entity name=\"b\"/><entity name=\"c\"/>").as_deref(),
        Some("c")
    );
    assert_eq!(extract_entity_name("<entity name=\"日本\">").as_deref(), Some("日本"));
}

#[test]
fn entity_name_that_cannot_be_located_is_none() {
    assert_eq!(extract_entity_name(""), None);
    assert_eq!(extract_entity_name("<fetch></fetch>"), None);
    assert_eq!(extract_entity_name("<entity  name=\"account\">"), None);
    assert_eq!(extract_entity_name("<entity name=\"account"), None);
    assert_eq!(extract_entity_name("<entity name='account"), None);
    // The doubly quoted opening is found first, and no double quote follows it.
    assert_eq!(extract_entity_name("<entity name='a'/> <entity name=\"b"), None);
}

#[test]
fn entity_set_is_looked_up_or_guessed() {
    let entities = vec![
        entity("account", Some("accounts")),
        entity("category", None),
        entity("account", Some("second")),
    ];
    assert_eq!(find_entity(&entities, "account"), Some(0));
    assert_eq!(find_entity(&entities, "category"), Some(1));
    assert_eq!(find_entity(&entities, "lead"), None);
    assert_eq!(resolve_entity_set(&entities, "account"), "accounts");
    assert_eq!(resolve_entity_set(&entities, "category"), "categorys");
    assert_eq!(resolve_entity_set(&entities, "lead"), "leads");
    assert_eq!(resolve_entity_set(&vec![], ""), "s");
}

#[test]
fn raw_query_is_percent_encoded_in_the_endpoint() {
    assert_eq!(
        fetch_xml_endpoint("accounts", "<fetch top='5'><entity name=\"account\"/></fetch>"),
        "accounts?fetchXml=%3Cfetch%20top%3D%275%27%3E%3Centity%20name%3D%22account%22%2F%3E%3C%2Ffetch%3E"
    );
    assert_eq!(fetch_xml_endpoint("a", "AZaz09-._~"), "a?fetchXml=AZaz09-._~");
    assert_eq!(fetch_xml_endpoint("a", ""), "a?fetchXml=");
    assert_eq!(fetch_xml_endpoint("a", "é日"), "a?fetchXml=%C3%A9%E6%97%A5");
    assert_ne!(fetch_xml_endpoint("a", "<x>"), "a?fetchXml=<x>");
}

#[test]
fn request_addresses() {
    assert_eq!(api_url("https://org.crm.dynamics.com"), "https://org.crm.dynamics.com/api/data/v9.2");
    assert_eq!(
        request_url("https://org", "accounts?$top=1"),
        "https://org/api/data/v9.2/accounts?$top=1"
    );
    assert_eq!(request_url("https://org", "//accounts"), "https://org/api/data/v9.2/accounts");
    assert_eq!(request_url("https://org", "https://other/next"), "https://other/next");
    assert_eq!(request_url("https://org", "http-ish"), "http-ish");
    assert_eq!(request_url("https://org", ""), "https://org/api/data/v9.2/");
    assert_eq!(token_scope("https://org"), "https://org/.default");
    assert_eq!(record_endpoint("accounts", "1-2"), "accounts(1-2)");
    assert_eq!(
        attribute_count_endpoint("accounts", "name"),
        "accounts/$count?$filter=name ne null"
    );
}

#[test]
fn system_jobs_query_with_and_without_filter() {
    let select = "asyncoperationid,name,operationtype,statuscode,statecode,startedon,completedon,createdon,_createdby_value,message,friendlymessage,_regardingobjectid_value";
    let base = format!("asyncoperations?$select={}&$orderby=createdon desc&$top=50", select);
    assert_eq!(system_jobs_query(50, None), base);
    assert_eq!(system_jobs_query(50, Some("")), base);
    assert_eq!(
        system_jobs_query(50, Some("statuscode eq 31")),
        format!("{}&$filter=statuscode eq 31", base)
    );
}

#[test]
fn results_as_comma_separated_text() {
    let page = JsonValue::Object(vec![(
        "value".to_string(),
        JsonValue::Array(vec![
            JsonValue::Object(vec![
                ("b".to_string(), JsonValue::String("2".to_string())),
                ("a".to_string(), JsonValue::String("1".to_string())),
            ]),
            JsonValue::Object(vec![("a".to_string(), JsonValue::Bool(true))]),
        ]),
    )]);
    let result = QueryResult::from_json(&page);
    assert_eq!(export_to_csv(&result), "a,b\n1,2\ntrue,-\n");
    assert_eq!(export_to_csv(&QueryResult::default()), "\n");
    assert_eq!(export_path(Some("account"), "20240102_030405"), "exports/account_20240102_030405.csv");
    assert_eq!(export_path(None, "t"), "exports/export_t.csv");
    assert_ne!(ExportFormat::Csv, ExportFormat::Json);
}

#[test]
fn results_as_json_text() {
    let page = JsonValue::Object(vec![(
        "value".to_string(),
        JsonValue::Array(vec![
            JsonValue::Object(vec![
                ("b".to_string(), JsonValue::String("2".to_string())),
                ("a".to_string(), JsonValue::String("say \"hi\"".to_string())),
            ]),
            JsonValue::Object(vec![("a".to_string(), JsonValue::Bool(true))]),
        ]),
    )]);
    let mut result = QueryResult::from_json(&page);
    let text = export_to_json(&result).unwrap();
    let parsed: serde_json::Value = serde_json::from_str(&text).unwrap();
    let rows = parsed.as_array().unwrap();
    assert_eq!(rows.len(), 2);
    assert_eq!(rows[0].get("a").and_then(|v| v.as_str()), Some("say \"hi\""));
    assert_eq!(rows[0].get("b").and_then(|v| v.as_str()), Some("2"));
    assert_eq!(rows[1].get("a").and_then(|v| v.as_str()), Some("true"));
    assert_eq!(rows[1].get("b").and_then(|v| v.as_str()), Some("-"));
    assert_eq!(rows[1].as_object().unwrap().len(), 2);
    assert!(text.contains('\n'));
    assert_eq!(export_results(&result, ExportFormat::Json), Some(text));
    assert_eq!(export_results(&result, ExportFormat::Csv).as_deref(), Some("a,b\nsay \"hi\",2\ntrue,-\n"));
    assert_eq!(export_to_json(&QueryResult::default()).as_deref(), Some("[]"));

    // A row without a cell for each column cannot be written as an object.
    result.rows.push(vec!["only one".to_string()]);
    assert_eq!(export_to_json(&result), None);
    assert_eq!(export_results(&result, ExportFormat::Json), None);
    result.rows.pop();
    result.rows.push(vec!["x".to_string(), "y".to_string(), "beyond".to_string()]);
    assert!(export_to_json(&result).is_some());
}

#[test]
fn endpoints_of_the_catalog() {
    use_endpoints();
}

fn use_endpoints() {
    assert_eq!(
        rynamo::api::entity_attributes_endpoint("account"),
        "EntityDefinitions(LogicalName='account')/Attributes?$select=LogicalName,DisplayName,SchemaName,AttributeType,AttributeTypeName,RequiredLevel,IsCustomAttribute,IsPrimaryId,IsPrimaryName,Description,MetadataId"
    );
    assert_eq!(
        rynamo::api::entity_endpoint("account"),
        "EntityDefinitions(LogicalName='account')?$select=LogicalName,DisplayName,SchemaName,Description,PrimaryIdAttribute,PrimaryNameAttribute,EntitySetName,IsCustomEntity,IsManaged,ObjectTypeCode,MetadataId"
    );
    assert_eq!(
        rynamo::api::one_to_many_endpoint("a"),
        "EntityDefinitions(LogicalName='a')/OneToManyRelationships?$select=SchemaName,ReferencingEntity,ReferencingAttribute,ReferencedEntity,ReferencedAttribute"
    );
    assert_eq!(
        rynamo::api::many_to_one_endpoint("a"),
        "EntityDefinitions(LogicalName='a')/ManyToOneRelationships?$select=SchemaName,ReferencingEntity,ReferencingAttribute,ReferencedEntity,ReferencedAttribute"
    );
    assert_eq!(
        rynamo::api::many_to_many_endpoint("a"),
        "EntityDefinitions(LogicalName='a')/ManyToManyRelationships?$select=SchemaName,Entity1LogicalName,Entity2LogicalName,IntersectEntityName"
    );
    assert_eq!(
        rynamo::api::attribute_option_set_endpoint("account", "industry"),
        "EntityDefinitions(LogicalName='account')/Attributes(LogicalName='industry')/Microsoft.Dynamics.CRM.PicklistAttributeMetadata/OptionSet?$select=Name,DisplayName,Description,IsGlobal,OptionSetType,MetadataId"
    );
    assert_eq!(
        rynamo::api::solution_components_endpoint("s-1"),
        "solutioncomponents?$filter=_solutionid_value eq s-1&$select=componenttype,objectid,solutioncomponentid,rootcomponentbehavior"
    );
    assert_eq!(
        rynamo::api::solution_layers_endpoint("c-1", 61),
        "msdyn_solutioncomponentlayers?$filter=msdyn_componentid eq 'c-1' and msdyn_componenttype eq 61"
    );
    assert_eq!(
        rynamo::api::solution_layers_endpoint("c-1", -1),
        "msdyn_solutioncomponentlayers?$filter=msdyn_componentid eq 'c-1' and msdyn_componenttype eq -1"
    );
    assert_eq!(
        rynamo::api::user_teams_endpoint("u"),
        "systemusers(u)/teammembership_association?$select=teamid,name,teamtype,description,isdefault"
    );
    assert_eq!(
        rynamo::api::user_roles_endpoint("u"),
        "systemusers(u)/systemuserroles_association?$select=roleid,name,ismanaged&$expand=businessunitid($select=businessunitid,name)"
    );
    assert_eq!(
        rynamo::api::team_roles_endpoint("t"),
        "teams(t)/teamroles_association?$select=roleid,name,ismanaged&$expand=businessunitid($select=businessunitid,name)"
    );
    assert_eq!(
        rynamo::api::system_job_endpoint("j"),
        format!("asyncoperations(j)?$select={}", rynamo::api::SYSTEM_JOB_FIELDS)
    );
    assert_eq!(rynamo::api::bearer("abc"), "Bearer abc");
    assert!(rynamo::api::USERS_ENDPOINT.contains("$filter=isdisabled eq false"));
    assert!(!rynamo::api::ALL_USERS_ENDPOINT.contains("$filter"));
    assert!(rynamo::api::ENTITIES_ENDPOINT.starts_with("EntityDefinitions?$select="));
    assert!(rynamo::api::SOLUTIONS_ENDPOINT.ends_with("&$orderby=friendlyname"));
    assert!(rynamo::api::GLOBAL_OPTION_SETS_ENDPOINT.starts_with("GlobalOptionSetDefinitions?"));
    assert_eq!(rynamo::api::DISCOVERY_SCOPE, "https://globaldisco.crm.dynamics.com/.default");
    assert!(rynamo::api::DISCOVERY_URL.starts_with("https://globaldisco.crm.dynamics.com/"));
}

#[test]
fn adding_a_new_environment_connects_to_it() {
    let mut app = rynamo::ui::App::new(rynamo::ui::KeyBindings::Arrows);
    app.add_new_environment("https://new".to_string());
    assert_eq!(app.config.environments, vec!["https://new".to_string()]);
    assert_eq!(app.config.current_env.as_deref(), Some("https://new"));
    assert_eq!(app.message.as_deref(), Some("Connecting to https://new..."));
    assert_eq!(app.state, rynamo::ui::AppState::Loading);
}

#[test]
fn rows_are_paired_with_the_columns_in_order() {
    let mut result = QueryResult::default();
    assert_eq!(pair_rows(&result), Some(vec![]));
    result.columns = vec!["a".to_string(), "b".to_string()];
    result.rows = vec![
        vec!["1".to_string(), "2".to_string()],
        vec!["3".to_string(), "4".to_string(), "beyond".to_string()],
    ];
    let pair = |k: &str, v: &str| (k.to_string(), v.to_string());
    assert_eq!(
        pair_rows(&result),
        Some(vec![vec![pair("a", "1"), pair("b", "2")], vec![pair("a", "3"), pair("b", "4")]])
    );
    let text = export_to_json(&result).unwrap();
    let parsed: serde_json::Value = serde_json::from_str(&text).unwrap();
    assert_eq!(parsed[1].get("a").and_then(|v| v.as_str()), Some("3"));
    assert_eq!(parsed[1].get("b").and_then(|v| v.as_str()), Some("4"));
    assert_eq!(parsed[1].as_object().unwrap().len(), 2);

    result.rows.push(vec!["short".to_string()]);
    assert_eq!(pair_rows(&result), None);
    assert_eq!(export_to_json(&result), None);
}
