//! What the explorer asks of the record store, and what it makes of the
//! answers: queries, pages, related records, environments, exports.

use vstd::prelude::*;
use vstd::utf8::encode_utf8;
use crate::api::{attribute_count_endpoint, fetch_xml_endpoint, percent_encoded, record_endpoint};
use crate::config::{with_discovered, with_environment};
use crate::export::{csv_of, export_path, export_path_of, export_to_csv};
use crate::fetchxml::{
    entity_name_in, extract_entity_name, find_entity, first_named, resolve_entity_set, set_name_in,
};
use crate::json::{member, JsonValue};
use crate::models::entity::EntityMetadata;
use crate::models::query::{
    count_of, next_link_of, opt_view, page_of, parsed, records_of, LookupInfoView, QueryResult,
    QueryResultView, COUNT_KEY, NEXT_LINK_KEY, RECORDS_KEY,
};
use crate::models::solution::ComponentType;
use crate::text::{
    decimal, decimal_string, glue, glue3, lowercase, signed_decimal, signed_decimal_string,
    to_lowercase, views,
};
use crate::ui::app::App;
use crate::ui::guided::{GuidedQueryState, QueryMode};
use crate::ui::search::filtered;
use crate::ui::view::{self, AppState, EntityTab, SearchResult};

verus! {

/// The error of a guided query without an entity.
pub const NO_ENTITY_SELECTED: &'static str = "No entity selected";

/// The error of a raw query that does not show its entity.
pub const NO_ENTITY_IN_QUERY: &'static str = "Could not find <entity name='...'> in FetchXML";

/// The record that a lookup refers to.
#[derive(Debug)]
pub struct RelatedRecord {
    /// The place of the record's entity among the entities
    pub entity_index: usize,
    /// The logical name of the record's entity
    pub logical_name: String,
    /// The identifier of the record
    pub id: String,
}

/// What opening a search result needs to load.
#[derive(Debug)]
pub enum SearchTarget {
    /// The detail of the entity at `index`
    Entity { index: usize, logical_name: String },
    /// The detail of the solution at `index`
    Solution { index: usize, solution_id: String },
    /// Nothing: the option set is shown as it is
    OptionSet,
}

/// The count of the records in which an attribute has a value, to be asked.
#[derive(Debug)]
pub struct UsageRequest {
    pub endpoint: String,
    pub attribute: String,
}

/// A file to be written.
#[derive(Debug)]
pub struct Export {
    pub path: String,
    pub content: String,
}

/// The place in `filtered` of the first entry that is `wanted`.
pub open spec fn position_in(filtered: Seq<usize>, wanted: usize) -> Option<int>
    decreases filtered.len(),
{
    if filtered.len() == 0 {
        None
    } else {
        match position_in(filtered.drop_last(), wanted) {
            Some(at) => Some(at),
            None => if filtered.last() == wanted {
                Some(filtered.len() - 1)
            } else {
                None
            },
        }
    }
}

/// The place in `filtered` of the first entry that is `wanted`.
pub fn find_position(filtered: &Vec<usize>, wanted: usize) -> (r: Option<usize>)
    ensures
        match r {
            Some(at) => position_in(filtered@, wanted) == Some(at as int) && at < filtered.len(),
            None => position_in(filtered@, wanted) is None,
        },
{
    let mut i: usize = 0;
    proof {
        assert(filtered@.take(0) =~= Seq::empty());
    }
    while i < filtered.len()
        invariant
            i <= filtered.len(),
            position_in(filtered@.take(i as int), wanted) is None,
        decreases filtered.len() - i,
    {
        proof {
            assert(filtered@.take(i as int + 1).drop_last() == filtered@.take(i as int));
            assert(filtered@.take(i as int + 1).last() == filtered@[i as int]);
        }
        if filtered[i] == wanted {
            proof {
                position_extends(filtered@, wanted, i as int + 1);
            }
            return Some(i);
        }
        i += 1;
    }
    proof {
        assert(filtered@.take(i as int) == filtered@);
    }
    None
}

/// What is first among the entries before `upto` is first among all.
proof fn position_extends(filtered: Seq<usize>, wanted: usize, upto: int)
    requires
        0 <= upto <= filtered.len(),
        position_in(filtered.take(upto), wanted) is Some,
    ensures
        position_in(filtered, wanted) == position_in(filtered.take(upto), wanted),
    decreases filtered.len() - upto,
{
    if upto < filtered.len() {
        assert(filtered.take(upto + 1).drop_last() == filtered.take(upto));
        position_extends(filtered, wanted, upto + 1);
    } else {
        assert(filtered.take(upto) == filtered);
    }
}

/// The place in `entities` of the first whose identifier has the same
/// lower-case form as `id`.
pub open spec fn first_with_id(entities: Seq<EntityMetadata>, id: Seq<char>) -> Option<int>
    decreases entities.len(),
{
    if entities.len() == 0 {
        None
    } else {
        match first_with_id(entities.drop_last(), id) {
            Some(at) => Some(at),
            None => if lowercase(entities.last().metadata_id@) == lowercase(id) {
                Some(entities.len() - 1)
            } else {
                None
            },
        }
    }
}

/// What is first among the entities before `upto` is first among all.
proof fn first_with_id_extends(entities: Seq<EntityMetadata>, id: Seq<char>, upto: int)
    requires
        0 <= upto <= entities.len(),
        first_with_id(entities.take(upto), id) is Some,
    ensures
        first_with_id(entities, id) == first_with_id(entities.take(upto), id),
    decreases entities.len() - upto,
{
    if upto < entities.len() {
        assert(entities.take(upto + 1).drop_last() == entities.take(upto));
        first_with_id_extends(entities, id, upto + 1);
    } else {
        assert(entities.take(upto) == entities);
    }
}

/// The place in `entities` of the first whose identifier has the same
/// lower-case form as `id`.
pub fn find_by_id(entities: &Vec<EntityMetadata>, id: &str) -> (r: Option<usize>)
    ensures
        match r {
            Some(at) => first_with_id(entities@, id@) == Some(at as int) && at < entities.len(),
            None => first_with_id(entities@, id@) is None,
        },
{
    let wanted = to_lowercase(id);
    let mut i: usize = 0;
    proof {
        assert(entities@.take(0) =~= Seq::empty());
    }
    while i < entities.len()
        invariant
            i <= entities.len(),
            wanted@ == lowercase(id@),
            first_with_id(entities@.take(i as int), id@) is None,
        decreases entities.len() - i,
    {
        proof {
            assert(entities@.take(i as int + 1).drop_last() == entities@.take(i as int));
            assert(entities@.take(i as int + 1).last() == entities@[i as int]);
        }
        if to_lowercase(entities[i].metadata_id.as_str()) == wanted {
            proof {
                first_with_id_extends(entities@, id@, i as int + 1);
            }
            return Some(i);
        }
        i += 1;
    }
    proof {
        assert(entities@.take(i as int) == entities@);
    }
    None
}

/// The page of the one record `record`: no total and no continuation come
/// with it.
pub open spec fn single_record(record: JsonValue) -> QueryResultView {
    page_of(seq![record], None, None)
}

impl App {
    /// Whether `post` and `r` are what asking the guided query of `pre` gives.
    pub open spec fn guided_query_asked(pre: App, post: App, r: Option<String>) -> bool {
        &&& match pre.selected_entity {
                None => {
                    &&& r is None
                    &&& post.query.result@ == (QueryResultView {
                        error: Some(NO_ENTITY_SELECTED@),
                        ..pre.query.result@
                    })
                    &&& post.query == (GuidedQueryState {
                        result: post.query.result,
                        ..pre.query
                    })
                    &&& post == (App { query: post.query, ..pre })
                },
                Some(entity) => {
                    &&& r is Some
                    &&& r->0@ == pre.query.url_text(entity, pre.entity_attributes@)
                    &&& post == (App { state: AppState::Loading, error: None, ..pre })
                },
            }
    }

    /// Build and execute query from guided selections. Without a selected
    /// entity the result held gets an error and nothing is asked. Else the query
    /// of the guided state against that entity is to be asked; the state is
    /// `Loading` and no error is shown.
    pub fn execute_guided_query(&mut self) -> (r: Option<String>)
        ensures
            App::guided_query_asked(*old(self), *final(self), r),
    {
        match &self.selected_entity {
            Some(entity) => {
                let url = self.query.build_url(entity, &self.entity_attributes);
                self.state = AppState::Loading;
                self.error = None;
                Some(url)
            },
            None => {
                self.query.apply_failure(String::from_str(NO_ENTITY_SELECTED));
                None
            },
        }
    }

    /// Takes in the answer to the guided query: the table that it is
    /// normalised into replaces the result held, the cursor goes to its top,
    /// the section is that of the results, and the state is `Ready`.
    pub fn guided_query_answered(&mut self, json: &JsonValue, raw_json: String)
        ensures
            final(self).query.result@ == (QueryResultView {
                raw_json: Some(raw_json@),
                ..parsed(*json)
            }),
            final(self).query == (GuidedQueryState {
                result: final(self).query.result,
                result_index: 0,
                mode: QueryMode::Results,
                ..old(self).query
            }),
            *final(self) == (App { query: final(self).query, state: AppState::Ready, ..*old(self) }),
    {
        self.query.apply_response(json, raw_json);
        self.state = AppState::Ready;
    }

    /// Notes that the guided query failed: the result held gets the failure
    /// as its error, and the state is `Ready`. The selections stay, so that the
    /// user can ask again.
    pub fn guided_query_failed(&mut self, error: &str)
        ensures
            final(self).query.result@ == (QueryResultView {
                error: Some("Query failed: "@ + error@),
                ..old(self).query.result@
            }),
            final(self).query == (GuidedQueryState {
                result: final(self).query.result,
                ..old(self).query
            }),
            *final(self) == (App { query: final(self).query, state: AppState::Ready, ..*old(self) }),
    {
        self.query.apply_failure(glue("Query failed: ", error));
        self.state = AppState::Ready;
    }

    /// Whether `post` and `r` are what asking for the next page of `pre` gives.
    pub open spec fn next_page_asked(pre: App, post: App, r: Option<String>) -> bool {
        &&& r == pre.query.result.next_link
        &&& post == if r is Some {
                App { state: AppState::Loading, error: None, ..pre }
            } else {
                pre
            }
    }

    /// Load next page of query results: where the result held names a
    /// continuation, that is to be asked; the state is `Loading` and no error is
    /// shown. Else nothing is asked and nothing changes.
    pub fn load_next_page(&mut self) -> (r: Option<String>)
        ensures
            App::next_page_asked(*old(self), *final(self), r),
    {
        let link = match &self.query.result.next_link {
            Some(link) => link.clone(),
            None => {
                return None;
            },
        };
        self.state = AppState::Loading;
        self.error = None;
        Some(link)
    }

    /// Takes in the next page: its rows come after those held, and its
    /// continuation and payload replace those held. The state is `Ready`.
    pub fn next_page_answered(&mut self, json: &JsonValue, raw_json: String)
        ensures
            final(self).query.result@ == old(self).query.result@.extended(
                parsed(*json),
                raw_json@,
            ),
            final(self).query == (GuidedQueryState {
                result: final(self).query.result,
                ..old(self).query
            }),
            *final(self) == (App { query: final(self).query, state: AppState::Ready, ..*old(self) }),
    {
        self.query.apply_next_page(json, raw_json);
        self.state = AppState::Ready;
    }

    /// Notes that the next page could not be loaded: the failure is the error
    /// shown, the state is `Ready`, and the result held stays.
    pub fn next_page_failed(&mut self, error: &str)
        ensures
            opt_view(final(self).error) == Some("Failed to load next page: "@ + error@),
            *final(self) == (App { state: AppState::Ready, error: final(self).error, ..*old(self) }),
    {
        self.fail("Failed to load next page: ", error, AppState::Ready);
    }

    /// Whether `post` and `r` are what asking the raw query of `pre` gives.
    pub open spec fn fetch_xml_asked(pre: App, post: App, r: Option<String>) -> bool {
        &&& pre.fetchxml_query@.len() == 0 ==> r is None && post == pre
        &&& pre.fetchxml_query@.len() > 0 ==> match entity_name_in(pre.fetchxml_query@) {
                None => {
                    &&& r is None
                    &&& opt_view(post.error) == Some(NO_ENTITY_IN_QUERY@)
                    &&& post == (App {
                        state: AppState::Ready,
                        error: post.error,
                        ..pre
                    })
                },
                Some(name) => {
                    &&& r is Some
                    &&& r->0@ == set_name_in(pre.entities@, name) + "?fetchXml="@
                        + percent_encoded(encode_utf8(pre.fetchxml_query@))
                    &&& post == (App { state: AppState::Loading, error: None, ..pre })
                },
            }
    }

    /// Execute the FetchXML query currently in the input. An empty text asks
    /// nothing and changes nothing. A text that does not show its entity asks
    /// nothing: the error says so and the state is `Ready`. Else the endpoint to
    /// be asked is that of the raw query against the set of the entity; the
    /// state is `Loading` and no error is shown.
    pub fn execute_fetch_xml_query(&mut self) -> (r: Option<String>)
        ensures
            App::fetch_xml_asked(*old(self), *final(self), r),
    {
        if self.fetchxml_query.as_str().is_empty() {
            return None;
        }
        self.state = AppState::Loading;
        self.error = None;

        // Extract entity name from FetchXML (simple heuristic)
        let logical_name = match extract_entity_name(self.fetchxml_query.as_str()) {
            Some(name) => name,
            None => {
                self.error = Some(String::from_str(NO_ENTITY_IN_QUERY));
                self.state = AppState::Ready;
                return None;
            },
        };

        // The entity set name comes from the cached entities, or is guessed.
        let entity_set_name = resolve_entity_set(&self.entities, logical_name.as_str());
        Some(fetch_xml_endpoint(entity_set_name.as_str(), self.fetchxml_query.as_str()))
    }

    /// Takes in the answer to a raw query: the table that it is normalised
    /// into replaces the result held, and the results are shown in the query tab
    /// of the entity detail. The state is `Ready`.
    pub fn fetch_xml_answered(&mut self, json: &JsonValue)
        ensures
            final(self).query.result@ == parsed(*json),
            final(self).query == (GuidedQueryState {
                result: final(self).query.result,
                mode: QueryMode::Results,
                ..old(self).query
            }),
            *final(self) == (App {
                query: final(self).query,
                view: view::View::EntityDetail,
                entity_tab: EntityTab::Query,
                state: AppState::Ready,
                ..*old(self)
            }),
    {
        self.query.result = QueryResult::from_json(json);
        self.view = view::View::EntityDetail;
        self.entity_tab = EntityTab::Query;
        self.query.mode = QueryMode::Results;
        self.state = AppState::Ready;
    }

    /// Notes that a raw query failed: the failure is the error shown and the
    /// state is `Ready`.
    pub fn fetch_xml_failed(&mut self, error: &str)
        ensures
            opt_view(final(self).error) == Some("FetchXML execution failed: "@ + error@),
            *final(self) == (App { state: AppState::Ready, error: final(self).error, ..*old(self) }),
    {
        self.fail("FetchXML execution failed: ", error, AppState::Ready);
    }

    /// The lookup of the cell under the cursor of the record detail.
    pub open spec fn lookup_under_cursor(&self) -> Option<LookupInfoView> {
        match self.selected_record_index {
            Some(row) => if self.query.result@.lookups.contains_key(
                (row as int, self.record_detail_index as int),
            ) {
                Some(self.query.result@.lookups[(row as int, self.record_detail_index as int)])
            } else {
                None
            },
            None => None,
        }
    }

    /// Whether `post` and `r` are what asking for the record that the cell under
    /// the cursor of `pre` refers to gives.
    pub open spec fn related_record_asked(pre: App, post: App, r: Option<RelatedRecord>) -> bool {
        &&& match pre.lookup_under_cursor() {
                None => r is None && post == pre,
                Some(lookup) => match first_named(pre.entities@, lookup.logical_name) {
                    None => {
                        &&& r is None
                        &&& opt_view(post.error) == Some(
                            "Entity metadata not found for: "@ + lookup.logical_name,
                        )
                        &&& post == (App { error: post.error, ..pre })
                    },
                    Some(at) => {
                        &&& r is Some
                        &&& r->0.entity_index == at
                        &&& r->0.logical_name@ == lookup.logical_name
                        &&& r->0.id@ == lookup.id
                        &&& post == pre
                    },
                },
            }
    }

    /// Navigate to a related record from the current record detail view.
    /// Where the cell under the cursor has no lookup, nothing is asked and
    /// nothing changes. Where the entity that the lookup refers to is not among
    /// the entities, nothing is asked and the error says so. Else the record
    /// that the lookup refers to is to be opened.
    pub fn navigate_to_related_record(&mut self) -> (r: Option<RelatedRecord>)
        ensures
            App::related_record_asked(*old(self), *final(self), r),
    {
        let (logical_name, id) = match self.selected_lookup() {
            Some(lookup) => (lookup.logical_name.clone(), lookup.id.clone()),
            None => {
                return None;
            },
        };
        // Find the target entity metadata
        match find_entity(&self.entities, logical_name.as_str()) {
            Some(at) => Some(RelatedRecord { entity_index: at, logical_name, id }),
            None => {
                self.error = Some(glue("Entity metadata not found for: ", logical_name.as_str()));
                None
            },
        }
    }

    /// Selects the entity of a related record, once its detail is loaded,
    /// and says where the record is to be asked for: under the set of the
    /// entity, by its identifier. The state is `Loading` and no error is shown.
    /// Where the entities hold nothing at the place given, nothing is asked and
    /// nothing changes.
    pub fn open_related_record(&mut self, target: &RelatedRecord) -> (r: Option<String>)
        ensures
            target.entity_index >= old(self).entities@.len() ==> r is None && *final(self) == *old(
                self,
            ),
            target.entity_index < old(self).entities@.len() ==> {
                &&& r is Some
                &&& r->0@ == old(self).entities@[target.entity_index as int].set_name_text() + "("@
                    + target.id@ + ")"@
                &&& final(self).selected_entity is Some
                &&& old(self).entities@[target.entity_index as int].same_as(
                    final(self).selected_entity->0,
                )
                &&& *final(self) == (App {
                    selected_entity: final(self).selected_entity,
                    state: AppState::Loading,
                    error: None,
                    ..*old(self)
                })
            },
    {
        if target.entity_index >= self.entities.len() {
            return None;
        }
        let entity = self.entities[target.entity_index].clone();
        let endpoint = record_endpoint(entity.resolve_set_name().as_str(), target.id.as_str());
        self.selected_entity = Some(entity);
        self.state = AppState::Loading;
        self.error = None;
        Some(endpoint)
    }

    /// Takes in a related record: the table of that one record replaces the
    /// result held, the record is selected with the cursor on its first
    /// field, the view is the record detail, and the state is `Ready`.
    pub fn related_record_answered(&mut self, record: JsonValue, raw_json: String)
        ensures
            final(self).query.result@ == (QueryResultView {
                raw_json: Some(raw_json@),
                ..single_record(record)
            }),
            final(self).query == (GuidedQueryState {
                result: final(self).query.result,
                ..old(self).query
            }),
            *final(self) == (App {
                query: final(self).query,
                selected_record_index: Some(0),
                record_detail_index: 0,
                view: view::View::RecordDetail,
                state: AppState::Ready,
                ..*old(self)
            }),
    {
        // Wrap single object in a result format
        let mut records: Vec<JsonValue> = Vec::new();
        records.push(record);
        let ghost held = records@;
        let mut members: Vec<(String, JsonValue)> = Vec::new();
        members.push((String::from_str(RECORDS_KEY), JsonValue::Array(records)));
        let ghost entries = members@;
        let wrapped = JsonValue::Object(members);
        proof {
            reveal_strlit("value");
            reveal_strlit("@odata.nextLink");
            reveal_strlit("@odata.count");
            assert(held =~= seq![record]);
            assert(entries.len() == 1);
            assert(entries.last().0@ == RECORDS_KEY@);
            assert(entries.drop_last() =~= Seq::empty());
            assert(RECORDS_KEY@.len() != NEXT_LINK_KEY@.len());
            assert(RECORDS_KEY@.len() != COUNT_KEY@.len());
            assert(member(entries.drop_last(), NEXT_LINK_KEY@) is None);
            assert(member(entries.drop_last(), COUNT_KEY@) is None);
            assert(member(entries, NEXT_LINK_KEY@) is None);
            assert(member(entries, COUNT_KEY@) is None);
            assert(records_of(wrapped) == Some(held));
            assert(next_link_of(wrapped) is None);
            assert(count_of(wrapped) is None);
        }
        let mut result = QueryResult::from_json(&wrapped);
        result.raw_json = Some(raw_json);
        self.query.result = result;
        self.selected_record_index = Some(0);
        self.record_detail_index = 0;
        self.view = view::View::RecordDetail;
        self.state = AppState::Ready;
    }

    /// Notes that a related record could not be loaded: the failure is the
    /// error shown and the state is `Ready`.
    pub fn related_record_failed(&mut self, error: &str)
        ensures
            opt_view(final(self).error) == Some("Failed to fetch related record: "@ + error@),
            *final(self) == (App { state: AppState::Ready, error: final(self).error, ..*old(self) }),
    {
        self.fail("Failed to fetch related record: ", error, AppState::Ready);
    }

    /// The entity that the component under the cursor stands for: the first
    /// entity whose identifier is, letter case apart, what the component holds,
    /// where the component is of the type of an entity and holds something.
    pub open spec fn component_entity(&self) -> Option<int> {
        match self.component_under_cursor() {
            Some(at) => {
                let component = self.solution_components@[at];
                if ComponentType::of_code(component.type_code()) == ComponentType::Entity {
                    match component.object_id {
                        Some(id) => first_with_id(self.entities@, id@),
                        None => None,
                    }
                } else {
                    None
                }
            },
            None => None,
        }
    }

    /// Jump to the selected component if possible: gives the logical name
    /// of the entity that the component stands for, whose detail is to be
    /// loaded. Nothing changes.
    pub fn jump_to_component(&self) -> (r: Option<String>)
        ensures
            match r {
                Some(name) => self.component_entity() is Some
                    && name@ == self.entities@[self.component_entity()->0].logical_name@,
                None => self.component_entity() is None,
            },
    {
        let component = match self.get_selected_solution_component() {
            Some(component) => component,
            None => {
                return None;
            },
        };
        match component.get_component_type() {
            ComponentType::Entity => {
                let id = match &component.object_id {
                    Some(id) => id,
                    None => {
                        return None;
                    },
                };
                // Find entity by MetadataId
                match find_by_id(&self.entities, id.as_str()) {
                    Some(at) => Some(self.entities[at].logical_name.clone()),
                    None => None,
                }
            },
            _ => None,
        }
    }

    /// Shows the detail of the entity named `logical_name`, on the tab of the
    /// attributes: the first entity of that name is selected, or none where
    /// there is no such entity.
    pub fn open_entity(&mut self, logical_name: &str)
        ensures
            match first_named(old(self).entities@, logical_name@) {
                Some(at) => final(self).selected_entity is Some && old(self).entities@[at].same_as(
                    final(self).selected_entity->0,
                ),
                None => final(self).selected_entity is None,
            },
            *final(self) == (App {
                selected_entity: final(self).selected_entity,
                view: view::View::EntityDetail,
                entity_tab: EntityTab::Attributes,
                ..*old(self)
            }),
    {
        self.selected_entity = match find_entity(&self.entities, logical_name) {
            Some(at) => Some(self.entities[at].clone()),
            None => None,
        };
        self.view = view::View::EntityDetail;
        self.entity_tab = EntityTab::Attributes;
    }

    /// The search result under the cursor.
    pub open spec fn result_under_cursor(&self) -> Option<SearchResult> {
        if self.global_search_index < self.global_search_results@.len() {
            Some(self.global_search_results@[self.global_search_index as int])
        } else {
            None
        }
    }

    /// Whether `post` and `r` are what entering the search result under the
    /// cursor of `pre` gives.
    pub open spec fn search_result_entered(pre: App, post: App, r: Option<SearchTarget>) -> bool {
        &&& match pre.result_under_cursor() {
                None => r is None && post == pre,
                Some(SearchResult::Entity(index)) => {
                    &&& post == pre
                    &&& if index < pre.entities@.len() {
                        r matches Some(SearchTarget::Entity { index: at, logical_name }) && at
                            == index && logical_name@ == pre.entities@[index as int].logical_name@
                    } else {
                        r is None
                    }
                },
                Some(SearchResult::Solution(index)) => {
                    &&& post == pre
                    &&& if index < pre.solutions@.len() {
                        r matches Some(SearchTarget::Solution { index: at, solution_id }) && at
                            == index && solution_id@ == pre.solutions@[index as int].solution_id@
                    } else {
                        r is None
                    }
                },
                Some(SearchResult::OptionSet(index)) => {
                    &&& r matches Some(SearchTarget::OptionSet)
                    &&& match position_in(pre.filtered_optionsets@, index) {
                        Some(at) => post == (App {
                            optionset_index: at as usize,
                            view: view::View::OptionSets,
                            ..pre
                        }),
                        None => {
                            &&& post.search_query@.len() == 0
                            &&& post.filtered_optionsets@ == filtered(
                                pre.global_optionsets@,
                                Seq::<char>::empty(),
                            )
                            &&& post == (App {
                                search_query: post.search_query,
                                filtered_optionsets: post.filtered_optionsets,
                                optionset_index: index,
                                view: view::View::OptionSets,
                                ..pre
                            })
                        },
                    }
                },
            }
    }

    /// Enter the selected search result. For an entity or a solution, says
    /// what is to be loaded and changes nothing; where the list holds nothing at
    /// the place that the result names, nothing is to be loaded. For an option
    /// set, the view is that of the option sets with the cursor on the option
    /// set: on its place in the narrowed list where it is in it, else the list
    /// is no longer narrowed, the search text is emptied, and the cursor is on
    /// the place of the option set.
    pub fn enter_search_result(&mut self) -> (r: Option<SearchTarget>)
        ensures
            App::search_result_entered(*old(self), *final(self), r),
    {
        if self.global_search_index >= self.global_search_results.len() {
            return None;
        }
        match self.global_search_results[self.global_search_index] {
            SearchResult::Entity(index) => {
                if index < self.entities.len() {
                    Some(
                        SearchTarget::Entity {
                            index,
                            logical_name: self.entities[index].logical_name.clone(),
                        },
                    )
                } else {
                    None
                }
            },
            SearchResult::Solution(index) => {
                if index < self.solutions.len() {
                    Some(
                        SearchTarget::Solution {
                            index,
                            solution_id: self.solutions[index].solution_id.clone(),
                        },
                    )
                } else {
                    None
                }
            },
            SearchResult::OptionSet(index) => {
                // We need to find the filtered index for the OptionSet view
                match find_position(&self.filtered_optionsets, index) {
                    Some(at) => {
                        self.optionset_index = at;
                    },
                    None => {
                        // Reset filter if not found
                        self.search_query = String::new();
                        self.filter_optionsets();
                        self.optionset_index = index;
                    },
                }
                self.view = view::View::OptionSets;
                Some(SearchTarget::OptionSet)
            },
        }
    }

    /// Shows the detail of the entity at `index`, once it is loaded. Where
    /// the entities hold nothing at that place, nothing changes.
    pub fn search_entity_opened(&mut self, index: usize)
        ensures
            index >= old(self).entities@.len() ==> *final(self) == *old(self),
            index < old(self).entities@.len() ==> {
                &&& final(self).selected_entity is Some
                &&& old(self).entities@[index as int].same_as(final(self).selected_entity->0)
                &&& *final(self) == (App {
                    selected_entity: final(self).selected_entity,
                    view: view::View::EntityDetail,
                    ..*old(self)
                })
            },
    {
        if index < self.entities.len() {
            self.selected_entity = Some(self.entities[index].clone());
            self.view = view::View::EntityDetail;
        }
    }

    /// Shows the detail of the solution at `index`, once it is loaded. Where
    /// the solutions hold nothing at that place, nothing changes.
    pub fn search_solution_opened(&mut self, index: usize)
        ensures
            *final(self) == if index < old(self).solutions@.len() {
                App {
                    selected_solution: Some(old(self).solutions@[index as int]),
                    view: view::View::SolutionDetail,
                    ..*old(self)
                }
            } else {
                *old(self)
            },
    {
        if index < self.solutions.len() {
            self.selected_solution = Some(self.solutions[index].clone());
            self.view = view::View::SolutionDetail;
        }
    }

    /// Switch to a different environment: notes that the environment at
    /// `url` is being connected to.
    pub fn switch_environment(&mut self, url: &str)
        ensures
            opt_view(final(self).message) == Some("Connecting to "@ + url@ + "..."@),
            *final(self) == (App {
                state: AppState::Loading,
                error: None,
                message: final(self).message,
                ..*old(self)
            }),
    {
        self.state = AppState::Loading;
        self.error = None;
        self.message = Some(glue3("Connecting to ", url, "..."));
    }

    /// Add a new environment: the environment at `url` becomes a known one
    /// if it was none, and the current one, and is being connected to.
    pub fn add_new_environment(&mut self, url: String)
        ensures
            views(final(self).config.environments@) == with_environment(
                views(old(self).config.environments@),
                url@,
            ),
            opt_view(final(self).config.current_env) == Some(url@),
            opt_view(final(self).message) == Some("Connecting to "@ + url@ + "..."@),
            *final(self) == (App {
                config: final(self).config,
                state: AppState::Loading,
                error: None,
                message: final(self).message,
                ..*old(self)
            }),
    {
        self.switch_environment(url.as_str());
        self.config.add_environment(url);
    }

    /// Notes that the environment could not be connected to. Returns the
    /// error shown.
    pub fn connection_failed(&mut self, error: &str) -> (shown: String)
        ensures
            shown@ == "Connection failed: "@ + error@,
            opt_view(final(self).error) == Some(shown@),
            *final(self) == (App { state: AppState::Error, error: final(self).error, ..*old(self) }),
    {
        let shown = glue("Connection failed: ", error);
        self.error = Some(shown.clone());
        self.state = AppState::Error;
        shown
    }

    /// Notes that the environment at `url` is connected to: it is the
    /// current one.
    pub fn environment_connected(&mut self, url: &str)
        ensures
            opt_view(final(self).config.current_env) == Some(url@),
            final(self).config.environments == old(self).config.environments,
            *final(self) == (App { config: final(self).config, ..*old(self) }),
    {
        self.config.current_env = Some(String::from_str(url));
    }

    /// Notes that the switch to the environment at `url` is done: the
    /// entities are shown, with a message that says so.
    pub fn environment_switched(&mut self, url: &str)
        ensures
            opt_view(final(self).message) == Some("Switched to "@ + url@),
            *final(self) == (App {
                view: view::View::Entities,
                state: AppState::Ready,
                message: final(self).message,
                ..*old(self)
            }),
    {
        self.view = view::View::Entities;
        self.message = Some(glue("Switched to ", url));
        self.state = AppState::Ready;
    }

    /// Notes that environments are being discovered.
    pub fn begin_discovery(&mut self)
        ensures
            opt_view(final(self).message) == Some("Discovering environments..."@),
            *final(self) == (App {
                state: AppState::Loading,
                message: final(self).message,
                ..*old(self)
            }),
    {
        self.state = AppState::Loading;
        self.message = Some(String::from_str("Discovering environments..."));
    }

    /// Discover and add all available environments: each address found
    /// that is new becomes a known environment, without the slashes at its
    /// end, and the message says how many were new. Where the discovery failed,
    /// the failure is the error shown. Either way the state is `Ready`.
    pub fn discover_environments(&mut self, found: Result<Vec<String>, String>)
        ensures
            match found {
                Ok(urls) => {
                    &&& views(final(self).config.environments@) == with_discovered(
                        views(old(self).config.environments@),
                        views(urls@),
                    )
                    &&& final(self).config.current_env == old(self).config.current_env
                    &&& opt_view(final(self).message) == Some(
                        "Discovered "@ + decimal(
                            (final(self).config.environments@.len() - old(
                                self,
                            ).config.environments@.len()) as nat,
                        ) + " new environments"@,
                    )
                    &&& *final(self) == (App {
                        config: final(self).config,
                        message: final(self).message,
                        state: AppState::Ready,
                        ..*old(self)
                    })
                },
                Err(error) => {
                    &&& opt_view(final(self).error) == Some("Discovery failed: "@ + error@)
                    &&& *final(self) == (App {
                        state: AppState::Ready,
                        error: final(self).error,
                        ..*old(self)
                    })
                },
            },
    {
        match found {
            Ok(urls) => {
                let added = self.config.add_discovered(&urls);
                self.message = Some(
                    glue3(
                        "Discovered ",
                        decimal_string(added as u64).as_str(),
                        " new environments",
                    ),
                );
                self.state = AppState::Ready;
            },
            Err(error) => {
                self.fail("Discovery failed: ", error.as_str(), AppState::Ready);
            },
        }
    }

    /// Show usage statistics for the selected attribute: where an entity is
    /// selected and an attribute is under the cursor, the count of the records
    /// in which the attribute has a value is to be asked, and the message says
    /// so. Else nothing is asked and nothing changes.
    pub fn show_attribute_usage(&mut self) -> (r: Option<UsageRequest>)
        ensures
            match (old(self).selected_entity, old(self).attribute_under_cursor()) {
                (Some(entity), Some(at)) => {
                    let name = old(self).entity_attributes@[at].logical_name@;
                    &&& r is Some
                    &&& r->0.attribute@ == name
                    &&& r->0.endpoint@ == entity.set_name_text() + "/$count?$filter="@ + name
                        + " ne null"@
                    &&& opt_view(final(self).message) == Some(
                        "Calculating usage for "@ + name + "..."@,
                    )
                    &&& *final(self) == (App { message: final(self).message, ..*old(self) })
                },
                _ => r is None && *final(self) == *old(self),
            },
    {
        let entity_set_name = match &self.selected_entity {
            Some(entity) => entity.resolve_set_name(),
            None => {
                return None;
            },
        };
        let attribute = match self.get_selected_attribute() {
            Some(attribute) => attribute.logical_name.clone(),
            None => {
                return None;
            },
        };
        self.message = Some(glue3("Calculating usage for ", attribute.as_str(), "..."));
        Some(
            UsageRequest {
                endpoint: attribute_count_endpoint(entity_set_name.as_str(), attribute.as_str()),
                attribute,
            },
        )
    }

    /// Says in the message in how many records the attribute has a value.
    pub fn attribute_usage_counted(&mut self, attribute: &str, count: i64)
        ensures
            opt_view(final(self).message) == Some(
                "Attribute '"@ + attribute@ + "' is populated in "@ + signed_decimal(count as int)
                    + " records"@,
            ),
            *final(self) == (App { message: final(self).message, ..*old(self) }),
    {
        let mut message = glue3("Attribute '", attribute, "' is populated in ");
        message.append(signed_decimal_string(count).as_str());
        message.append(" records");
        self.message = Some(message);
    }

    /// Notes that the usage could not be counted: the failure is the error
    /// shown.
    pub fn attribute_usage_failed(&mut self, error: &str)
        ensures
            opt_view(final(self).error) == Some("Failed to calculate usage: "@ + error@),
            *final(self) == (App { error: final(self).error, ..*old(self) }),
    {
        self.error = Some(glue("Failed to calculate usage: ", error));
    }

    /// Whether `post` and `r` are what asking for an export of the results of
    /// `pre` at `moment` gives.
    pub open spec fn export_asked(pre: App, moment: Seq<char>, post: App, r: Option<Export>) -> bool {
        &&& pre.query.result.rows@.len() == 0 ==> {
                &&& r is None
                &&& opt_view(post.message) == Some("No results to export"@)
                &&& post == (App { message: post.message, ..pre })
            }
        &&& pre.query.result.rows@.len() > 0 ==> {
                &&& r is Some
                &&& r->0.path@ == export_path_of(
                    match pre.selected_entity {
                        Some(entity) => Some(entity.logical_name@),
                        None => None,
                    },
                    moment,
                )
                &&& r->0.content@ == csv_of(pre.query.result@.columns, pre.query.result@.rows)
                &&& post == pre
            }
    }

    /// Export current query results: where the result has rows, gives the
    /// file to be written, named by the selected entity and by `moment`, with
    /// the table as comma-separated text. Else the message says that there is
    /// nothing to export, and nothing is to be written.
    pub fn export_query_results(&mut self, moment: &str) -> (r: Option<Export>)
        ensures
            App::export_asked(*old(self), moment@, *final(self), r),
    {
        if self.query.result.rows.len() == 0 {
            self.message = Some(String::from_str("No results to export"));
            return None;
        }
        let path = match &self.selected_entity {
            Some(entity) => export_path(Some(entity.logical_name.as_str()), moment),
            None => export_path(None, moment),
        };
        Some(Export { path, content: export_to_csv(&self.query.result) })
    }

    /// Says in the message how the export went.
    pub fn export_finished(&mut self, outcome: Result<String, String>)
        ensures
            opt_view(final(self).message) == Some(
                match outcome {
                    Ok(path) => "Exported to "@ + path@,
                    Err(error) => "Export failed: "@ + error@,
                },
            ),
            *final(self) == (App { message: final(self).message, ..*old(self) }),
    {
        self.message = Some(
            match outcome {
                Ok(path) => glue("Exported to ", path.as_str()),
                Err(error) => glue("Export failed: ", error.as_str()),
            },
        );
    }
}

} // verus!
