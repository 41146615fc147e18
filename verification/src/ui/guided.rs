//! The guided query: what the user has chosen so far, and the query and the
//! table that follow from it.

use vstd::prelude::*;
use crate::json::JsonValue;
use crate::models::entity::{AttributeMetadata, EntityMetadata};
use crate::models::query::{
    parsed, url_of, QueryDefinition, QueryResult, QueryResultView,
};
use crate::text::{join, views};
use crate::ui::filter::{filter_expression, fragments, FilterCondition, FilterOp};

verus! {

/// How many rows a query asks for unless the user says otherwise.
pub const DEFAULT_TOP: usize = 50;

/// Query builder mode
#[derive(Debug, Clone, Copy, PartialEq, Eq, Structural)]
pub enum QueryMode {
    /// Select columns to include
    Columns,
    /// Build filter conditions
    Filter,
    /// Select order by column
    OrderBy,
    /// Top, skip options
    Options,
    /// View results
    Results,
}

impl Default for QueryMode {
    fn default() -> (r: QueryMode)
        ensures
            r == QueryMode::Columns,
    {
        QueryMode::Columns
    }
}

impl QueryMode {
    /// The section that comes next in the cycle: after the columns the
    /// filter, after that the options, after those the results, and after the
    /// results the columns again. After the order, which no section leads to,
    /// come the results. Which section comes next is one thing, how it is
    /// entered another: the results are entered by the answer to the query.
    pub open spec fn following(self) -> QueryMode {
        match self {
            QueryMode::Columns => QueryMode::Filter,
            QueryMode::Filter => QueryMode::Options,
            QueryMode::Options => QueryMode::Results,
            QueryMode::OrderBy => QueryMode::Results,
            QueryMode::Results => QueryMode::Columns,
        }
    }

    /// Whether the next section is that of the results, which is entered by
    /// asking the query and by nothing else.
    pub open spec fn leads_to_results(self) -> bool {
        self.following() == QueryMode::Results
    }

    /// The section that comes next in the cycle.
    pub fn next(&self) -> (r: QueryMode)
        ensures
            r == self.following(),
    {
        match self {
            QueryMode::Columns => QueryMode::Filter,
            QueryMode::Filter => QueryMode::Options,
            QueryMode::Options => QueryMode::Results,
            QueryMode::OrderBy => QueryMode::Results,
            QueryMode::Results => QueryMode::Columns,
        }
    }
}

/// The sections form a cycle of four: from any section that the cycle holds,
/// the fourth section on is the section itself.
pub proof fn sections_cycle(mode: QueryMode)
    requires
        mode != QueryMode::OrderBy,
    ensures
        mode.following().following().following().following() == mode,
        mode.following() != mode,
{
}

/// The state of a guided query.
#[derive(Debug, Clone)]
pub struct GuidedQueryState {
    /// The section that the user is in
    pub mode: QueryMode,
    /// Which attributes are selected, parallel to the attributes of the entity
    pub selected_columns: Vec<bool>,
    /// Cursor in column list
    pub column_index: usize,
    /// Index of attribute to order by (None = no order)
    pub order_by: Option<usize>,
    /// Order descending
    pub order_desc: bool,
    /// $top value
    pub top: Option<usize>,
    /// Attribute index for the filter in progress
    pub filter_attr: Option<usize>,
    /// Operator of the filter in progress
    pub filter_op: FilterOp,
    /// Value of the filter in progress
    pub filter_value: String,
    /// Applied filters
    pub filters: Vec<FilterCondition>,
    /// Cursor in filter list
    pub filter_index: usize,
    /// What the last query gave
    pub result: QueryResult,
    /// Cursor in the rows of the result
    pub result_index: usize,
    /// Editing filter value
    pub editing: bool,
}

/// The names of the attributes that are selected, in the order of the
/// attributes. A flag without an attribute selects nothing.
pub open spec fn selected_names(flags: Seq<bool>, attributes: Seq<AttributeMetadata>) -> Seq<
    Seq<char>,
>
    decreases flags.len(),
{
    if flags.len() == 0 {
        Seq::empty()
    } else {
        let before = selected_names(flags.drop_last(), attributes);
        if flags.last() && flags.len() <= attributes.len() {
            before.push(attributes[flags.len() - 1].logical_name@)
        } else {
            before
        }
    }
}

/// The order of a query: the name of the attribute at `order_by`, with
/// ` desc` after it where the order is descending; empty where no attribute
/// is chosen or there is none at that place.
pub open spec fn order_text(
    order_by: Option<usize>,
    descending: bool,
    attributes: Seq<AttributeMetadata>,
) -> Seq<char> {
    match order_by {
        Some(at) => if at < attributes.len() {
            attributes[at as int].logical_name@ + (if descending {
                " desc"@
            } else {
                Seq::empty()
            })
        } else {
            Seq::empty()
        },
        None => Seq::empty(),
    }
}

impl GuidedQueryState {
    /// Whether the state is that of a query of which nothing is chosen: in
    /// the section of the columns, no column selected, no filter, no order, the
    /// row limit at its default, and no result.
    pub open spec fn is_cleared(&self) -> bool {
        &&& self.mode == QueryMode::Columns
        &&& forall|i: int| 0 <= i < self.selected_columns@.len() ==> !self.selected_columns@[i]
        &&& self.filters@.len() == 0
        &&& self.order_by is None
        &&& !self.order_desc
        &&& self.top == Some(DEFAULT_TOP)
        &&& self.result@ == QueryResultView::empty()
        &&& self.result_index == 0
    }

    /// The state before anything is chosen, for an entity without attributes.
    pub fn new() -> (r: GuidedQueryState)
        ensures
            r.is_cleared(),
            r.selected_columns@.len() == 0,
            r.column_index == 0,
            r.filter_attr is None,
            r.filter_op == FilterOp::Equals,
            r.filter_value@.len() == 0,
            r.filter_index == 0,
            !r.editing,
    {
        GuidedQueryState {
            mode: QueryMode::Columns,
            selected_columns: Vec::new(),
            column_index: 0,
            order_by: None,
            order_desc: false,
            top: Some(DEFAULT_TOP),
            filter_attr: None,
            filter_op: FilterOp::Equals,
            filter_value: String::new(),
            filters: Vec::new(),
            filter_index: 0,
            result: QueryResult::default(),
            result_index: 0,
            editing: false,
        }
    }

    /// Starts over for another entity with `attributes` attributes: one flag
    /// for each, none set; no filter, no order, no result; the cursors at the
    /// top; in the section of the columns. The row limit and the filter in
    /// progress stay.
    pub fn reset_for_entity(&mut self, attributes: usize)
        ensures
            final(self).selected_columns@ == Seq::new(attributes as nat, |i: int| false),
            final(self).column_index == 0,
            final(self).order_by is None,
            !final(self).order_desc,
            final(self).filters@.len() == 0,
            final(self).filter_index == 0,
            final(self).result@ == QueryResultView::empty(),
            final(self).result_index == 0,
            final(self).mode == QueryMode::Columns,
            final(self).top == old(self).top,
            final(self).filter_attr == old(self).filter_attr,
            final(self).filter_op == old(self).filter_op,
            final(self).filter_value == old(self).filter_value,
            final(self).editing == old(self).editing,
    {
        let mut flags: Vec<bool> = Vec::new();
        let mut i: usize = 0;
        while i < attributes
            invariant
                i <= attributes,
                flags@ == Seq::new(i as nat, |j: int| false),
            decreases attributes - i,
        {
            flags.push(false);
            assert(flags@ =~= Seq::new((i + 1) as nat, |j: int| false));
            i += 1;
        }
        self.selected_columns = flags;
        self.column_index = 0;
        self.order_by = None;
        self.order_desc = false;
        self.filters.clear();
        self.filter_index = 0;
        self.result = QueryResult::default();
        self.result_index = 0;
        self.mode = QueryMode::Columns;
    }

    /// Sets every flag to `value`.
    fn set_all_columns(&mut self, value: bool)
        ensures
            final(self).selected_columns@ == Seq::new(
                old(self).selected_columns@.len(),
                |i: int| value,
            ),
            *final(self) == (GuidedQueryState {
                selected_columns: final(self).selected_columns,
                ..*old(self)
            }),
    {
        let mut i: usize = 0;
        while i < self.selected_columns.len()
            invariant
                i <= self.selected_columns.len(),
                self.selected_columns@.len() == old(self).selected_columns@.len(),
                forall|j: int| 0 <= j < i ==> self.selected_columns@[j] == value,
                *self == (GuidedQueryState { selected_columns: self.selected_columns, ..*old(self) }),
            decreases self.selected_columns.len() - i,
        {
            self.selected_columns.set(i, value);
            i += 1;
        }
        assert(self.selected_columns@ =~= Seq::new(
            old(self).selected_columns@.len(),
            |i: int| value,
        ));
    }

    /// Toggle column selection at current index
    pub fn toggle_column(&mut self)
        ensures
            final(self).selected_columns@ == if old(self).column_index < old(
                self,
            ).selected_columns@.len() {
                old(self).selected_columns@.update(
                    old(self).column_index as int,
                    !old(self).selected_columns@[old(self).column_index as int],
                )
            } else {
                old(self).selected_columns@
            },
            *final(self) == (GuidedQueryState {
                selected_columns: final(self).selected_columns,
                ..*old(self)
            }),
    {
        if self.column_index < self.selected_columns.len() {
            let flag = self.selected_columns[self.column_index];
            self.selected_columns.set(self.column_index, !flag);
        }
    }

    /// Select all columns
    pub fn select_all_columns(&mut self)
        ensures
            final(self).selected_columns@ == Seq::new(
                old(self).selected_columns@.len(),
                |i: int| true,
            ),
            *final(self) == (GuidedQueryState {
                selected_columns: final(self).selected_columns,
                ..*old(self)
            }),
    {
        self.set_all_columns(true);
    }

    /// Clear all column selections
    pub fn clear_column_selections(&mut self)
        ensures
            final(self).selected_columns@ == Seq::new(
                old(self).selected_columns@.len(),
                |i: int| false,
            ),
            *final(self) == (GuidedQueryState {
                selected_columns: final(self).selected_columns,
                ..*old(self)
            }),
    {
        self.set_all_columns(false);
    }

    /// Starts a filter on the attribute under the cursor and goes to the
    /// section of the filter. The operator of the new filter is `Equals`,
    /// whatever operator an earlier filter was given.
    pub fn begin_filter(&mut self)
        ensures
            *final(self) == (GuidedQueryState {
                filter_attr: Some(old(self).column_index),
                filter_op: FilterOp::Equals,
                mode: QueryMode::Filter,
                ..*old(self)
            }),
    {
        self.filter_attr = Some(self.column_index);
        self.filter_op = FilterOp::Equals;
        self.mode = QueryMode::Filter;
    }

    /// Gives up the filter in progress. Nothing is added to the filters.
    pub fn cancel_filter(&mut self)
        ensures
            *final(self) == (GuidedQueryState { filter_attr: None, ..*old(self) }),
    {
        self.filter_attr = None;
    }

    /// Whether a filter is in progress on one of `attributes`.
    pub open spec fn filter_ready(&self, attributes: Seq<AttributeMetadata>) -> bool {
        match self.filter_attr {
            Some(at) => at < attributes.len(),
            None => false,
        }
    }

    /// Whether the filter in progress lacks the value that its operator
    /// compares with: the operator takes a value and none is written.
    pub open spec fn filter_lacks_value(&self) -> bool {
        self.filter_op.takes_value() && self.filter_value@.len() == 0
    }

    /// Whether the filter in progress can be added to the filters: it is on
    /// one of `attributes` and does not lack its value.
    pub open spec fn filter_complete(&self, attributes: Seq<AttributeMetadata>) -> bool {
        self.filter_ready(attributes) && !self.filter_lacks_value()
    }

    /// Add current filter to the list: where a filter is in progress on one
    /// of `attributes` and does not lack its value, it comes after the filters
    /// held, and no filter is in progress any more. Else nothing changes: a
    /// condition without the value that it needs is never among the filters.
    pub fn add_filter(&mut self, attributes: &Vec<AttributeMetadata>)
        ensures
            !old(self).filter_complete(attributes@) ==> *final(self) == *old(self),
            old(self).filter_complete(attributes@) ==> {
                &&& final(self).filters@.len() == old(self).filters@.len() + 1
                &&& final(self).filters@.drop_last() == old(self).filters@
                &&& final(self).filters@.last().attribute_name@
                    == attributes@[old(self).filter_attr->0 as int].logical_name@
                &&& final(self).filters@.last().operator == old(self).filter_op
                &&& final(self).filters@.last().value@ == old(self).filter_value@
                &&& final(self).filter_value@.len() == 0
                &&& *final(self) == (GuidedQueryState {
                    filters: final(self).filters,
                    filter_value: final(self).filter_value,
                    filter_attr: None,
                    ..*old(self)
                })
            },
    {
        if let Some(at) = self.filter_attr {
            let lacks_value = self.filter_op.needs_value()
                && self.filter_value.as_str().is_empty();
            if at < attributes.len() && !lacks_value {
                let filter = FilterCondition {
                    attribute_name: attributes[at].logical_name.clone(),
                    operator: self.filter_op,
                    value: self.filter_value.clone(),
                };
                self.filters.push(filter);
                self.filter_value = String::new();
                self.filter_attr = None;
            }
        }
    }

    /// Remove filter at current index. The cursor moves one up unless it is
    /// at the top.
    pub fn remove_filter(&mut self)
        ensures
            old(self).filter_index >= old(self).filters@.len() ==> *final(self) == *old(self),
            old(self).filter_index < old(self).filters@.len() ==> {
                &&& final(self).filters@ == old(self).filters@.remove(old(self).filter_index as int)
                &&& final(self).filter_index == if old(self).filter_index > 0 {
                    (old(self).filter_index - 1) as usize
                } else {
                    0
                }
                &&& *final(self) == (GuidedQueryState {
                    filters: final(self).filters,
                    filter_index: final(self).filter_index,
                    ..*old(self)
                })
            },
    {
        if self.filter_index < self.filters.len() {
            self.filters.remove(self.filter_index);
            if self.filter_index > 0 {
                self.filter_index -= 1;
            }
        }
    }

    /// Clear query and results
    pub fn clear(&mut self)
        ensures
            final(self).is_cleared(),
            final(self).selected_columns@.len() == old(self).selected_columns@.len(),
            *final(self) == (GuidedQueryState {
                selected_columns: final(self).selected_columns,
                filters: final(self).filters,
                order_by: None,
                order_desc: false,
                top: Some(DEFAULT_TOP),
                result: final(self).result,
                result_index: 0,
                mode: QueryMode::Columns,
                ..*old(self)
            }),
    {
        self.set_all_columns(false);
        self.filters.clear();
        self.order_by = None;
        self.order_desc = false;
        self.top = Some(DEFAULT_TOP);
        self.result = QueryResult::default();
        self.result_index = 0;
        self.mode = QueryMode::Columns;
    }

    /// Navigate query results up
    pub fn result_up(&mut self)
        ensures
            *final(self) == (GuidedQueryState {
                result_index: if old(self).result_index > 0 {
                    (old(self).result_index - 1) as usize
                } else {
                    0
                },
                ..*old(self)
            }),
    {
        if self.result_index > 0 {
            self.result_index -= 1;
        }
    }

    /// Navigate query results down
    pub fn result_down(&mut self)
        ensures
            *final(self) == (GuidedQueryState {
                result_index: if old(self).result_index + 1 < old(self).result.rows@.len() {
                    (old(self).result_index + 1) as usize
                } else {
                    old(self).result_index
                },
                ..*old(self)
            }),
    {
        if self.result.rows.len() > 0 && self.result_index < self.result.rows.len() - 1 {
            self.result_index += 1;
        }
    }

    /// Goes to the next section, unless that is the section of the results:
    /// the results are entered by the answer to the query, so there nothing
    /// changes, and the return says that the query is to be asked.
    pub fn next_section(&mut self) -> (ask: bool)
        ensures
            ask == old(self).mode.leads_to_results(),
            *final(self) == if ask {
                *old(self)
            } else {
                GuidedQueryState { mode: old(self).mode.following(), ..*old(self) }
            },
    {
        let next = self.mode.next();
        if next == QueryMode::Results {
            true
        } else {
            self.mode = next;
            false
        }
    }

    /// The names of the selected attributes.
    pub fn selected_column_names(&self, attributes: &Vec<AttributeMetadata>) -> (names: Vec<String>)
        ensures
            views(names@) == selected_names(self.selected_columns@, attributes@),
    {
        let mut names: Vec<String> = Vec::new();
        let mut i: usize = 0;
        proof {
            assert(self.selected_columns@.take(0) =~= Seq::empty());
            assert(views(names@) =~= Seq::empty());
        }
        while i < self.selected_columns.len()
            invariant
                i <= self.selected_columns.len(),
                views(names@) == selected_names(self.selected_columns@.take(i as int), attributes@),
            decreases self.selected_columns.len() - i,
        {
            proof {
                let flags = self.selected_columns@;
                assert(flags.take(i as int + 1).drop_last() == flags.take(i as int));
                assert(flags.take(i as int + 1).last() == flags[i as int]);
            }
            if self.selected_columns[i] && i < attributes.len() {
                let ghost before = views(names@);
                names.push(attributes[i].logical_name.clone());
                proof {
                    assert(views(names@) =~= before.push(attributes@[i as int].logical_name@));
                }
            }
            i += 1;
        }
        proof {
            assert(self.selected_columns@.take(i as int) == self.selected_columns@);
        }
        names
    }

    /// Whether `definition` is the query that this state asks of `entity`:
    /// against the entity's set, the selected attributes as columns, the
    /// conjunction of the filters, the chosen order and row limit, no offset.
    pub open spec fn defines(
        &self,
        entity: EntityMetadata,
        attributes: Seq<AttributeMetadata>,
        definition: QueryDefinition,
    ) -> bool {
        &&& definition.entity_name@ == entity.logical_name@
        &&& definition.entity_set_name@ == entity.set_name_text()
        &&& views(definition.select@) == selected_names(self.selected_columns@, attributes)
        &&& definition.filter@ == join(fragments(self.filters@), " and "@)
        &&& definition.order_by@ == order_text(self.order_by, self.order_desc, attributes)
        &&& definition.top == self.top
        &&& definition.skip is None
    }

    /// The query that this state asks of `entity`, as it is sent.
    pub open spec fn url_text(
        &self,
        entity: EntityMetadata,
        attributes: Seq<AttributeMetadata>,
    ) -> Seq<char> {
        url_of(
            entity.set_name_text(),
            selected_names(self.selected_columns@, attributes),
            join(fragments(self.filters@), " and "@),
            order_text(self.order_by, self.order_desc, attributes),
            self.top,
            None,
        )
    }

    /// The query that this state asks of `entity`, as it is sent.
    pub fn build_url(&self, entity: &EntityMetadata, attributes: &Vec<AttributeMetadata>) -> (out:
        String)
        ensures
            out@ == self.url_text(*entity, attributes@),
    {
        self.definition(entity, attributes).build_url()
    }

    /// The query that this state asks of `entity`.
    pub fn definition(&self, entity: &EntityMetadata, attributes: &Vec<AttributeMetadata>) -> (r:
        QueryDefinition)
        ensures
            self.defines(*entity, attributes@, r),
    {
        let mut order = String::new();
        if let Some(at) = self.order_by {
            if at < attributes.len() {
                order = attributes[at].logical_name.clone();
                if self.order_desc {
                    order.append(" desc");
                }
            }
        }
        proof {
            assert(order@ =~= order_text(self.order_by, self.order_desc, attributes@));
        }
        QueryDefinition {
            entity_name: entity.logical_name.clone(),
            entity_set_name: entity.resolve_set_name(),
            select: self.selected_column_names(attributes),
            filter: filter_expression(&self.filters),
            order_by: order,
            top: self.top,
            skip: None,
        }
    }

    /// Takes in the answer to the query: the table that it is normalised
    /// into, with `raw_json` as its payload, replaces the result held, the
    /// cursor goes to its top, and the section is that of the results.
    pub fn apply_response(&mut self, json: &JsonValue, raw_json: String)
        ensures
            final(self).result@ == (QueryResultView {
                raw_json: Some(raw_json@),
                ..parsed(*json)
            }),
            *final(self) == (GuidedQueryState {
                result: final(self).result,
                result_index: 0,
                mode: QueryMode::Results,
                ..*old(self)
            }),
    {
        let mut result = QueryResult::from_json(json);
        result.raw_json = Some(raw_json);
        self.result = result;
        self.result_index = 0;
        self.mode = QueryMode::Results;
    }

    /// Notes that the query failed: the result held gets `message` as its
    /// error; what it holds besides, and the rest of the state, stay.
    pub fn apply_failure(&mut self, message: String)
        ensures
            final(self).result@ == (QueryResultView { error: Some(message@), ..old(self).result@ }),
            *final(self) == (GuidedQueryState { result: final(self).result, ..*old(self) }),
    {
        self.result.error = Some(message);
    }

    /// Takes in the next page of the result.
    pub fn apply_next_page(&mut self, json: &JsonValue, raw_json: String)
        ensures
            final(self).result@ == old(self).result@.extended(parsed(*json), raw_json@),
            *final(self) == (GuidedQueryState { result: final(self).result, ..*old(self) }),
    {
        self.result.extend(json, raw_json);
    }
}

/// Whether no two of `attributes` share a logical name.
pub open spec fn distinctly_named(attributes: Seq<AttributeMetadata>) -> bool {
    forall|i: int, j: int|
        0 <= i < j < attributes.len() ==> (#[trigger] attributes[i]).logical_name@
            != (#[trigger] attributes[j]).logical_name@
}

/// Every selected name is the name of an attribute whose flag is set.
pub proof fn selected_names_are_selected(
    flags: Seq<bool>,
    attributes: Seq<AttributeMetadata>,
    at: int,
)
    requires
        0 <= at < selected_names(flags, attributes).len(),
    ensures
        exists|k: int|
            0 <= k < flags.len() && k < attributes.len() && flags[k] && (
            #[trigger] attributes[k]).logical_name@ == selected_names(flags, attributes)[at],
    decreases flags.len(),
{
    let init = flags.drop_last();
    let before = selected_names(init, attributes);
    if at < before.len() {
        selected_names_are_selected(init, attributes, at);
        let k = choose|k: int|
            0 <= k < init.len() && k < attributes.len() && init[k] && (
            #[trigger] attributes[k]).logical_name@ == before[at];
        assert(flags[k] == init[k]);
        assert(attributes[k].logical_name@ == selected_names(flags, attributes)[at]);
    } else {
        let k = flags.len() - 1;
        assert(flags[k] && attributes[k].logical_name@ == selected_names(flags, attributes)[at]);
    }
}

/// Where no two attributes share a name, no column is selected twice: the
/// columns of a guided query are distinct, in the order of the attributes.
pub proof fn selected_names_are_distinct(flags: Seq<bool>, attributes: Seq<AttributeMetadata>)
    requires
        distinctly_named(attributes),
    ensures
        selected_names(flags, attributes).no_duplicates(),
    decreases flags.len(),
{
    if flags.len() > 0 {
        let init = flags.drop_last();
        let before = selected_names(init, attributes);
        let names = selected_names(flags, attributes);
        selected_names_are_distinct(init, attributes);
        if flags.last() && flags.len() <= attributes.len() {
            let last = flags.len() - 1;
            assert forall|i: int, j: int| 0 <= i < j < names.len() implies names[i] != names[j] by {
                if j < before.len() {
                    assert(before[i] != before[j]);
                } else {
                    selected_names_are_selected(init, attributes, i);
                    let k = choose|k: int|
                        0 <= k < init.len() && k < attributes.len() && init[k] && (
                        #[trigger] attributes[k]).logical_name@ == before[i];
                    assert(attributes[k].logical_name@ != attributes[last].logical_name@);
                }
            }
        }
    }
}

} // verus!
