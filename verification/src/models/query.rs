//! Query definitions and the table that a response is normalised into.

use vstd::prelude::*;
use crate::models::entity::copy_text;
use crate::json::{lookup_member, member, JsonNumber, JsonValue};
use crate::text::{
    decimal, decimal_string, has_prefix, has_suffix, insert_sorted, insert_sorted_keeps_order,
    insert_sorted_members, insert_text, join, join_strings, starts_with_char, strictly_sorted, views,
};

verus! {

/// What a response must hold at its top for rows to be read from it.
pub const RECORDS_KEY: &'static str = "value";

/// The key under which a response names its continuation.
pub const NEXT_LINK_KEY: &'static str = "@odata.nextLink";

/// The key under which a response gives the total number of records.
pub const COUNT_KEY: &'static str = "@odata.count";

/// What follows a column's name in the key of its formatted value.
pub const FORMATTED_VALUE_SUFFIX: &'static str = "@OData.Community.Display.V1.FormattedValue";

/// What follows a column's name in the key that names the entity a lookup
/// refers to.
pub const LOOKUP_NAME_SUFFIX: &'static str = "@Microsoft.Dynamics.CRM.lookuplogicalname";

/// The error of a response without an array of records.
pub const MISSING_RECORDS: &'static str = "Invalid response format: missing 'value' array";

/// The text of an optional string.
pub open spec fn opt_view(s: Option<String>) -> Option<Seq<char>> {
    match s {
        Some(s) => Some(s@),
        None => None,
    }
}

/// Metadata for a lookup field
#[derive(Debug)]
pub struct LookupInfo {
    /// GUID of the related record
    pub id: String,
    /// Logical name of the target entity
    pub logical_name: String,
    /// Formatted display value if available
    pub display_name: Option<String>,
}

impl Clone for LookupInfo {
    fn clone(&self) -> (r: LookupInfo)
        ensures
            r == *self,
    {
        LookupInfo {
            id: self.id.clone(),
            logical_name: self.logical_name.clone(),
            display_name: copy_text(&self.display_name),
        }
    }
}

/// A `LookupInfo` as text.
pub struct LookupInfoView {
    pub id: Seq<char>,
    pub logical_name: Seq<char>,
    pub display_name: Option<Seq<char>>,
}

impl View for LookupInfo {
    type V = LookupInfoView;

    open spec fn view(&self) -> LookupInfoView {
        LookupInfoView {
            id: self.id@,
            logical_name: self.logical_name@,
            display_name: opt_view(self.display_name),
        }
    }
}

impl Default for LookupInfo {
    fn default() -> (r: LookupInfo)
        ensures
            r@ == (LookupInfoView { id: Seq::empty(), logical_name: Seq::empty(), display_name: None }),
    {
        LookupInfo { id: String::new(), logical_name: String::new(), display_name: None }
    }
}

/// The lookup found in one cell of a table.
#[derive(Debug, Clone)]
pub struct LookupEntry {
    pub row: usize,
    pub column: usize,
    pub info: LookupInfo,
}

/// The lookups of a table, by row and column. Where a cell was entered twice,
/// the later entry counts.
///
/// The entries are held in a list and searched from its end. A hash map
/// keyed by the pair of row and column would do the same at run time, but
/// vstd models the hashing of integers only: of a map with a pair as its key
/// nothing can be proved, not even that it holds what was just put in.
#[derive(Debug, Clone)]
pub struct LookupTable {
    pub entries: Vec<LookupEntry>,
}

/// The cells that `entries` fill, each with its lookup.
pub open spec fn cells(entries: Seq<LookupEntry>) -> Map<(int, int), LookupInfoView>
    decreases entries.len(),
{
    if entries.len() == 0 {
        Map::empty()
    } else {
        cells(entries.drop_last()).insert(
            (entries.last().row as int, entries.last().column as int),
            entries.last().info@,
        )
    }
}

impl View for LookupTable {
    type V = Map<(int, int), LookupInfoView>;

    open spec fn view(&self) -> Map<(int, int), LookupInfoView> {
        cells(self.entries@)
    }
}

impl LookupTable {
    /// A table without lookups.
    pub fn new() -> (r: LookupTable)
        ensures
            r@ == Map::<(int, int), LookupInfoView>::empty(),
    {
        LookupTable { entries: Vec::new() }
    }

    /// Enters `info` for the cell at `row` and `column`.
    pub fn insert(&mut self, row: usize, column: usize, info: LookupInfo)
        ensures
            final(self)@ == old(self)@.insert((row as int, column as int), info@),
    {
        self.entries.push(LookupEntry { row, column, info });
        proof {
            assert(self.entries@.drop_last() == old(self).entries@);
        }
    }

    /// The lookup of the cell at `row` and `column`, if it has one.
    pub fn get(&self, row: usize, column: usize) -> (r: Option<&LookupInfo>)
        ensures
            match r {
                Some(info) => self@.contains_key((row as int, column as int)) && self@[(
                    row as int,
                    column as int,
                )] == info@,
                None => !self@.contains_key((row as int, column as int)),
            },
    {
        let mut i: usize = self.entries.len();
        proof {
            assert(self.entries@.take(i as int) == self.entries@);
        }
        while i > 0
            invariant
                i <= self.entries.len(),
                self@.contains_key((row as int, column as int)) == cells(
                    self.entries@.take(i as int),
                ).contains_key((row as int, column as int)),
                self@.contains_key((row as int, column as int)) ==> self@[(row as int, column as int)]
                    == cells(self.entries@.take(i as int))[(row as int, column as int)],
            decreases i,
        {
            proof {
                assert(self.entries@.take(i as int).drop_last() == self.entries@.take(i as int - 1));
            }
            if self.entries[i - 1].row == row && self.entries[i - 1].column == column {
                return Some(&self.entries[i - 1].info);
            }
            i -= 1;
        }
        None
    }

    /// Whether no cell has a lookup.
    pub fn is_empty(&self) -> (r: bool)
        ensures
            r == (self@ == Map::<(int, int), LookupInfoView>::empty()),
    {
        proof {
            if self.entries.len() > 0 {
                let last = self.entries@.last();
                assert(self@.contains_key((last.row as int, last.column as int)));
            }
        }
        self.entries.len() == 0
    }
}

/// The clauses of a query, in their fixed order: select, filter, order, top,
/// skip. A field that is empty or unset gives no clause.
pub open spec fn clauses_of(
    select: Seq<Seq<char>>,
    filter: Seq<char>,
    order_by: Seq<char>,
    top: Option<usize>,
    skip: Option<usize>,
) -> Seq<Seq<char>> {
    (if select.len() > 0 {
        seq!["$select="@ + join(select, ","@)]
    } else {
        Seq::empty()
    }) + (if filter.len() > 0 {
        seq!["$filter="@ + filter]
    } else {
        Seq::empty()
    }) + (if order_by.len() > 0 {
        seq!["$orderby="@ + order_by]
    } else {
        Seq::empty()
    }) + (match top {
        Some(n) => seq!["$top="@ + decimal(n as nat)],
        None => Seq::empty(),
    }) + (match skip {
        Some(n) => seq!["$skip="@ + decimal(n as nat)],
        None => Seq::empty(),
    })
}

/// A query as it is sent: the entity set alone where there is no clause,
/// else the entity set, a question mark, and the clauses joined by `&`.
pub open spec fn url_of(
    entity_set_name: Seq<char>,
    select: Seq<Seq<char>>,
    filter: Seq<char>,
    order_by: Seq<char>,
    top: Option<usize>,
    skip: Option<usize>,
) -> Seq<char> {
    let clauses = clauses_of(select, filter, order_by, top, skip);
    if clauses.len() == 0 {
        entity_set_name
    } else {
        entity_set_name + "?"@ + join(clauses, "&"@)
    }
}

/// A query definition for executing against an entity
#[derive(Debug, Clone)]
pub struct QueryDefinition {
    /// Entity logical name to query
    pub entity_name: String,
    /// Entity set name (for URL)
    pub entity_set_name: String,
    /// Columns to select (empty = all)
    pub select: Vec<String>,
    /// Filter expression
    pub filter: String,
    /// Order by columns
    pub order_by: String,
    /// Maximum records to return
    pub top: Option<usize>,
    /// Skip records (for pagination)
    pub skip: Option<usize>,
}

impl Default for QueryDefinition {
    fn default() -> (r: QueryDefinition)
        ensures
            r.is_default(),
    {
        QueryDefinition {
            entity_name: String::new(),
            entity_set_name: String::new(),
            select: Vec::new(),
            filter: String::new(),
            order_by: String::new(),
            top: None,
            skip: None,
        }
    }
}

impl QueryDefinition {
    /// Whether the definition asks for nothing but the entity set: no column,
    /// no filter, no order, no limit and no offset.
    pub open spec fn is_blank(&self) -> bool {
        &&& self.select@.len() == 0
        &&& self.filter@.len() == 0
        &&& self.order_by@.len() == 0
        &&& self.top is None
        &&& self.skip is None
    }

    /// Whether every field is at its default: the definition is blank and
    /// names no entity and no entity set.
    pub open spec fn is_default(&self) -> bool {
        &&& self.entity_name@.len() == 0
        &&& self.entity_set_name@.len() == 0
        &&& self.is_blank()
    }

    /// The clauses of the query.
    pub open spec fn clauses(&self) -> Seq<Seq<char>> {
        clauses_of(views(self.select@), self.filter@, self.order_by@, self.top, self.skip)
    }

    /// The query as it is sent.
    pub open spec fn url(&self) -> Seq<char> {
        url_of(
            self.entity_set_name@,
            views(self.select@),
            self.filter@,
            self.order_by@,
            self.top,
            self.skip,
        )
    }

    /// Build the OData query URL path
    pub fn build_url(&self) -> (out: String)
        ensures
            out@ == self.url(),
            self.is_blank() ==> out@ == self.entity_set_name@,
    {
        let mut parts: Vec<String> = Vec::new();
        let ghost mut want: Seq<Seq<char>> = Seq::empty();
        proof {
            assert(views(parts@) =~= want);
        }
        if self.select.len() > 0 {
            let mut part = String::from_str("$select=");
            part.append(join_strings(&self.select, ",").as_str());
            parts.push(part);
            proof {
                want = want + seq!["$select="@ + join(views(self.select@), ","@)];
                assert(views(parts@) =~= want);
            }
        }
        if !self.filter.as_str().is_empty() {
            let mut part = String::from_str("$filter=");
            part.append(self.filter.as_str());
            parts.push(part);
            proof {
                want = want + seq!["$filter="@ + self.filter@];
                assert(views(parts@) =~= want);
            }
        }
        if !self.order_by.as_str().is_empty() {
            let mut part = String::from_str("$orderby=");
            part.append(self.order_by.as_str());
            parts.push(part);
            proof {
                want = want + seq!["$orderby="@ + self.order_by@];
                assert(views(parts@) =~= want);
            }
        }
        if let Some(top) = self.top {
            let mut part = String::from_str("$top=");
            part.append(decimal_string(top as u64).as_str());
            parts.push(part);
            proof {
                want = want + seq!["$top="@ + decimal(top as nat)];
                assert(views(parts@) =~= want);
            }
        }
        if let Some(skip) = self.skip {
            let mut part = String::from_str("$skip=");
            part.append(decimal_string(skip as u64).as_str());
            parts.push(part);
            proof {
                want = want + seq!["$skip="@ + decimal(skip as nat)];
                assert(views(parts@) =~= want);
            }
        }
        proof {
            assert(want =~= self.clauses());
        }
        if parts.len() == 0 {
            self.entity_set_name.clone()
        } else {
            let mut out = self.entity_set_name.clone();
            out.append("?");
            out.append(join_strings(&parts, "&").as_str());
            out
        }
    }

    /// Clear the query: every field is back at its default, the names of
    /// the entity and of its set too.
    pub fn clear(&mut self)
        ensures
            final(self).is_default(),
    {
        self.entity_name = String::new();
        self.entity_set_name = String::new();
        self.select.clear();
        self.filter = String::new();
        self.order_by = String::new();
        self.top = None;
        self.skip = None;
    }
}

/// Query result from executing a query
#[derive(Debug, Clone)]
pub struct QueryResult {
    /// Column headers
    pub columns: Vec<String>,
    /// Rows of data (each row is a vec of string values)
    pub rows: Vec<Vec<String>>,
    /// Lookup metadata for specific cells, by row and column
    pub lookups: LookupTable,
    /// Total count if available
    pub count: Option<usize>,
    /// Link to next page of results
    pub next_link: Option<String>,
    /// Error message if query failed
    pub error: Option<String>,
    /// Raw JSON response for inspection
    pub raw_json: Option<String>,
}

/// A `QueryResult` as text.
pub struct QueryResultView {
    pub columns: Seq<Seq<char>>,
    pub rows: Seq<Seq<Seq<char>>>,
    pub lookups: Map<(int, int), LookupInfoView>,
    pub count: Option<usize>,
    pub next_link: Option<Seq<char>>,
    pub error: Option<Seq<char>>,
    pub raw_json: Option<Seq<char>>,
}

/// The rows of a table as text.
pub open spec fn row_views(rows: Seq<Vec<String>>) -> Seq<Seq<Seq<char>>> {
    Seq::new(rows.len(), |r: int| views(rows[r]@))
}

impl View for QueryResult {
    type V = QueryResultView;

    open spec fn view(&self) -> QueryResultView {
        QueryResultView {
            columns: views(self.columns@),
            rows: row_views(self.rows@),
            lookups: self.lookups@,
            count: self.count,
            next_link: opt_view(self.next_link),
            error: opt_view(self.error),
            raw_json: opt_view(self.raw_json),
        }
    }
}

impl QueryResultView {
    /// The result that holds nothing.
    pub open spec fn empty() -> QueryResultView {
        QueryResultView {
            columns: Seq::empty(),
            rows: Seq::empty(),
            lookups: Map::empty(),
            count: None,
            next_link: None,
            error: None,
            raw_json: None,
        }
    }

    /// Whether every row has one cell for each column.
    pub open spec fn aligned(self) -> bool {
        forall|r: int| 0 <= r < self.rows.len() ==> (#[trigger] self.rows[r]).len() == self.columns.len()
    }

    /// Whether every lookup belongs to a cell of the table.
    pub open spec fn lookups_in_table(self) -> bool {
        forall|cell: (int, int)| #[trigger]
            self.lookups.contains_key(cell) ==> 0 <= cell.0 < self.rows.len() && 0 <= cell.1
                < self.columns.len()
    }

    /// This result with the rows of `page` after its own, and with the
    /// continuation of `page` and the payload `raw` in place of its own.
    pub open spec fn extended(self, page: QueryResultView, raw: Seq<char>) -> QueryResultView {
        QueryResultView {
            rows: self.rows + page.rows,
            next_link: page.next_link,
            raw_json: Some(raw),
            ..self
        }
    }
}

/// Whether `key` is an annotation and no field of the record.
pub open spec fn is_annotation(key: Seq<char>) -> bool {
    has_prefix(key, seq!['@'])
}

/// The columns that a record defines: the keys of its members that are no
/// annotations, each once, in dictionary order.
pub open spec fn column_names(members: Seq<(String, JsonValue)>) -> Seq<Seq<char>>
    decreases members.len(),
{
    if members.len() == 0 {
        Seq::empty()
    } else if is_annotation(members.last().0@) {
        column_names(members.drop_last())
    } else {
        insert_sorted(column_names(members.drop_last()), members.last().0@)
    }
}

/// How a raw value is shown in a cell.
pub open spec fn formatted(value: JsonValue) -> Seq<char> {
    match value {
        JsonValue::Null => "-"@,
        JsonValue::Bool(b) => if b {
            "true"@
        } else {
            "false"@
        },
        JsonValue::Number(n) => n.text(),
        JsonValue::String(s) => s@,
        JsonValue::Array(items) => "["@ + decimal(items@.len()) + " items]"@,
        JsonValue::Object(_) => "{...}"@,
    }
}

/// What the cell of `column` shows for the record with these members: the
/// formatted value that the record gives for the column, where it is a string;
/// else the raw value as it is shown; else a dash.
pub open spec fn cell_text(members: Seq<(String, JsonValue)>, column: Seq<char>) -> Seq<char> {
    match member(members, column + FORMATTED_VALUE_SUFFIX@) {
        Some(JsonValue::String(shown)) => shown@,
        _ => match member(members, column) {
            Some(raw) => formatted(raw),
            None => "-"@,
        },
    }
}

/// Whether a column is named as the columns are that refer to another
/// record: with an underscore at its start and `_value` at its end.
pub open spec fn named_like_lookup(column: Seq<char>) -> bool {
    has_prefix(column, "_"@) && has_suffix(column, "_value"@)
}

/// The entity that the record names as the one that `column` refers to.
pub open spec fn lookup_target(members: Seq<(String, JsonValue)>, column: Seq<char>) -> Option<
    Seq<char>,
> {
    match member(members, column + LOOKUP_NAME_SUFFIX@) {
        Some(JsonValue::String(target)) => Some(target@),
        _ => None,
    }
}

/// Whether the cell of `column` refers to another record: the record names
/// the entity referred to, or the column is named like a lookup and the record
/// names the entity referred to. How the column is named thus decides nothing.
pub open spec fn refers_to_record(members: Seq<(String, JsonValue)>, column: Seq<char>) -> bool {
    lookup_target(members, column) is Some || (named_like_lookup(column) && lookup_target(
        members,
        column,
    ) is Some)
}

/// The lookup in the cell of `column` for the record with these members: there
/// is one where the cell refers to another record and the raw value is a
/// string, the identifier of the record referred to.
pub open spec fn cell_lookup(members: Seq<(String, JsonValue)>, column: Seq<char>) -> Option<
    LookupInfoView,
> {
    if refers_to_record(members, column) {
        match member(members, column) {
            Some(JsonValue::String(id)) => Some(
                LookupInfoView {
                    id: id@,
                    logical_name: lookup_target(members, column)->0,
                    display_name: Some(cell_text(members, column)),
                },
            ),
            _ => None,
        }
    } else {
        None
    }
}

/// The row of the record with these members.
pub open spec fn row_of(members: Seq<(String, JsonValue)>, columns: Seq<Seq<char>>) -> Seq<
    Seq<char>,
> {
    Seq::new(columns.len(), |c: int| cell_text(members, columns[c]))
}

/// The members of those of `records` that are objects, in order.
pub open spec fn object_records(records: Seq<JsonValue>) -> Seq<Seq<(String, JsonValue)>>
    decreases records.len(),
{
    if records.len() == 0 {
        Seq::empty()
    } else {
        match records.last() {
            JsonValue::Object(members) => object_records(records.drop_last()).push(members@),
            _ => object_records(records.drop_last()),
        }
    }
}

/// One row for each object.
pub open spec fn rows_of(objects: Seq<Seq<(String, JsonValue)>>, columns: Seq<Seq<char>>) -> Seq<
    Seq<Seq<char>>,
> {
    Seq::new(objects.len(), |r: int| row_of(objects[r], columns))
}

/// The lookups of the cells that come before column `partial` of row `full`.
pub open spec fn lookups_within(
    objects: Seq<Seq<(String, JsonValue)>>,
    columns: Seq<Seq<char>>,
    full: int,
    partial: int,
) -> Map<(int, int), LookupInfoView> {
    Map::new(
        |cell: (int, int)|
            0 <= cell.0 < objects.len() && 0 <= cell.1 < columns.len() && (cell.0 < full || (cell.0
                == full && cell.1 < partial)) && cell_lookup(objects[cell.0], columns[cell.1])
                is Some,
        |cell: (int, int)| cell_lookup(objects[cell.0], columns[cell.1])->0,
    )
}

/// The lookups of a table: one for each cell that has one.
pub open spec fn lookups_of(objects: Seq<Seq<(String, JsonValue)>>, columns: Seq<Seq<char>>) -> Map<
    (int, int),
    LookupInfoView,
> {
    lookups_within(objects, columns, objects.len() as int, 0)
}

/// The records of a response: the array under `value`, if there is one.
pub open spec fn records_of(json: JsonValue) -> Option<Seq<JsonValue>> {
    match json.field(RECORDS_KEY@) {
        Some(JsonValue::Array(records)) => Some(records@),
        _ => None,
    }
}

/// The continuation that a response names, if it names one.
pub open spec fn next_link_of(json: JsonValue) -> Option<Seq<char>> {
    match json.field(NEXT_LINK_KEY@) {
        Some(JsonValue::String(link)) => Some(link@),
        _ => None,
    }
}

/// The total that a response reports, if it reports one as a non-negative
/// integer.
pub open spec fn count_of(json: JsonValue) -> Option<usize> {
    match json.field(COUNT_KEY@) {
        Some(JsonValue::Number(JsonNumber::PosInt(n))) => Some(n as usize),
        _ => None,
    }
}

/// The columns of a page: those that its first record defines.
pub open spec fn columns_of(records: Seq<JsonValue>) -> Seq<Seq<char>> {
    if records.len() == 0 {
        Seq::empty()
    } else {
        match records[0] {
            JsonValue::Object(members) => column_names(members@),
            _ => Seq::empty(),
        }
    }
}

/// The table that a response is normalised into.
///
/// Without an array of records there is an error and nothing else. With an
/// empty array there is the continuation and nothing else. Else the first record
/// defines the columns, each record that is an object gives one row, a cell has
/// a lookup where `cell_lookup` finds one, and the total and the continuation
/// are taken from the top of the response.
pub open spec fn parsed(json: JsonValue) -> QueryResultView {
    match records_of(json) {
        None => QueryResultView { error: Some(MISSING_RECORDS@), ..QueryResultView::empty() },
        Some(records) => page_of(records, count_of(json), next_link_of(json)),
    }
}

/// The table of a page of records, given the total and the continuation
/// that came with it. From an empty page the total is not taken.
pub open spec fn page_of(
    records: Seq<JsonValue>,
    count: Option<usize>,
    next_link: Option<Seq<char>>,
) -> QueryResultView {
    if records.len() == 0 {
        QueryResultView { next_link, ..QueryResultView::empty() }
    } else {
        QueryResultView {
            columns: columns_of(records),
            rows: rows_of(object_records(records), columns_of(records)),
            lookups: lookups_of(object_records(records), columns_of(records)),
            count,
            next_link,
            error: None,
            raw_json: None,
        }
    }
}

impl Default for QueryResult {
    fn default() -> (r: QueryResult)
        ensures
            r@ == QueryResultView::empty(),
    {
        let r = QueryResult {
            columns: Vec::new(),
            rows: Vec::new(),
            lookups: LookupTable::new(),
            count: None,
            next_link: None,
            error: None,
            raw_json: None,
        };
        proof {
            assert(r@.columns =~= Seq::empty());
            assert(r@.rows =~= Seq::empty());
        }
        r
    }
}

/// Format a JSON value for display
pub fn format_json_value(value: &JsonValue) -> (out: String)
    ensures
        out@ == formatted(*value),
{
    match value {
        JsonValue::Null => String::from_str("-"),
        JsonValue::Bool(b) => if *b {
            String::from_str("true")
        } else {
            String::from_str("false")
        },
        JsonValue::Number(n) => n.to_text(),
        JsonValue::String(s) => s.clone(),
        JsonValue::Array(items) => {
            let mut out = String::from_str("[");
            out.append(decimal_string(items.len() as u64).as_str());
            out.append(" items]");
            out
        },
        JsonValue::Object(_) => String::from_str("{...}"),
    }
}

/// The columns that a record with these members defines.
pub fn sorted_columns(members: &Vec<(String, JsonValue)>) -> (columns: Vec<String>)
    ensures
        views(columns@) == column_names(members@),
{
    let mut columns: Vec<String> = Vec::new();
    let mut i: usize = 0;
    proof {
        assert(views(columns@) =~= Seq::empty());
    }
    while i < members.len()
        invariant
            i <= members.len(),
            views(columns@) == column_names(members@.take(i as int)),
        decreases members.len() - i,
    {
        proof {
            assert(members@.take(i as int + 1).drop_last() == members@.take(i as int));
            assert(members@.take(i as int + 1).last() == members@[i as int]);
        }
        if !starts_with_char(members[i].0.as_str(), '@') {
            insert_text(&mut columns, members[i].0.clone());
        }
        i += 1;
    }
    proof {
        assert(members@.take(i as int) == members@);
    }
    columns
}

/// What the cell of `column` shows for the record with these members.
pub fn cell_display(members: &Vec<(String, JsonValue)>, column: &String) -> (out: String)
    ensures
        out@ == cell_text(members@, column@),
{
    let mut shown_key = column.clone();
    shown_key.append(FORMATTED_VALUE_SUFFIX);
    match lookup_member(members, shown_key.as_str()) {
        Some(JsonValue::String(shown)) => shown.clone(),
        _ => match lookup_member(members, column.as_str()) {
            Some(raw) => format_json_value(raw),
            None => String::from_str("-"),
        },
    }
}

/// The lookup in the cell of `column` for the record with these members, given
/// what the cell shows.
pub fn lookup_in(members: &Vec<(String, JsonValue)>, column: &String, shown: &String) -> (r: Option<
    LookupInfo,
>)
    requires
        shown@ == cell_text(members@, column@),
    ensures
        match r {
            Some(info) => cell_lookup(members@, column@) == Some(info@),
            None => cell_lookup(members@, column@) is None,
        },
{
    let mut target_key = column.clone();
    target_key.append(LOOKUP_NAME_SUFFIX);
    match lookup_member(members, target_key.as_str()) {
        Some(JsonValue::String(target)) => match lookup_member(members, column.as_str()) {
            Some(JsonValue::String(id)) => Some(
                LookupInfo {
                    id: id.clone(),
                    logical_name: target.clone(),
                    display_name: Some(shown.clone()),
                },
            ),
            _ => None,
        },
        _ => None,
    }
}

/// The row of a record and the lookups of its cells, entered into `lookups`
/// under the row's number.
fn build_row(
    members: &Vec<(String, JsonValue)>,
    columns: &Vec<String>,
    row_index: usize,
    lookups: &mut LookupTable,
    Ghost(done): Ghost<Seq<Seq<(String, JsonValue)>>>,
) -> (row: Vec<String>)
    requires
        row_index == done.len(),
        old(lookups)@ == lookups_of(done, views(columns@)),
    ensures
        views(row@) == row_of(members@, views(columns@)),
        final(lookups)@ == lookups_of(done.push(members@), views(columns@)),
{
    let ghost names = views(columns@);
    let ghost next = done.push(members@);
    let mut row: Vec<String> = Vec::new();
    let mut c: usize = 0;
    proof {
        assert(views(row@) =~= row_of(members@, names).take(0));
        assert(lookups@ =~= lookups_within(next, names, row_index as int, 0)) by {
            assert forall|cell: (int, int)| 0 <= cell.0 < done.len() implies next[cell.0]
                == done[cell.0] by {}
        }
    }
    while c < columns.len()
        invariant
            c <= columns.len(),
            names == views(columns@),
            next == done.push(members@),
            row_index == done.len(),
            views(row@) == row_of(members@, names).take(c as int),
            lookups@ == lookups_within(next, names, row_index as int, c as int),
        decreases columns.len() - c,
    {
        let shown = cell_display(members, &columns[c]);
        let found = lookup_in(members, &columns[c], &shown);
        let ghost row_before = views(row@);
        row.push(shown);
        proof {
            assert(views(row@) =~= row_before.push(shown@));
        }
        let ghost before = lookups@;
        if let Some(info) = found {
            lookups.insert(row_index, c, info);
        }
        proof {
            assert(names[c as int] == columns@[c as int]@);
            assert(next[row_index as int] == members@);
            assert forall|i: int| 0 <= i < c implies views(row@)[i] == row_of(members@, names)[i] by {
                assert(row_of(members@, names).take(c as int)[i] == row_of(members@, names)[i]);
            }
            assert(views(row@)[c as int] == shown@);
            assert(views(row@) =~= row_of(members@, names).take(c as int + 1));
            assert(lookups@ =~= lookups_within(next, names, row_index as int, c as int + 1));
        }
        c += 1;
    }
    proof {
        assert(row_of(members@, names).take(c as int) == row_of(members@, names));
        assert(lookups@ =~= lookups_of(next, names));
    }
    row
}

impl QueryResult {
    /// Create from JSON response
    pub fn from_json(json: &JsonValue) -> (result: QueryResult)
        ensures
            result@ == parsed(*json),
            result@.aligned(),
            result@.lookups_in_table(),
            result@.error is Some <==> records_of(*json) is None,
            result@.error is Some ==> result@ == (QueryResultView {
                error: Some(MISSING_RECORDS@),
                ..QueryResultView::empty()
            }),
            records_of(*json) == Some(Seq::<JsonValue>::empty()) ==> result@ == (QueryResultView {
                next_link: next_link_of(*json),
                ..QueryResultView::empty()
            }),
    {
        let mut result = QueryResult::default();

        // Get the value array
        let records = match json.get(RECORDS_KEY) {
            Some(JsonValue::Array(records)) => records,
            _ => {
                result.error = Some(String::from_str(MISSING_RECORDS));
                return result;
            },
        };

        if records.len() == 0 {
            // Still check for next link even if page is empty (rare but possible)
            if let Some(JsonValue::String(link)) = json.get(NEXT_LINK_KEY) {
                result.next_link = Some(link.clone());
            }
            return result;
        }
        // Extract columns from first record

        if let JsonValue::Object(members) = &records[0] {
            result.columns = sorted_columns(members);
        }
        let ghost names = columns_of(records@);
        proof {
            assert(views(result.columns@) =~= names);
        }

        // Extract rows
        let mut r: usize = 0;
        proof {
            assert(records@.take(0) =~= Seq::empty());
            assert(result@.rows =~= rows_of(object_records(records@.take(0)), names));
            assert(result@.lookups =~= lookups_of(object_records(records@.take(0)), names));
        }
        while r < records.len()
            invariant
                r <= records.len(),
                names == views(result.columns@),
                result@.rows == rows_of(object_records(records@.take(r as int)), names),
                result@.lookups == lookups_of(object_records(records@.take(r as int)), names),
                result.count is None,
                result.next_link is None,
                result.error is None,
                result.raw_json is None,
            decreases records.len() - r,
        {
            let ghost done = object_records(records@.take(r as int));
            proof {
                assert(records@.take(r as int + 1).drop_last() == records@.take(r as int));
                assert(records@.take(r as int + 1).last() == records@[r as int]);
            }
            if let JsonValue::Object(members) = &records[r] {
                let row_index = result.rows.len();
                let ghost rows_before = result@.rows;
                proof {
                    assert(result@.rows.len() == result.rows@.len());
                }
                let row = build_row(
                    members,
                    &result.columns,
                    row_index,
                    &mut result.lookups,
                    Ghost(done),
                );
                result.rows.push(row);
                proof {
                    assert(result@.rows =~= rows_before.push(views(row@)));
                    assert(result@.rows =~= rows_of(done.push(members@), names));
                }
            }
            r += 1;
        }
        proof {
            assert(records@.take(r as int) == records@);
        }

        // Get count if available
        if let Some(JsonValue::Number(n)) = json.get(COUNT_KEY) {
            if let Some(total) = n.as_u64() {
                result.count = Some(
                    #[verifier::truncate]
                    (total as usize),
                );
            }
        }
        // Get next link if available

        if let Some(JsonValue::String(link)) = json.get(NEXT_LINK_KEY) {
            result.next_link = Some(link.clone());
        }
        result
    }

    /// Takes the next page in: its rows come after those held, and its
    /// continuation and payload replace those held. The columns, the lookups,
    /// the total and the error stay as they are.
    pub fn extend(&mut self, page: &JsonValue, raw_json: String)
        ensures
            final(self)@ == old(self)@.extended(parsed(*page), raw_json@),
            final(self).rows@.len() >= old(self).rows@.len(),
            opt_view(final(self).next_link) == parsed(*page).next_link,
            old(self)@.aligned() && parsed(*page).columns.len() == old(self)@.columns.len()
                ==> final(self)@.aligned(),
    {
        let next = QueryResult::from_json(page);
        let QueryResult { rows, next_link, .. } = next;
        let ghost added = row_views(rows@);
        let mut rows = rows;
        self.rows.append(&mut rows);
        self.next_link = next_link;
        self.raw_json = Some(raw_json);
        proof {
            assert(self@.rows =~= old(self)@.rows + added);
            assert(self.rows@.len() == self@.rows.len());
            assert(old(self).rows@.len() == old(self)@.rows.len());
            if old(self)@.aligned() && parsed(*page).columns.len() == old(self)@.columns.len() {
                assert forall|r: int| 0 <= r < self@.rows.len() implies (#[trigger] self@.rows[r]).len()
                    == self@.columns.len() by {
                    if r >= old(self)@.rows.len() {
                        assert(self@.rows[r] == added[r - old(self)@.rows.len()]);
                    } else {
                        assert(self@.rows[r] == old(self)@.rows[r]);
                    }
                }
            }
        }
    }
}

/// Two pages taken in one after the other: no row is lost at either step, and
/// the continuation held at the end is that of the second page.
pub proof fn extend_twice_accumulates(
    held: QueryResultView,
    first: QueryResultView,
    first_raw: Seq<char>,
    second: QueryResultView,
    second_raw: Seq<char>,
)
    ensures
        held.rows.len() <= held.extended(first, first_raw).rows.len(),
        held.extended(first, first_raw).rows.len() <= held.extended(first, first_raw).extended(
            second,
            second_raw,
        ).rows.len(),
        held.extended(first, first_raw).extended(second, second_raw).rows == held.rows + first.rows
            + second.rows,
        held.extended(first, first_raw).extended(second, second_raw).next_link == second.next_link,
{
    assert((held.rows + first.rows) + second.rows =~= held.rows + first.rows + second.rows);
}

/// Query input field being edited
#[derive(Debug, Clone, Copy, PartialEq, Eq, Structural)]
pub enum QueryField {
    Entity,
    Select,
    Filter,
    OrderBy,
    Top,
}

impl Default for QueryField {
    fn default() -> (r: QueryField)
        ensures
            r == QueryField::Entity,
    {
        QueryField::Entity
    }
}

impl QueryField {
    /// How many fields there are.
    pub open spec fn count() -> int {
        5
    }

    /// The place of the field in the cycle, from 0.
    pub open spec fn position(self) -> int {
        match self {
            QueryField::Entity => 0,
            QueryField::Select => 1,
            QueryField::Filter => 2,
            QueryField::OrderBy => 3,
            QueryField::Top => 4,
        }
    }

    /// The field at place `i` of the cycle.
    pub open spec fn at(i: int) -> QueryField {
        if i == 0 {
            QueryField::Entity
        } else if i == 1 {
            QueryField::Select
        } else if i == 2 {
            QueryField::Filter
        } else if i == 3 {
            QueryField::OrderBy
        } else {
            QueryField::Top
        }
    }

    /// The field one place on in the cycle; after the last comes the first.
    pub open spec fn successor(self) -> QueryField {
        QueryField::at((self.position() + 1) % QueryField::count())
    }

    /// The field one place back in the cycle; before the first comes the last.
    pub open spec fn predecessor(self) -> QueryField {
        QueryField::at((self.position() + QueryField::count() - 1) % QueryField::count())
    }

    /// The name of the field as a user reads it.
    pub open spec fn label_text(self) -> Seq<char> {
        match self {
            QueryField::Entity => "Entity"@,
            QueryField::Select => "$select"@,
            QueryField::Filter => "$filter"@,
            QueryField::OrderBy => "$orderby"@,
            QueryField::Top => "$top"@,
        }
    }

    pub fn next(&self) -> (r: QueryField)
        ensures
            r == self.successor(),
    {
        match self {
            QueryField::Entity => QueryField::Select,
            QueryField::Select => QueryField::Filter,
            QueryField::Filter => QueryField::OrderBy,
            QueryField::OrderBy => QueryField::Top,
            QueryField::Top => QueryField::Entity,
        }
    }

    pub fn prev(&self) -> (r: QueryField)
        ensures
            r == self.predecessor(),
    {
        match self {
            QueryField::Entity => QueryField::Top,
            QueryField::Select => QueryField::Entity,
            QueryField::Filter => QueryField::Select,
            QueryField::OrderBy => QueryField::Filter,
            QueryField::Top => QueryField::OrderBy,
        }
    }

    pub fn label(&self) -> (s: &'static str)
        ensures
            s@ == self.label_text(),
    {
        match self {
            QueryField::Entity => "Entity",
            QueryField::Select => "$select",
            QueryField::Filter => "$filter",
            QueryField::OrderBy => "$orderby",
            QueryField::Top => "$top",
        }
    }
}

/// Going one field on and then one back, or one back and then one on, gives
/// the field one started from.
pub proof fn field_next_prev_inverse(field: QueryField)
    ensures
        field.successor().predecessor() == field,
        field.predecessor().successor() == field,
{
}

/// The columns of a record stand in strictly rising dictionary order: no
/// column occurs twice, and the order does not depend on that of the members.
pub proof fn column_names_sorted(members: Seq<(String, JsonValue)>)
    ensures
        strictly_sorted(column_names(members)),
    decreases members.len(),
{
    if members.len() > 0 {
        column_names_sorted(members.drop_last());
        if !is_annotation(members.last().0@) {
            insert_sorted_keeps_order(column_names(members.drop_last()), members.last().0@);
        }
    }
}

/// The columns of a record are the keys of its members that do not begin
/// with `@`, and no others.
pub proof fn column_names_members(members: Seq<(String, JsonValue)>, key: Seq<char>)
    ensures
        column_names(members).contains(key) <==> (!is_annotation(key) && exists|i: int|
            0 <= i < members.len() && (#[trigger] members[i]).0@ == key),
    decreases members.len(),
{
    if members.len() > 0 {
        let init = members.drop_last();
        let last = members.last().0@;
        column_names_members(init, key);
        if !is_annotation(last) {
            insert_sorted_members(column_names(init), last, key);
        }
        if exists|i: int| 0 <= i < init.len() && (#[trigger] init[i]).0@ == key {
            let i = choose|i: int| 0 <= i < init.len() && (#[trigger] init[i]).0@ == key;
            assert(members[i].0@ == key);
        }
        if last == key {
            assert(members[members.len() - 1].0@ == key);
        }
        if exists|i: int| 0 <= i < members.len() && (#[trigger] members[i]).0@ == key {
            let i = choose|i: int| 0 <= i < members.len() && (#[trigger] members[i]).0@ == key;
            if i < init.len() {
                assert(init[i].0@ == key);
            }
        }
    }
}

/// A cell whose record names the entity that the column refers to, and
/// gives a string as the raw value, has a lookup with that entity as its
/// logical name, that string as its identifier, and what the cell shows as its
/// display name.
pub proof fn annotated_cell_has_lookup(
    json: JsonValue,
    row: int,
    column: int,
    target: String,
    id: String,
)
    requires
        records_of(json) is Some,
        0 <= row < object_records(records_of(json)->0).len(),
        0 <= column < columns_of(records_of(json)->0).len(),
        member(
            object_records(records_of(json)->0)[row],
            columns_of(records_of(json)->0)[column] + LOOKUP_NAME_SUFFIX@,
        ) == Some(JsonValue::String(target)),
        member(
            object_records(records_of(json)->0)[row],
            columns_of(records_of(json)->0)[column],
        ) == Some(JsonValue::String(id)),
    ensures
        parsed(json).lookups.contains_key((row, column)),
        parsed(json).lookups[(row, column)].logical_name == target@,
        parsed(json).lookups[(row, column)].id == id@,
        parsed(json).lookups[(row, column)].display_name == Some(parsed(json).rows[row][column]),
{
    let records = records_of(json)->0;
    assert(records.len() > 0) by {
        if records.len() == 0 {
            assert(object_records(records).len() == 0);
        }
    }
}

} // verus!
