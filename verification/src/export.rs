//! A table of results as the text of a file.

use vstd::prelude::*;
use crate::models::query::{row_views, QueryResult};
use crate::text::{join, join_strings, views};

verus! {

/// Export formats
#[derive(Debug, Clone, Copy, PartialEq, Eq, Structural)]
pub enum ExportFormat {
    Csv,
    Json,
}

/// One line for each row: its cells joined by commas, then a line feed.
pub open spec fn csv_lines(rows: Seq<Seq<Seq<char>>>) -> Seq<char>
    decreases rows.len(),
{
    if rows.len() == 0 {
        Seq::empty()
    } else {
        csv_lines(rows.drop_last()) + join(rows.last(), ","@) + "\n"@
    }
}

/// A table as comma-separated text: the line of the column names, then the
/// line of each row. A cell is written as it is: a comma or a line feed in it
/// is not escaped.
pub open spec fn csv_of(columns: Seq<Seq<char>>, rows: Seq<Seq<Seq<char>>>) -> Seq<char> {
    join(columns, ","@) + "\n"@ + csv_lines(rows)
}

/// The place of an export: under `exports/`, named by the entity, or by
/// `export` where none is chosen, and by the moment of the export.
pub open spec fn export_path_of(entity: Option<Seq<char>>, moment: Seq<char>) -> Seq<char> {
    "exports/"@ + (match entity {
        Some(name) => name,
        None => "export"@,
    }) + "_"@ + moment + ".csv"@
}

/// The results as comma-separated text.
pub fn export_to_csv(results: &QueryResult) -> (out: String)
    ensures
        out@ == csv_of(results@.columns, results@.rows),
{
    let mut out = join_strings(&results.columns, ",");
    out.append("\n");
    let mut r: usize = 0;
    proof {
        assert(results@.rows.take(0) =~= Seq::empty());
        assert(out@ =~= join(results@.columns, ","@) + "\n"@ + csv_lines(results@.rows.take(0)));
    }
    while r < results.rows.len()
        invariant
            r <= results.rows.len(),
            out@ == join(results@.columns, ","@) + "\n"@ + csv_lines(results@.rows.take(r as int)),
        decreases results.rows.len() - r,
    {
        proof {
            let all = results@.rows;
            assert(all.take(r as int + 1).drop_last() == all.take(r as int));
            assert(all.take(r as int + 1).last() == views(results.rows@[r as int]@));
        }
        let ghost before = out@;
        out.append(join_strings(&results.rows[r], ",").as_str());
        out.append("\n");
        proof {
            assert(out@ =~= join(results@.columns, ","@) + "\n"@ + csv_lines(
                results@.rows.take(r as int + 1),
            ));
        }
        r += 1;
    }
    proof {
        assert(results@.rows.take(r as int) == results@.rows);
    }
    out
}

/// The place of an export made at `moment` of the entity `entity`.
pub fn export_path(entity: Option<&str>, moment: &str) -> (out: String)
    ensures
        out@ == export_path_of(
            match entity {
                Some(name) => Some(name@),
                None => None,
            },
            moment@,
        ),
{
    let mut out = String::from_str("exports/");
    match entity {
        Some(name) => out.append(name),
        None => out.append("export"),
    }
    out.append("_");
    out.append(moment);
    out.append(".csv");
    out
}

/// Whether every row has a cell for each column.
pub open spec fn rows_fit(columns: Seq<Seq<char>>, rows: Seq<Seq<Seq<char>>>) -> bool {
    forall|r: int| 0 <= r < rows.len() ==> columns.len() <= (#[trigger] rows[r]).len()
}

/// A row as the members of an object: one for each column, in the order of
/// the columns, with the name of the column as its key and the cell of the row
/// at the place of the column as its value. Cells beyond the columns are left
/// out.
pub open spec fn paired(columns: Seq<Seq<char>>, row: Seq<Seq<char>>) -> Seq<
    (Seq<char>, Seq<char>),
> {
    Seq::new(columns.len(), |c: int| (columns[c], row[c]))
}

/// The rows as objects, one for each row, in the order of the rows.
pub open spec fn row_objects(columns: Seq<Seq<char>>, rows: Seq<Seq<Seq<char>>>) -> Seq<
    Seq<(Seq<char>, Seq<char>)>,
> {
    Seq::new(rows.len(), |r: int| paired(columns, rows[r]))
}

/// The members that a list of pairs of strings holds, as text.
pub open spec fn member_views(members: Seq<(String, String)>) -> Seq<(Seq<char>, Seq<char>)> {
    Seq::new(members.len(), |i: int| (members[i].0@, members[i].1@))
}

/// The objects that a list of lists of pairs holds, as text.
pub open spec fn object_views(objects: Seq<Vec<(String, String)>>) -> Seq<
    Seq<(Seq<char>, Seq<char>)>,
> {
    Seq::new(objects.len(), |r: int| member_views(objects[r]@))
}

/// The text that `serde_json::to_string_pretty` gives for an array of
/// objects, each given by its members in order, every value a string. What that
/// text is, character by character, is not stated; it depends on the members
/// alone.
pub uninterp spec fn pretty_objects(objects: Seq<Seq<(Seq<char>, Seq<char>)>>) -> Seq<char>;

/// `serde_json::to_string_pretty` on the objects as values of `serde_json`:
/// each list of members becomes a `serde_json::Map`, each value a
/// `serde_json::Value::String`. It gives a text, and the text is the one
/// that depends on the members alone. That a text comes is taken from what
/// `serde_json` says of its errors: printing fails where a value refuses to
/// be printed or a map has a key that is no string, and it passes on the
/// errors of what it writes into. Here every key and every value is a string,
/// and the text is written into memory.
#[verifier::external_body]
fn print_objects(objects: &Vec<Vec<(String, String)>>) -> (out: Option<String>)
    ensures
        out is Some,
        out matches Some(text) ==> text@ == pretty_objects(object_views(objects@)),
{
    let values: Vec<serde_json::Value> = objects.iter().map(
        |members|
            serde_json::Value::Object(
                members.iter().map(
                    |(key, cell)| (key.clone(), serde_json::Value::String(cell.clone())),
                ).collect(),
            ),
    ).collect();
    serde_json::to_string_pretty(&values).ok()
}

/// The members of the object of one row.
fn pair_row(columns: &Vec<String>, row: &Vec<String>) -> (members: Vec<(String, String)>)
    requires
        columns@.len() <= row@.len(),
    ensures
        member_views(members@) == paired(views(columns@), views(row@)),
{
    let mut members: Vec<(String, String)> = Vec::new();
    let mut c: usize = 0;
    while c < columns.len()
        invariant
            c <= columns.len(),
            columns@.len() <= row@.len(),
            member_views(members@) == paired(views(columns@), views(row@)).take(c as int),
        decreases columns.len() - c,
    {
        let ghost before = member_views(members@);
        members.push((columns[c].clone(), row[c].clone()));
        proof {
            assert(member_views(members@) =~= before.push((columns@[c as int]@, row@[c as int]@)));
            assert(member_views(members@) =~= paired(views(columns@), views(row@)).take(
                c as int + 1,
            ));
        }
        c += 1;
    }
    proof {
        assert(paired(views(columns@), views(row@)).take(c as int) == paired(
            views(columns@),
            views(row@),
        ));
    }
    members
}

/// The rows of the results as objects: for each row the list of its
/// members, the name of each column paired with the cell of the row at the
/// place of the column. There are none where a row lacks a cell for a column.
pub fn pair_rows(results: &QueryResult) -> (out: Option<Vec<Vec<(String, String)>>>)
    ensures
        out is Some <==> rows_fit(results@.columns, results@.rows),
        out matches Some(objects) ==> object_views(objects@) == row_objects(
            results@.columns,
            results@.rows,
        ),
{
    let mut objects: Vec<Vec<(String, String)>> = Vec::new();
    let mut r: usize = 0;
    proof {
        assert(object_views(objects@) =~= row_objects(results@.columns, results@.rows).take(0));
    }
    while r < results.rows.len()
        invariant
            r <= results.rows.len(),
            forall|i: int| 0 <= i < r ==> results@.columns.len() <= (#[trigger] results@.rows[i]).len(),
            object_views(objects@) == row_objects(results@.columns, results@.rows).take(r as int),
        decreases results.rows.len() - r,
    {
        proof {
            assert(results@.rows[r as int] == views(results.rows@[r as int]@));
            assert(results@.rows[r as int].len() == results.rows@[r as int]@.len());
        }
        if results.rows[r].len() < results.columns.len() {
            return None;
        }
        let ghost before = object_views(objects@);
        let members = pair_row(&results.columns, &results.rows[r]);
        objects.push(members);
        proof {
            assert(object_views(objects@) =~= before.push(
                paired(results@.columns, results@.rows[r as int]),
            ));
            assert(object_views(objects@) =~= row_objects(results@.columns, results@.rows).take(
                r as int + 1,
            ));
        }
        r += 1;
    }
    proof {
        assert(results@.rows.len() == results.rows@.len());
        assert(row_objects(results@.columns, results@.rows).take(r as int) == row_objects(
            results@.columns,
            results@.rows,
        ));
    }
    Some(objects)
}

/// The results as JSON text: an array with one object for each row, whose
/// members are the cells of the row under the names of the columns. There is
/// a text where every row has a cell for each column, and only there.
pub fn export_to_json(results: &QueryResult) -> (out: Option<String>)
    ensures
        out is Some <==> rows_fit(results@.columns, results@.rows),
        out matches Some(text) ==> text@ == pretty_objects(
            row_objects(results@.columns, results@.rows),
        ),
{
    match pair_rows(results) {
        Some(objects) => print_objects(&objects),
        None => None,
    }
}

/// The results as the text of a file of the format `format`. Comma-separated
/// text can always be had; JSON text where every row has a cell for each
/// column, and only there.
pub fn export_results(results: &QueryResult, format: ExportFormat) -> (out: Option<String>)
    ensures
        match format {
            ExportFormat::Csv => out matches Some(text) && text@ == csv_of(
                results@.columns,
                results@.rows,
            ),
            ExportFormat::Json => (out is Some <==> rows_fit(results@.columns, results@.rows)) && (
            out matches Some(text) ==> text@ == pretty_objects(
                row_objects(results@.columns, results@.rows),
            )),
        },
{
    match format {
        ExportFormat::Csv => Some(export_to_csv(results)),
        ExportFormat::Json => export_to_json(results),
    }
}

} // verus!
