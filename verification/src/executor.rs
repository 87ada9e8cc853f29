//! Query execution, as far as the library does it: the rows that the graph
//! store hands back are put into a form that can be carried on.
//!
//! The statement itself goes to the store as it was generated. It is neither
//! checked nor rewritten here, and a failure of the store is passed on as it
//! was reported.

use vstd::prelude::*;
use vstd::string::*;
use crate::error::{failure, ErrorKind, PipelineError, PipelineErrorView};
use crate::json::{push_joined, push_quoted, quoted};
use crate::text::{joined, string_views};

verus! {

/// What is reported when a row is not as wide as the column header.
pub const MISFIT: &'static str = "a row of the result does not match its columns";

/// The text form of a result without records.
pub const NO_RESULTS: &'static str = "No results.";

/// Rows as the graph store's driver returns them: the names of the columns,
/// and each row's values in column order, every value already as text.
#[derive(Clone, Debug, PartialEq, Eq)]
pub struct RowSet {
    pub columns: Vec<String>,
    pub rows: Vec<Vec<String>>,
}

/// A `RowSet` as a mathematical value.
pub struct RowSetView {
    pub columns: Seq<Seq<char>>,
    pub rows: Seq<Seq<Seq<char>>>,
}

/// The rows of `rows` as mathematical values.
pub open spec fn row_views(rows: Seq<Vec<String>>) -> Seq<Seq<Seq<char>>> {
    Seq::new(rows.len(), |i: int| string_views(rows[i]@))
}

impl View for RowSet {
    type V = RowSetView;

    open spec fn view(&self) -> RowSetView {
        RowSetView { columns: string_views(self.columns@), rows: row_views(self.rows@) }
    }
}

/// One value of a record, under the name of its column.
#[derive(Clone, Debug, PartialEq, Eq)]
pub struct Field {
    pub column: String,
    pub value: String,
}

/// A `Field` as a mathematical value.
pub struct FieldView {
    pub column: Seq<char>,
    pub value: Seq<char>,
}

impl View for Field {
    type V = FieldView;

    open spec fn view(&self) -> FieldView {
        FieldView { column: self.column@, value: self.value@ }
    }
}

/// One record of a result: its values by column, in column order.
#[derive(Clone, Debug, PartialEq, Eq)]
pub struct Record {
    pub fields: Vec<Field>,
}

/// The fields of `fields` as mathematical values.
pub open spec fn field_views(fields: Seq<Field>) -> Seq<FieldView> {
    Seq::new(fields.len(), |i: int| fields[i]@)
}

impl View for Record {
    type V = Seq<FieldView>;

    open spec fn view(&self) -> Seq<FieldView> {
        field_views(self.fields@)
    }
}

/// The records of `records` as mathematical values.
pub open spec fn record_views(records: Seq<Record>) -> Seq<Seq<FieldView>> {
    Seq::new(records.len(), |i: int| records[i]@)
}

/// The result of running a statement: its records in the order in which the
/// store returned them. A result without records is the empty result.
#[derive(Clone, Debug, PartialEq, Eq)]
pub struct ExecutionResult {
    pub records: Vec<Record>,
}

impl View for ExecutionResult {
    type V = Seq<Seq<FieldView>>;

    open spec fn view(&self) -> Seq<Seq<FieldView>> {
        record_views(self.records@)
    }
}

/// Whether every row of `rows` has one value for each column.
pub open spec fn rows_fit(rows: RowSetView) -> bool {
    forall|i: int| 0 <= i < rows.rows.len() ==> (#[trigger] rows.rows[i]).len() == rows.columns.len()
}

/// The record made of the row `row` under the columns `columns`.
pub open spec fn record_of(columns: Seq<Seq<char>>, row: Seq<Seq<char>>) -> Seq<FieldView> {
    Seq::new(columns.len(), |j: int| FieldView { column: columns[j], value: row[j] })
}

/// The records made of rows that fit their columns: row by row, each value
/// under the name of its column.
pub open spec fn records_of(rows: RowSetView) -> Seq<Seq<FieldView>> {
    Seq::new(rows.rows.len(), |i: int| record_of(rows.columns, rows.rows[i]))
}

/// What is made of the rows `rows`: their records if every row fits the
/// columns, a failure of execution otherwise.
pub open spec fn normalization(rows: RowSetView) -> Result<Seq<Seq<FieldView>>, PipelineErrorView> {
    if rows_fit(rows) {
        Ok(records_of(rows))
    } else {
        Err(failure(ErrorKind::ExecutionFailed, MISFIT@))
    }
}

/// A field as a member of a JSON object.
pub open spec fn field_json(field: FieldView) -> Seq<char> {
    quoted(field.column) + ":"@ + quoted(field.value)
}

/// The JSON members of `fields`, in order.
pub open spec fn field_jsons(fields: Seq<FieldView>) -> Seq<Seq<char>> {
    Seq::new(fields.len(), |i: int| field_json(fields[i]))
}

/// A record as a JSON object.
pub open spec fn record_json(record: Seq<FieldView>) -> Seq<char> {
    "{"@ + joined(field_jsons(record), ","@) + "}"@
}

/// The JSON objects of `records`, in order.
pub open spec fn record_jsons(records: Seq<Seq<FieldView>>) -> Seq<Seq<char>> {
    Seq::new(records.len(), |i: int| record_json(records[i]))
}

/// The text form of a result: one JSON object per record and line, or the
/// words that mark the empty result.
pub open spec fn result_text(records: Seq<Seq<FieldView>>) -> Seq<char> {
    if records.len() == 0 {
        NO_RESULTS@
    } else {
        joined(record_jsons(records), "\n"@)
    }
}

/// The record made of `row` under `columns`.
fn make_record(columns: &Vec<String>, row: &Vec<String>) -> (record: Record)
    requires
        row.len() == columns.len(),
    ensures
        record@ == record_of(string_views(columns@), string_views(row@)),
{
    let mut fields: Vec<Field> = Vec::new();
    let mut j: usize = 0;
    while j < columns.len()
        invariant
            j <= columns.len(),
            row.len() == columns.len(),
            fields.len() == j,
            forall|k: int|
                0 <= k < j ==> (#[trigger] fields[k])@ == record_of(
                    string_views(columns@),
                    string_views(row@),
                )[k],
        decreases columns.len() - j,
    {
        fields.push(Field { column: columns[j].clone(), value: row[j].clone() });
        j = j + 1;
    }
    let record = Record { fields };
    record
}

/// The JSON member of `field`.
fn field_text(field: &Field) -> (s: String)
    ensures
        s@ == field_json(field@),
{
    let mut s = String::new();
    push_quoted(&mut s, field.column.as_str());
    s.append(":");
    push_quoted(&mut s, field.value.as_str());
    s
}

/// The JSON object of `record`.
fn record_text(record: &Record) -> (s: String)
    ensures
        s@ == record_json(record@),
{
    let mut items: Vec<String> = Vec::new();
    let mut i: usize = 0;
    while i < record.fields.len()
        invariant
            i <= record.fields.len(),
            items.len() == i,
            forall|j: int| 0 <= j < i ==> (#[trigger] items[j])@ == field_json(record.fields[j]@),
        decreases record.fields.len() - i,
    {
        items.push(field_text(&record.fields[i]));
        i = i + 1;
    }
    assert(string_views(items@) =~= field_jsons(record@));
    let mut s = String::from_str("{");
    push_joined(&mut s, &items, ",");
    s.append("}");
    s
}

impl ExecutionResult {
    /// The result without records.
    pub fn empty() -> (result: ExecutionResult)
        ensures
            result@.len() == 0,
    {
        ExecutionResult { records: Vec::new() }
    }

    /// Puts the rows of the store into records.
    ///
    /// Succeeds exactly when every row has one value for each column; fails
    /// with `ExecutionFailed` otherwise.
    pub fn from_rows(rows: &RowSet) -> (r: Result<ExecutionResult, PipelineError>)
        ensures
            match r {
                Ok(result) => normalization(rows@) == Ok::<
                    Seq<Seq<FieldView>>,
                    PipelineErrorView,
                >(result@),
                Err(e) => normalization(rows@) == Err::<Seq<Seq<FieldView>>, PipelineErrorView>(
                    e@,
                ),
            },
    {
        let mut records: Vec<Record> = Vec::new();
        let mut i: usize = 0;
        while i < rows.rows.len()
            invariant
                i <= rows.rows.len(),
                records.len() == i,
                forall|k: int| 0 <= k < i ==> (#[trigger] rows@.rows[k]).len() == rows@.columns.len(),
                forall|k: int| 0 <= k < i ==> (#[trigger] records[k])@ == records_of(rows@)[k],
            decreases rows.rows.len() - i,
        {
            let row = &rows.rows[i];
            assert(rows@.rows[i as int] == string_views(row@));
            if row.len() != rows.columns.len() {
                return Err(PipelineError::new(ErrorKind::ExecutionFailed, MISFIT));
            }
            records.push(make_record(&rows.columns, row));
            i = i + 1;
        }
        let result = ExecutionResult { records };
        assert(result@ =~= records_of(rows@));
        Ok(result)
    }

    /// Whether the result holds no record.
    pub fn is_empty(&self) -> (r: bool)
        ensures
            r == (self@.len() == 0),
    {
        self.records.len() == 0
    }

    /// The text form of the result.
    pub fn to_text(&self) -> (s: String)
        ensures
            s@ == result_text(self@),
    {
        if self.records.len() == 0 {
            return String::from_str(NO_RESULTS);
        }
        let mut items: Vec<String> = Vec::new();
        let mut i: usize = 0;
        while i < self.records.len()
            invariant
                i <= self.records.len(),
                items.len() == i,
                forall|j: int| 0 <= j < i ==> (#[trigger] items[j])@ == record_json(self.records[j]@),
            decreases self.records.len() - i,
        {
            items.push(record_text(&self.records[i]));
            i = i + 1;
        }
        assert(string_views(items@) =~= record_jsons(self@));
        let mut s = String::new();
        push_joined(&mut s, &items, "\n");
        s
    }
}

} // verus!
