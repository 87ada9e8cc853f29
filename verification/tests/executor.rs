use text_to_cypher_node::error::ErrorKind;
use text_to_cypher_node::executor::{ExecutionResult, Field, Record, RowSet, NO_RESULTS};

fn strings(items: &[&str]) -> Vec<String> {
    items.iter().map(|s| s.to_string()).collect()
}

fn field(column: &str, value: &str) -> Field {
    Field { column: column.to_string(), value: value.to_string() }
}

#[test]
fn rows_become_records_under_their_columns() {
    let rows = RowSet {
        columns: strings(&["a.name", "m.released"]),
        rows: vec![strings(&["Ana", "2021"]), strings(&["Ben", "2023"])],
    };
    let result = ExecutionResult::from_rows(&rows).unwrap();
    assert_eq!(
        result.records,
        vec![
            Record { fields: vec![field("a.name", "Ana"), field("m.released", "2021")] },
            Record { fields: vec![field("a.name", "Ben"), field("m.released", "2023")] },
        ]
    );
    assert!(!result.is_empty());
}

#[test]
fn no_rows_make_the_empty_result() {
    let rows = RowSet { columns: strings(&["n"]), rows: vec![] };
    let result = ExecutionResult::from_rows(&rows).unwrap();
    assert!(result.is_empty());
    assert_eq!(result, ExecutionResult::empty());
    assert_eq!(result.to_text(), NO_RESULTS);
    assert_eq!(result.to_text(), "No results.");
}

#[test]
fn a_row_that_does_not_fit_fails_execution() {
    for row in [strings(&["only one"]), strings(&["one", "two", "three"])] {
        let rows = RowSet {
            columns: strings(&["a", "b"]),
            rows: vec![strings(&["1", "2"]), row],
        };
        let error = ExecutionResult::from_rows(&rows).unwrap_err();
        assert_eq!(error.kind, ErrorKind::ExecutionFailed);
        assert_eq!(
            error.message,
            "Query execution failed: a row of the result does not match its columns"
        );
    }
}

#[test]
fn rows_without_columns_are_records_without_fields() {
    let rows = RowSet { columns: vec![], rows: vec![vec![], vec![]] };
    let result = ExecutionResult::from_rows(&rows).unwrap();
    assert_eq!(result.records.len(), 2);
    assert_eq!(result.to_text(), "{}\n{}");
}

#[test]
fn result_text_is_one_json_object_per_record() {
    let rows = RowSet {
        columns: strings(&["a.name", "m.released"]),
        rows: vec![strings(&["Ana \"A\"", "2021"]), strings(&["Ben\n", "2023"])],
    };
    let result = ExecutionResult::from_rows(&rows).unwrap();
    assert_eq!(
        result.to_text(),
        "{\"a.name\":\"Ana \\\"A\\\"\",\"m.released\":\"2021\"}\n{\"a.name\":\"Ben\\n\",\"m.released\":\"2023\"}"
    );
}
