use polydb::error::DbError;
use polydb::results::{
    command_result, document_request, kv_command, kv_result, pooled_result, CursorEvent, CursorStep,
    DocumentCursor, DocumentRequest, SessionStream, StreamEvent, StreamStep, DOCUMENT_LIMIT,
};
use polydb::value::{CellValue, QueryResponse};

fn names(v: &[&str]) -> Vec<String> {
    v.iter().map(|s| s.to_string()).collect()
}

#[test]
fn pooled_empty_result_keeps_described_columns() {
    let r = pooled_result(vec![], vec![], Some(names(&["id", "name"]))).unwrap();
    assert_eq!(r.columns, names(&["id", "name"]));
    assert!(r.rows.is_empty());
}

#[test]
fn pooled_empty_result_without_description_has_no_columns() {
    let r = pooled_result(vec![], vec![], None).unwrap();
    assert_eq!(r, QueryResponse { columns: vec![], rows: vec![] });
}

#[test]
fn pooled_rows_are_kept_in_order() {
    let rows = vec![
        vec![CellValue::Int(1), CellValue::Text("a".to_string())],
        vec![CellValue::Int(2), CellValue::Null],
        vec![CellValue::Int(3), CellValue::Text("c".to_string())],
    ];
    let r = pooled_result(names(&["id", "v"]), rows.clone(), Some(names(&["ignored"]))).unwrap();
    assert_eq!(r.columns, names(&["id", "v"]));
    assert_eq!(r.rows, rows);
    assert!(r.rows.iter().all(|row| row.len() == r.columns.len()));
}

#[test]
fn pooled_ragged_rows_fail() {
    let rows = vec![vec![CellValue::Int(1)], vec![CellValue::Int(2), CellValue::Int(3)]];
    assert!(matches!(pooled_result(names(&["id"]), rows, None), Err(DbError::QueryError(_))));
}

fn next(step: StreamStep) -> SessionStream {
    match step {
        StreamStep::Next(s) => s,
        _ => panic!("stream ended early"),
    }
}

#[test]
fn session_stream_with_metadata_and_no_rows_reports_columns() {
    let s = SessionStream::new();
    let s = next(s.step(StreamEvent::Metadata(names(&["a", "b"]))));
    match s.step(StreamEvent::End) {
        StreamStep::Done(r) => {
            assert_eq!(r.columns, names(&["a", "b"]));
            assert!(r.rows.is_empty());
        }
        _ => panic!("expected a result"),
    }
}

#[test]
fn session_stream_keeps_rows_of_later_result_sets_that_fit() {
    let s = SessionStream::new();
    let s = next(s.step(StreamEvent::Metadata(names(&["n"]))));
    let s = next(s.step(StreamEvent::Row(vec![CellValue::Int(1)])));
    let s = next(s.step(StreamEvent::Metadata(names(&["m"]))));
    let s = next(s.step(StreamEvent::Row(vec![CellValue::Int(2)])));
    match s.step(StreamEvent::End) {
        StreamStep::Done(r) => {
            assert_eq!(r.columns, names(&["n"]));
            assert_eq!(r.rows, vec![vec![CellValue::Int(1)], vec![CellValue::Int(2)]]);
        }
        _ => panic!("expected a result"),
    }
}

#[test]
fn session_stream_fails_on_a_later_result_set_of_another_width() {
    let s = SessionStream::new();
    let s = next(s.step(StreamEvent::Metadata(names(&["n"]))));
    let s = next(s.step(StreamEvent::Row(vec![CellValue::Int(1)])));
    let s = next(s.step(StreamEvent::Metadata(names(&["x", "y"]))));
    assert!(matches!(
        s.step(StreamEvent::Row(vec![CellValue::Int(7), CellValue::Int(8)])),
        StreamStep::Failed(DbError::QueryError(_))
    ));
}

#[test]
fn session_stream_rejects_mismatched_rows_and_reports_failures() {
    let s = SessionStream::new();
    assert!(matches!(s.step(StreamEvent::Row(vec![CellValue::Null])), StreamStep::Failed(DbError::QueryError(_))));
    let s = next(SessionStream::new().step(StreamEvent::Metadata(names(&["a"]))));
    assert!(matches!(
        s.step(StreamEvent::Row(vec![CellValue::Null, CellValue::Null])),
        StreamStep::Failed(DbError::QueryError(_))
    ));
    let s = SessionStream::new();
    match s.step(StreamEvent::Failed("deadlock".to_string())) {
        StreamStep::Failed(e) => assert_eq!(e, DbError::QueryError("deadlock".to_string())),
        _ => panic!("expected a failure"),
    }
}

#[test]
fn statement_without_result_set_is_empty() {
    match SessionStream::new().step(StreamEvent::End) {
        StreamStep::Done(r) => assert_eq!(r, QueryResponse { columns: vec![], rows: vec![] }),
        _ => panic!("expected a result"),
    }
}

#[test]
fn document_cursor_stops_at_the_limit() {
    let mut c = DocumentCursor::new();
    let mut done = None;
    for i in 0..(DOCUMENT_LIMIT + 5) {
        match c.step(CursorEvent::Document(format!("{{\"i\":{}}}", i))) {
            CursorStep::Next(n) => c = n,
            CursorStep::Done(r) => {
                done = Some((i, r));
                break;
            }
            CursorStep::Failed(_) => panic!("unexpected failure"),
        }
    }
    let (i, r) = done.expect("the cursor never finished");
    assert_eq!(i + 1, DOCUMENT_LIMIT);
    assert_eq!(r.columns, names(&["Document"]));
    assert_eq!(r.rows.len(), 100);
    assert_eq!(r.rows[0], vec![CellValue::Document("{\"i\":0}".to_string())]);
}

#[test]
fn document_cursor_empty_collection_keeps_column() {
    match DocumentCursor::new().step(CursorEvent::End) {
        CursorStep::Done(r) => {
            assert_eq!(r.columns, names(&["Document"]));
            assert!(r.rows.is_empty());
        }
        _ => panic!("expected a result"),
    }
    assert!(matches!(
        DocumentCursor::new().step(CursorEvent::Failed("boom".to_string())),
        CursorStep::Failed(DbError::QueryError(_))
    ));
}

#[test]
fn command_reply_is_one_cell() {
    let r = command_result(Some("{\"ok\":1}".to_string()));
    assert_eq!(r.columns, names(&["Result"]));
    assert_eq!(r.rows, vec![vec![CellValue::Document("{\"ok\":1}".to_string())]]);
    assert_eq!(command_result(None).rows, vec![vec![CellValue::Null]]);
}

#[test]
fn document_queries_are_classified_after_trimming() {
    assert_eq!(document_request("  {\"ping\": 1} \n"), DocumentRequest::Command("{\"ping\": 1}".to_string()));
    assert_eq!(document_request("\tusers  "), DocumentRequest::Collection("users".to_string()));
    assert_eq!(document_request(""), DocumentRequest::Collection(String::new()));
}

#[test]
fn kv_blank_text_is_an_empty_command() {
    assert_eq!(kv_command(""), Err(DbError::EmptyCommand));
    assert_eq!(kv_command(" \t\n "), Err(DbError::EmptyCommand));
    assert_eq!(kv_command("\u{3000}\u{a0}"), Err(DbError::EmptyCommand));
}

#[test]
fn kv_ping_gives_one_row_one_column() {
    let c = kv_command("PING").unwrap();
    assert_eq!(c.name, "PING");
    assert!(c.args.is_empty());
    let r = kv_result(Some("PONG".to_string()));
    assert_eq!(r.columns, names(&["Output"]));
    assert_eq!(r.rows, vec![vec![CellValue::Text("PONG".to_string())]]);
}

#[test]
fn kv_command_splits_words() {
    let c = kv_command("  SET   key\tvalue\n").unwrap();
    assert_eq!(c.name, "SET");
    assert_eq!(c.args, names(&["key", "value"]));
    assert_eq!(kv_result(None).rows, vec![vec![CellValue::Null]]);
}
