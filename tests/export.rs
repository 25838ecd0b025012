use polydb::error::DbError;
use polydb::export::{export_document, export_format, render_sheet, ExportDocument, ExportFormat, SheetCell};
use polydb::value::{CellValue, QueryResponse};

fn sample() -> QueryResponse {
    QueryResponse {
        columns: vec!["a".to_string(), "b".to_string()],
        rows: vec![
            vec![CellValue::Int(1), CellValue::Text("x".to_string())],
            vec![CellValue::Null, CellValue::Text("y".to_string())],
        ],
    }
}

fn text_of(result: &QueryResponse, format: &str) -> String {
    match export_document(result, format) {
        Ok(ExportDocument::Text(t)) => t,
        other => panic!("unexpected export outcome: {:?}", other),
    }
}

#[test]
fn csv_export_of_sample() {
    assert_eq!(text_of(&sample(), "csv"), "a,b\n1,x\n,y\n");
}

#[test]
fn json_export_of_sample() {
    let t = text_of(&sample(), "json");
    let compact: String = t.chars().filter(|c| !c.is_whitespace()).collect();
    assert_eq!(compact, "[{\"a\":1,\"b\":\"x\"},{\"a\":null,\"b\":\"y\"}]");
    assert_eq!(
        t,
        "[\n  {\n    \"a\": 1,\n    \"b\": \"x\"\n  },\n  {\n    \"a\": null,\n    \"b\": \"y\"\n  }\n]"
    );
}

#[test]
fn sql_export_of_sample() {
    assert_eq!(
        text_of(&sample(), "sql"),
        "INSERT INTO export_table (a, b) VALUES (1, 'x');\nINSERT INTO export_table (a, b) VALUES (NULL, 'y');\n"
    );
}

#[test]
fn jsonl_export_of_sample() {
    assert_eq!(
        text_of(&sample(), "jsonl"),
        "{\"a\":1,\"b\":\"x\"}\n{\"a\":null,\"b\":\"y\"}\n"
    );
}

#[test]
fn semicolon_and_tab_exports() {
    assert_eq!(text_of(&sample(), "csv_semicolon"), "a;b\n1;x\n;y\n");
    assert_eq!(text_of(&sample(), "tsv"), "a\tb\n1\tx\n\ty\n");
}

#[test]
fn xml_export_replaces_spaces_in_tags_and_omits_nulls() {
    let r = QueryResponse {
        columns: vec!["first name".to_string(), "n".to_string()],
        rows: vec![vec![CellValue::Text("a<b & c".to_string()), CellValue::Null]],
    };
    assert_eq!(
        text_of(&r, "xml"),
        "<data>\n<row><first_name>a&lt;b &amp; c</first_name></row>\n</data>\n"
    );
}

#[test]
fn csv_fields_are_quoted_when_needed() {
    let r = QueryResponse {
        columns: vec!["c,d".to_string()],
        rows: vec![
            vec![CellValue::Text("say \"hi\"".to_string())],
            vec![CellValue::Text("two\nlines".to_string())],
            vec![CellValue::Bool(true)],
        ],
    };
    assert_eq!(
        text_of(&r, "csv"),
        "\"c,d\"\n\"say \"\"hi\"\"\"\n\"two\nlines\"\ntrue\n"
    );
    assert_eq!(text_of(&r, "csv_semicolon"), "c,d\n\"say \"\"hi\"\"\"\n\"two\nlines\"\ntrue\n");
}

#[test]
fn sql_export_doubles_quotes_and_keeps_literals_bare() {
    let r = QueryResponse {
        columns: vec!["t".to_string(), "b".to_string(), "f".to_string()],
        rows: vec![vec![
            CellValue::Text("it's".to_string()),
            CellValue::Bool(false),
            CellValue::Float("2.5".to_string()),
        ]],
    };
    assert_eq!(
        text_of(&r, "sql"),
        "INSERT INTO export_table (t, b, f) VALUES ('it''s', false, 2.5);\n"
    );
}

#[test]
fn json_export_escapes_text_and_embeds_documents() {
    let r = QueryResponse {
        columns: vec!["d".to_string(), "s".to_string(), "n".to_string()],
        rows: vec![vec![
            CellValue::Document("{\"k\":[1,2]}".to_string()),
            CellValue::Text("q\"\\\n\u{1}".to_string()),
            CellValue::Int(-42),
        ]],
    };
    assert_eq!(
        text_of(&r, "jsonl"),
        "{\"d\":{\"k\":[1,2]},\"s\":\"q\\\"\\\\\\n\\u0001\",\"n\":-42}\n"
    );
}

#[test]
fn empty_result_exports() {
    let r = QueryResponse { columns: vec![], rows: vec![] };
    assert_eq!(text_of(&r, "json"), "[]");
    assert_eq!(text_of(&r, "csv"), "\n");
    assert_eq!(text_of(&r, "jsonl"), "");
    assert_eq!(text_of(&r, "xml"), "<data>\n</data>\n");
    let only_columns = QueryResponse { columns: vec!["a".to_string()], rows: vec![] };
    assert_eq!(text_of(&only_columns, "csv"), "a\n");
    let no_columns = QueryResponse { columns: vec![], rows: vec![vec![]] };
    assert_eq!(text_of(&no_columns, "json"), "[\n  {}\n]");
}

#[test]
fn extreme_integers_are_exported_exactly() {
    let r = QueryResponse {
        columns: vec!["v".to_string()],
        rows: vec![vec![CellValue::Int(i64::MIN)], vec![CellValue::Int(i64::MAX)], vec![CellValue::Int(0)]],
    };
    assert_eq!(text_of(&r, "csv"), "v\n-9223372036854775808\n9223372036854775807\n0\n");
}

#[test]
fn unsupported_format_is_rejected() {
    assert_eq!(
        export_document(&sample(), "pdf"),
        Err(DbError::UnsupportedFormat("pdf".to_string()))
    );
    assert_eq!(export_format("CSV"), Err(DbError::UnsupportedFormat("CSV".to_string())));
    assert_eq!(export_format("tsv"), Ok(ExportFormat::Tsv));
}

#[test]
fn excel_export_types_cells() {
    let r = QueryResponse {
        columns: vec!["a".to_string(), "b".to_string(), "c".to_string()],
        rows: vec![vec![CellValue::Int(3), CellValue::Bool(true), CellValue::Null]],
    };
    let expected = vec![
        vec![
            SheetCell::Text("a".to_string()),
            SheetCell::Text("b".to_string()),
            SheetCell::Text("c".to_string()),
        ],
        vec![SheetCell::Int(3), SheetCell::Bool(true), SheetCell::Empty],
    ];
    assert_eq!(render_sheet(&r), expected);
    assert_eq!(export_document(&r, "excel"), Ok(ExportDocument::Sheet(expected)));
}
