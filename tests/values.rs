use polydb::error::DbError;
use polydb::value::{
    canonical, first_decoded, mysql_cascade, postgres_cascade, session_cascade, CellDecoder, CellValue,
    Decoded, QueryResponse,
};

#[test]
fn boolean_cell_is_not_reported_as_a_number() {
    let cascade = session_cascade();
    let attempts: Vec<Option<Decoded>> = cascade
        .iter()
        .map(|d| match d {
            CellDecoder::Bool => Some(Decoded::Bool(true)),
            _ => None,
        })
        .collect();
    assert_eq!(first_decoded(attempts), CellValue::Bool(true));
}

#[test]
fn cascade_order_decides_between_compatible_decoders() {
    let cascade = mysql_cascade();
    let pos = |k: CellDecoder| cascade.iter().position(|d| *d == k).unwrap();
    assert!(pos(CellDecoder::Text) < pos(CellDecoder::I16));
    assert!(pos(CellDecoder::I64) < pos(CellDecoder::Bool));
    let attempts: Vec<Option<Decoded>> = cascade
        .iter()
        .map(|d| match d {
            CellDecoder::I16 | CellDecoder::I32 | CellDecoder::I64 => Some(Decoded::Int(1)),
            CellDecoder::Bool => Some(Decoded::Bool(true)),
            _ => None,
        })
        .collect();
    assert_eq!(first_decoded(attempts), CellValue::Int(1));
}

#[test]
fn cascades_have_documented_order() {
    assert_eq!(
        session_cascade(),
        vec![
            CellDecoder::Text,
            CellDecoder::I32,
            CellDecoder::I64,
            CellDecoder::F64,
            CellDecoder::Bool,
            CellDecoder::Uuid
        ]
    );
    assert_eq!(mysql_cascade().len(), 15);
    assert_eq!(postgres_cascade().len(), 17);
    assert_eq!(postgres_cascade()[0], CellDecoder::Text);
    assert_eq!(*postgres_cascade().last().unwrap(), CellDecoder::Bytes);
}

#[test]
fn undecodable_cell_is_null() {
    assert_eq!(first_decoded(vec![None, None, None]), CellValue::Null);
    assert_eq!(first_decoded(vec![]), CellValue::Null);
}

#[test]
fn canonical_values() {
    assert_eq!(canonical(Decoded::Uuid("0f".to_string())), CellValue::Text("0f".to_string()));
    assert_eq!(canonical(Decoded::Temporal("2024-01-02".to_string())), CellValue::Text("2024-01-02".to_string()));
    assert_eq!(canonical(Decoded::Decimal("1.50".to_string())), CellValue::Text("1.50".to_string()));
    assert_eq!(canonical(Decoded::Json("{}".to_string())), CellValue::Document("{}".to_string()));
    assert_eq!(canonical(Decoded::Bytes(vec![0, 7, 255])), CellValue::Document("[0,7,255]".to_string()));
    assert_eq!(canonical(Decoded::Bytes(vec![])), CellValue::Document("[]".to_string()));
    assert_eq!(
        canonical(Decoded::TextArray(vec!["a".to_string(), "b\"c".to_string()])),
        CellValue::Document("[\"a\",\"b\\\"c\"]".to_string())
    );
    assert_eq!(
        canonical(Decoded::Float { text: "NaN".to_string(), finite: false }),
        CellValue::Null
    );
    assert_eq!(
        canonical(Decoded::Float { text: "0.25".to_string(), finite: true }),
        CellValue::Float("0.25".to_string())
    );
}

#[test]
fn error_messages() {
    assert_eq!(DbError::InvalidConnectionString.message(), "Invalid connection string");
    assert_eq!(DbError::UnknownConnectionName("db1".to_string()).message(), "Connection not found: db1");
    assert_eq!(DbError::QueryError("syntax".to_string()).message(), "syntax");
    assert_eq!(DbError::ConnectionError("refused".to_string()).message(), "refused");
    assert_eq!(DbError::EmptyCommand.message(), "Empty command");
    assert_eq!(DbError::UnsupportedFormat("pdf".to_string()).message(), "Unsupported format: pdf");
    assert_eq!(DbError::IoError("denied".to_string()).message(), "denied");
}

#[test]
fn well_formedness_is_checked_row_by_row() {
    let good = QueryResponse {
        columns: vec!["a".to_string()],
        rows: vec![vec![CellValue::Int(1)], vec![CellValue::Null]],
    };
    assert!(good.is_well_formed());
    let bad = QueryResponse {
        columns: vec!["a".to_string()],
        rows: vec![vec![CellValue::Int(1)], vec![]],
    };
    assert!(!bad.is_well_formed());
    assert!(QueryResponse { columns: vec![], rows: vec![] }.is_well_formed());
}
