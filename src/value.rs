//! The canonical value model, the normalised result and the ordered
//! coercion cascades that map engine-native cells onto it.

use vstd::prelude::*;
use crate::json::{json_array, json_byte_array, json_string_array, json_strings, byte_numbers};

verus! {

/// An engine-independent cell value.
#[derive(Debug, Clone, PartialEq, Eq)]
pub enum CellValue {
    Null,
    Bool(bool),
    /// An integer of at most 64 bits.
    Int(i64),
    /// A finite floating-point number, as its shortest decimal text.
    Float(String),
    Text(String),
    /// A structured value from a document store, as compact JSON text.
    Document(String),
}

/// What a cell value means, with texts as character sequences.
pub enum CellView {
    Null,
    Bool(bool),
    Int(i64),
    Float(Seq<char>),
    Text(Seq<char>),
    Document(Seq<char>),
}

impl View for CellValue {
    type V = CellView;

    open spec fn view(&self) -> CellView {
        match self {
            CellValue::Null => CellView::Null,
            CellValue::Bool(b) => CellView::Bool(*b),
            CellValue::Int(i) => CellView::Int(*i),
            CellValue::Float(t) => CellView::Float(t@),
            CellValue::Text(t) => CellView::Text(t@),
            CellValue::Document(t) => CellView::Document(t@),
        }
    }
}

/// The meaning of a row of cells.
pub open spec fn row_view(row: Seq<CellValue>) -> Seq<CellView> {
    row.map_values(|c: CellValue| c@)
}

/// The meaning of a sequence of rows.
pub open spec fn rows_view(rows: Seq<Vec<CellValue>>) -> Seq<Seq<CellView>> {
    rows.map_values(|r: Vec<CellValue>| row_view(r@))
}

/// The texts of a sequence of strings.
pub open spec fn texts_view(names: Seq<String>) -> Seq<Seq<char>> {
    names.map_values(|n: String| n@)
}

/// A normalised result: column names, and rows aligned with them.
#[derive(Debug, Clone, PartialEq, Eq)]
pub struct QueryResponse {
    pub columns: Vec<String>,
    pub rows: Vec<Vec<CellValue>>,
}

/// What a normalised result means.
pub struct ResultView {
    pub columns: Seq<Seq<char>>,
    pub rows: Seq<Seq<CellView>>,
}

impl View for QueryResponse {
    type V = ResultView;

    open spec fn view(&self) -> ResultView {
        ResultView { columns: texts_view(self.columns@), rows: rows_view(self.rows@) }
    }
}

impl ResultView {
    /// Every row holds exactly one value per column.
    pub open spec fn wf(self) -> bool {
        forall|i: int| 0 <= i < self.rows.len() ==> (#[trigger] self.rows[i]).len() == self.columns.len()
    }
}

impl QueryResponse {
    /// Every row holds exactly one value per column.
    pub open spec fn wf(&self) -> bool {
        forall|i: int| 0 <= i < self.rows@.len() ==> (#[trigger] self.rows@[i])@.len() == self.columns@.len()
    }

    /// Whether every row holds exactly one value per column.
    pub fn is_well_formed(&self) -> (r: bool)
        ensures
            r == self.wf(),
    {
        let mut i: usize = 0;
        while i < self.rows.len()
            invariant
                i <= self.rows@.len(),
                forall|j: int| 0 <= j < i ==> (#[trigger] self.rows@[j])@.len() == self.columns@.len(),
            decreases self.rows@.len() - i,
        {
            if self.rows[i].len() != self.columns.len() {
                return false;
            }
            i = i + 1;
        }
        true
    }
}

/// A native type that a decoder of a cascade tries to read a cell as.
#[derive(Debug, Clone, Copy, PartialEq, Eq, Structural)]
pub enum CellDecoder {
    Text,
    I16,
    I32,
    I64,
    F32,
    F64,
    Bool,
    Uuid,
    Json,
    TextArray,
    NaiveDateTime,
    UtcDateTime,
    OffsetDateTime,
    NaiveDate,
    NaiveTime,
    Decimal,
    Bytes,
}

/// The cascade of the exclusive-session engine.
pub open spec fn session_cascade_spec() -> Seq<CellDecoder> {
    seq![CellDecoder::Text, CellDecoder::I32, CellDecoder::I64, CellDecoder::F64, CellDecoder::Bool, CellDecoder::Uuid]
}

/// The cascade of the pooled engine of the `mysql` and `mariadb` schemes.
pub open spec fn mysql_cascade_spec() -> Seq<CellDecoder> {
    seq![
        CellDecoder::Text,
        CellDecoder::I16,
        CellDecoder::I32,
        CellDecoder::I64,
        CellDecoder::F32,
        CellDecoder::F64,
        CellDecoder::Bool,
        CellDecoder::Uuid,
        CellDecoder::Json,
        CellDecoder::NaiveDateTime,
        CellDecoder::UtcDateTime,
        CellDecoder::NaiveDate,
        CellDecoder::NaiveTime,
        CellDecoder::Decimal,
        CellDecoder::Bytes,
    ]
}

/// The cascade of the pooled engine of the `postgres` and `postgresql` schemes.
/// Beside the shared list it reads text arrays, as JSON documents, ahead of
/// JSON values: no other decoder of the list reads them.
pub open spec fn postgres_cascade_spec() -> Seq<CellDecoder> {
    seq![
        CellDecoder::Text,
        CellDecoder::I16,
        CellDecoder::I32,
        CellDecoder::I64,
        CellDecoder::F32,
        CellDecoder::F64,
        CellDecoder::Bool,
        CellDecoder::Uuid,
        CellDecoder::TextArray,
        CellDecoder::Json,
        CellDecoder::NaiveDateTime,
        CellDecoder::UtcDateTime,
        CellDecoder::OffsetDateTime,
        CellDecoder::NaiveDate,
        CellDecoder::NaiveTime,
        CellDecoder::Decimal,
        CellDecoder::Bytes,
    ]
}

/// The decoders tried, in order, on each cell of the exclusive-session engine.
pub fn session_cascade() -> (r: Vec<CellDecoder>)
    ensures
        r@ == session_cascade_spec(),
{
    let r = vec![CellDecoder::Text, CellDecoder::I32, CellDecoder::I64, CellDecoder::F64, CellDecoder::Bool, CellDecoder::Uuid];
    assert(r@ =~= session_cascade_spec());
    r
}

/// The decoders tried, in order, on each cell of the MySQL-family engine.
pub fn mysql_cascade() -> (r: Vec<CellDecoder>)
    ensures
        r@ == mysql_cascade_spec(),
{
    let r = vec![
        CellDecoder::Text,
        CellDecoder::I16,
        CellDecoder::I32,
        CellDecoder::I64,
        CellDecoder::F32,
        CellDecoder::F64,
        CellDecoder::Bool,
        CellDecoder::Uuid,
        CellDecoder::Json,
        CellDecoder::NaiveDateTime,
        CellDecoder::UtcDateTime,
        CellDecoder::NaiveDate,
        CellDecoder::NaiveTime,
        CellDecoder::Decimal,
        CellDecoder::Bytes,
    ];
    assert(r@ =~= mysql_cascade_spec());
    r
}

/// The decoders tried, in order, on each cell of the PostgreSQL engine.
pub fn postgres_cascade() -> (r: Vec<CellDecoder>)
    ensures
        r@ == postgres_cascade_spec(),
{
    let r = vec![
        CellDecoder::Text,
        CellDecoder::I16,
        CellDecoder::I32,
        CellDecoder::I64,
        CellDecoder::F32,
        CellDecoder::F64,
        CellDecoder::Bool,
        CellDecoder::Uuid,
        CellDecoder::TextArray,
        CellDecoder::Json,
        CellDecoder::NaiveDateTime,
        CellDecoder::UtcDateTime,
        CellDecoder::OffsetDateTime,
        CellDecoder::NaiveDate,
        CellDecoder::NaiveTime,
        CellDecoder::Decimal,
        CellDecoder::Bytes,
    ];
    assert(r@ =~= postgres_cascade_spec());
    r
}

/// A cell as one decoder of a cascade read it.
#[derive(Debug, Clone, PartialEq, Eq)]
pub enum Decoded {
    Text(String),
    /// Any signed integer of at most 64 bits.
    Int(i64),
    /// A floating-point number: its decimal text, and whether it is finite.
    Float { text: String, finite: bool },
    Bool(bool),
    /// A unique identifier, in its hyphenated text form.
    Uuid(String),
    /// A JSON value, as compact JSON text.
    Json(String),
    TextArray(Vec<String>),
    /// A date, a time or a timestamp, in its canonical text form.
    Temporal(String),
    /// An arbitrary-precision decimal, in its text form.
    Decimal(String),
    Bytes(Vec<u8>),
}

/// The canonical value of a decoded cell.
pub open spec fn canonical_spec(d: Decoded) -> CellView {
    match d {
        Decoded::Text(t) => CellView::Text(t@),
        Decoded::Int(i) => CellView::Int(i),
        Decoded::Float { text, finite } => if finite {
            CellView::Float(text@)
        } else {
            CellView::Null
        },
        Decoded::Bool(b) => CellView::Bool(b),
        Decoded::Uuid(t) => CellView::Text(t@),
        Decoded::Json(t) => CellView::Document(t@),
        Decoded::TextArray(items) => CellView::Document(json_array(json_strings(items@))),
        Decoded::Temporal(t) => CellView::Text(t@),
        Decoded::Decimal(t) => CellView::Text(t@),
        Decoded::Bytes(b) => CellView::Document(json_array(byte_numbers(b@))),
    }
}

/// The canonical value of a decoded cell: identifiers, dates and decimals
/// become text, arrays become JSON documents, non-finite floats become null.
pub fn canonical(d: Decoded) -> (r: CellValue)
    ensures
        r@ == canonical_spec(d),
{
    match d {
        Decoded::Text(t) => CellValue::Text(t),
        Decoded::Int(i) => CellValue::Int(i),
        Decoded::Float { text, finite } => if finite {
            CellValue::Float(text)
        } else {
            CellValue::Null
        },
        Decoded::Bool(b) => CellValue::Bool(b),
        Decoded::Uuid(t) => CellValue::Text(t),
        Decoded::Json(t) => CellValue::Document(t),
        Decoded::TextArray(items) => CellValue::Document(json_string_array(&items)),
        Decoded::Temporal(t) => CellValue::Text(t),
        Decoded::Decimal(t) => CellValue::Text(t),
        Decoded::Bytes(b) => CellValue::Document(json_byte_array(&b)),
    }
}

/// The value of a cell given what each decoder of its cascade read, in the
/// cascade's order: that of the first decoder that succeeded, else null.
pub open spec fn first_decoded_spec(attempts: Seq<Option<Decoded>>) -> CellView
    decreases attempts.len(),
{
    if attempts.len() == 0 {
        CellView::Null
    } else if attempts[0] is Some {
        canonical_spec(attempts[0]->0)
    } else {
        first_decoded_spec(attempts.drop_first())
    }
}

/// Picks the value of a cell from what each decoder of its cascade read, in
/// the cascade's order. A cell that no decoder reads is null.
pub fn first_decoded(attempts: Vec<Option<Decoded>>) -> (r: CellValue)
    ensures
        r@ == first_decoded_spec(attempts@),
{
    let ghost all = attempts@;
    let mut pending = attempts;
    while pending.len() > 0
        invariant
            all == attempts@,
            first_decoded_spec(pending@) == first_decoded_spec(all),
        decreases pending.len(),
    {
        let ghost before = pending@;
        let a = pending.remove(0);
        assert(pending@ =~= before.drop_first());
        match a {
            Option::Some(d) => {
                assert(first_decoded_spec(before) == canonical_spec(d));
                let r = canonical(d);
                return r;
            },
            Option::None => {},
        }
    }
    CellValue::Null
}

/// The first decoder of the cascade that reads a cell decides its value:
/// where every earlier decoder failed and the one at `k` succeeded, the cell
/// is what that decoder read, whatever later decoders would read.
pub proof fn lemma_first_success_decides(attempts: Seq<Option<Decoded>>, k: int)
    requires
        0 <= k < attempts.len(),
        attempts[k] is Some,
        forall|j: int| 0 <= j < k ==> (#[trigger] attempts[j]) is None,
    ensures
        first_decoded_spec(attempts) == canonical_spec(attempts[k]->0),
    decreases k,
{
    if k > 0 {
        assert(attempts[0] is None);
        let rest = attempts.drop_first();
        assert forall|j: int| 0 <= j < k - 1 implies (#[trigger] rest[j]) is None by {
            assert(rest[j] == attempts[j + 1]);
        }
        lemma_first_success_decides(rest, k - 1);
    }
}

} // verus!
