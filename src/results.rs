//! Assembly of normalised results from what each engine hands back.
//!
//! The network exchange itself is driven by the caller; the functions here
//! decide what the exchange means. Every result they produce is well formed:
//! each row holds exactly one value per column.

use vstd::prelude::*;
use crate::error::DbError;
use crate::text::{split_words, trim_text, trimmed, words};
use crate::value::{CellValue, CellView, QueryResponse, ResultView, rows_view, texts_view};

verus! {

/// The result of a pooled relational query.
///
/// `columns` are the names that the first row reports and `rows` every row
/// that the engine returned. `described` is what a describe call of the query
/// recovered, if one was made; it is used only when no row came back, and a
/// failed or absent description yields no columns.
pub fn pooled_result(
    columns: Vec<String>,
    rows: Vec<Vec<CellValue>>,
    described: Option<Vec<String>>,
) -> (r: Result<QueryResponse, DbError>)
    ensures
        rows@.len() == 0 ==> r is Ok && r->Ok_0@ == (ResultView {
            columns: match described {
                Option::Some(d) => texts_view(d@),
                Option::None => Seq::empty(),
            },
            rows: Seq::empty(),
        }),
        rows@.len() > 0 ==> (r is Ok <==> forall|i: int|
            0 <= i < rows@.len() ==> (#[trigger] rows@[i])@.len() == columns@.len()),
        rows@.len() > 0 && r is Ok ==> r->Ok_0@ == (ResultView {
            columns: texts_view(columns@),
            rows: rows_view(rows@),
        }),
        r is Ok ==> r->Ok_0.wf(),
        r is Err ==> r->Err_0 is QueryError,
{
    if rows.len() == 0 {
        let names = match described {
            Option::Some(d) => d,
            Option::None => Vec::new(),
        };
        let empty: Vec<Vec<CellValue>> = Vec::new();
        let r = QueryResponse { columns: names, rows: empty };
        assert(r@.rows =~= Seq::<Seq<CellView>>::empty());
        assert(r@.columns =~= match described {
            Option::Some(d) => texts_view(d@),
            Option::None => Seq::<Seq<char>>::empty(),
        });
        return Ok(r);
    }
    let mut i: usize = 0;
    while i < rows.len()
        invariant
            i <= rows@.len(),
            forall|j: int| 0 <= j < i ==> (#[trigger] rows@[j])@.len() == columns@.len(),
        decreases rows@.len() - i,
    {
        if rows[i].len() != columns.len() {
            return Err(DbError::QueryError(String::from_str("a row does not match the column list")));
        }
        i = i + 1;
    }
    Ok(QueryResponse { columns, rows })
}

/// The single-row, single-column result that holds `value` under `name`.
pub open spec fn single_cell(name: Seq<char>, value: CellView) -> ResultView {
    ResultView { columns: seq![name], rows: seq![seq![value]] }
}

fn single_cell_result(name: &str, value: CellValue) -> (r: QueryResponse)
    ensures
        r@ == single_cell(name@, value@),
        r.wf(),
{
    let columns = vec![String::from_str(name)];
    let row = vec![value];
    let rows = vec![row];
    let r = QueryResponse { columns, rows };
    assert(r@.columns =~= seq![name@]);
    assert(r@.rows[0] =~= seq![value@]);
    assert(r@.rows =~= seq![seq![value@]]);
    r
}

/// One frame of an exclusive-session result stream.
pub enum StreamEvent {
    /// The column names of the result set that follows.
    Metadata(Vec<String>),
    /// One row, already coerced cell by cell.
    Row(Vec<CellValue>),
    /// The stream is exhausted.
    End,
    /// The engine failed mid-stream; carries its message.
    Failed(String),
}

/// What has been read so far of an exclusive-session result stream.
///
/// The first metadata frame fixes the columns. Every row, of any result set,
/// is kept where it holds one value per column; a row that does not fails
/// the query, so no row is ever dropped silently.
pub struct SessionStream {
    columns: Vec<String>,
    rows: Vec<Vec<CellValue>>,
    started: bool,
}

/// The meaning of a partly read stream. `started` tells whether a metadata
/// frame has been read.
pub struct StreamView {
    pub columns: Seq<Seq<char>>,
    pub rows: Seq<Seq<CellView>>,
    pub started: bool,
}

impl View for SessionStream {
    type V = StreamView;

    closed spec fn view(&self) -> StreamView {
        StreamView { columns: texts_view(self.columns@), rows: rows_view(self.rows@), started: self.started }
    }
}

impl StreamView {
    /// The stream's state is consistent.
    pub open spec fn wf(self) -> bool {
        &&& !self.started ==> self.columns.len() == 0 && self.rows.len() == 0
        &&& forall|i: int| 0 <= i < self.rows.len() ==> (#[trigger] self.rows[i]).len() == self.columns.len()
    }

    /// The result that the rows read so far make.
    pub open spec fn result(self) -> ResultView {
        ResultView { columns: self.columns, rows: self.rows }
    }
}

/// What reading one more frame of a stream leads to.
pub enum StreamStep {
    /// Keep reading.
    Next(SessionStream),
    /// The stream is complete.
    Done(QueryResponse),
    /// The query failed.
    Failed(DbError),
}

impl SessionStream {
    /// A stream of which nothing has been read.
    pub fn new() -> (r: SessionStream)
        ensures
            r@ == (StreamView { columns: Seq::empty(), rows: Seq::empty(), started: false }),
    {
        let r = SessionStream { columns: Vec::new(), rows: Vec::new(), started: false };
        assert(r@.columns =~= Seq::<Seq<char>>::empty());
        assert(r@.rows =~= Seq::<Seq<CellView>>::empty());
        r
    }

    /// Takes in one frame of the stream.
    pub fn step(self, event: StreamEvent) -> (r: StreamStep)
        requires
            self@.wf(),
        ensures
            match event {
                StreamEvent::Metadata(names) => r is Next && (match r {
                    StreamStep::Next(s) => s@ == (if !self@.started {
                        StreamView { columns: texts_view(names@), rows: Seq::empty(), started: true }
                    } else {
                        self@
                    }),
                    _ => false,
                }),
                StreamEvent::Row(values) => if self@.started && values@.len() == self@.columns.len() {
                    r is Next && (match r {
                        StreamStep::Next(s) => s@ == StreamView {
                            rows: self@.rows.push(crate::value::row_view(values@)),
                            ..self@
                        },
                        _ => false,
                    })
                } else {
                    r is Failed && (match r {
                        StreamStep::Failed(e) => e is QueryError,
                        _ => false,
                    })
                },
                StreamEvent::End => r is Done && (match r {
                    StreamStep::Done(q) => q@ == self@.result(),
                    _ => false,
                }),
                StreamEvent::Failed(m) => r == StreamStep::Failed(DbError::QueryError(m)),
            },
            r is Next ==> r->Next_0@.wf(),
            r is Done ==> r->Done_0.wf(),
    {
        let mut s = self;
        match event {
            StreamEvent::Metadata(names) => {
                if !s.started {
                    assert(rows_view(s.rows@) =~= Seq::<Seq<CellView>>::empty());
                    s.columns = names;
                    s.started = true;
                }
                StreamStep::Next(s)
            },
            StreamEvent::Row(values) => {
                if s.started && values.len() == s.columns.len() {
                    let ghost before = s.rows@;
                    s.rows.push(values);
                    assert(rows_view(s.rows@) =~= rows_view(before).push(crate::value::row_view(values@)));
                    StreamStep::Next(s)
                } else {
                    StreamStep::Failed(DbError::QueryError(String::from_str("a row does not match the column list")))
                }
            },
            StreamEvent::End => {
                let q = QueryResponse { columns: s.columns, rows: s.rows };
                assert forall|i: int| 0 <= i < q.rows@.len() implies (#[trigger] q.rows@[i])@.len()
                    == q.columns@.len() by {
                    assert(self@.rows[i].len() == self@.columns.len());
                }
                StreamStep::Done(q)
            },
            StreamEvent::Failed(m) => StreamStep::Failed(DbError::QueryError(m)),
        }
    }
}


/// The most documents that a collection read returns.
pub const DOCUMENT_LIMIT: usize = 100;

/// The result that lists documents, one per row, under a `Document` column.
pub open spec fn documents_result(docs: Seq<Seq<char>>) -> ResultView {
    ResultView {
        columns: seq!["Document"@],
        rows: docs.map_values(|d: Seq<char>| seq![CellView::Document(d)]),
    }
}

/// One answer of a document-store cursor.
pub enum CursorEvent {
    /// The next document, as compact JSON text.
    Document(String),
    /// The cursor is exhausted.
    End,
    /// The engine failed while reading; carries its message.
    Failed(String),
}

/// The documents read so far from a collection.
pub struct DocumentCursor {
    rows: Vec<Vec<CellValue>>,
    docs: Ghost<Seq<Seq<char>>>,
}

impl View for DocumentCursor {
    type V = Seq<Seq<char>>;

    closed spec fn view(&self) -> Seq<Seq<char>> {
        self.docs@
    }
}

impl DocumentCursor {
    /// The cursor's rows match the documents read, fewer than the limit.
    pub closed spec fn wf(&self) -> bool {
        &&& self.docs@.len() < DOCUMENT_LIMIT
        &&& rows_view(self.rows@) == documents_result(self.docs@).rows
    }

    /// A cursor of which nothing has been read.
    pub fn new() -> (r: DocumentCursor)
        ensures
            r@ == Seq::<Seq<char>>::empty(),
            r.wf(),
    {
        let r = DocumentCursor { rows: Vec::new(), docs: Ghost(Seq::empty()) };
        assert(rows_view(r.rows@) =~= documents_result(r.docs@).rows);
        r
    }

    /// Takes in one answer of the cursor. Reading stops once the limit of
    /// documents is reached.
    pub fn step(self, event: CursorEvent) -> (r: CursorStep)
        requires
            self.wf(),
        ensures
            match event {
                CursorEvent::Document(d) => if self@.len() + 1 < DOCUMENT_LIMIT {
                    r is Next && r->Next_0@ == self@.push(d@)
                } else {
                    r is Done && r->Done_0@ == documents_result(self@.push(d@))
                },
                CursorEvent::End => r is Done && r->Done_0@ == documents_result(self@),
                CursorEvent::Failed(m) => r == CursorStep::Failed(DbError::QueryError(m)),
            },
            r is Next ==> r->Next_0.wf(),
            r is Done ==> r->Done_0.wf(),
    {
        let mut c = self;
        match event {
            CursorEvent::Document(d) => {
                let ghost dv = d@;
                let ghost before = c.rows@;
                c.rows.push(vec![CellValue::Document(d)]);
                c.docs = Ghost(c.docs@.push(dv));
                assert(rows_view(c.rows@) =~= documents_result(c.docs@).rows) by {
                    assert(rows_view(before) == documents_result(self@).rows);
                    assert forall|i: int| 0 <= i < c.rows@.len() implies #[trigger] rows_view(c.rows@)[i]
                        == documents_result(c.docs@).rows[i] by {
                        if i < before.len() {
                            assert(c.rows@[i] == before[i]);
                            assert(rows_view(before)[i] == documents_result(self@).rows[i]);
                            assert(c.docs@[i] == self.docs@[i]);
                        } else {
                            assert(crate::value::row_view(c.rows@[i]@) =~= seq![CellView::Document(dv)]);
                        }
                    }
                }
                if c.rows.len() < DOCUMENT_LIMIT {
                    CursorStep::Next(c)
                } else {
                    CursorStep::Done(c.finish())
                }
            },
            CursorEvent::End => CursorStep::Done(c.finish()),
            CursorEvent::Failed(m) => CursorStep::Failed(DbError::QueryError(m)),
        }
    }

    fn finish(self) -> (r: QueryResponse)
        requires
            rows_view(self.rows@) == documents_result(self.docs@).rows,
        ensures
            r@ == documents_result(self@),
            r.wf(),
    {
        let r = QueryResponse { columns: vec![String::from_str("Document")], rows: self.rows };
        assert(r@.columns =~= seq!["Document"@]);
        assert forall|i: int| 0 <= i < r.rows@.len() implies (#[trigger] r.rows@[i])@.len()
            == r.columns@.len() by {
            assert(rows_view(r.rows@).len() == r.rows@.len());
            assert(rows_view(r.rows@)[i] == documents_result(self.docs@).rows[i]);
            assert(documents_result(self.docs@).rows[i] == seq![CellView::Document(self.docs@[i])]);
            assert(rows_view(r.rows@)[i].len() == r.rows@[i]@.len());
        }
        r
    }
}

/// What taking in one cursor answer leads to.
pub enum CursorStep {
    /// Keep reading.
    Next(DocumentCursor),
    /// The read is complete.
    Done(QueryResponse),
    /// The read failed.
    Failed(DbError),
}

/// The result of an administrative command: its reply under a `Result`
/// column, or null where the reply could not be rendered as JSON.
pub fn command_result(reply: Option<String>) -> (r: QueryResponse)
    ensures
        r@ == single_cell(
            "Result"@,
            match reply {
                Option::Some(t) => CellView::Document(t@),
                Option::None => CellView::Null,
            },
        ),
        r.wf(),
{
    let value = match reply {
        Option::Some(t) => CellValue::Document(t),
        Option::None => CellValue::Null,
    };
    single_cell_result("Result", value)
}

/// How a document-store query is run.
#[derive(Debug, Clone, PartialEq, Eq)]
pub enum DocumentRequest {
    /// A JSON object, run as an administrative command.
    Command(String),
    /// The name of a collection whose documents are read.
    Collection(String),
}

/// Classifies document-store query text: text that starts with `{` once
/// trimmed is a command, any other text names a collection.
pub fn document_request(query: &str) -> (r: DocumentRequest)
    ensures
        ({
            let t = trimmed(query@);
            if t.len() > 0 && t[0] == '{' {
                r matches DocumentRequest::Command(c) && c@ == t
            } else {
                r matches DocumentRequest::Collection(c) && c@ == t
            }
        }),
{
    let t = trim_text(query);
    let v = crate::text::chars_of(t.as_str());
    if v.len() > 0 && v[0] == '{' {
        DocumentRequest::Command(t)
    } else {
        DocumentRequest::Collection(t)
    }
}

/// A key-value command: its name and its arguments.
#[derive(Debug, Clone, PartialEq, Eq)]
pub struct KvCommand {
    pub name: String,
    pub args: Vec<String>,
}

/// Splits key-value query text on white space into a command name and its
/// arguments. Text without a word fails with `EmptyCommand`.
pub fn kv_command(query: &str) -> (r: Result<KvCommand, DbError>)
    ensures
        words(query@).len() == 0 <==> r == Err::<KvCommand, DbError>(DbError::EmptyCommand),
        words(query@).len() > 0 ==> r is Ok,
        r is Ok ==> r->Ok_0.name@ == words(query@)[0] && texts_view(r->Ok_0.args@) == words(
            query@,
        ).drop_first(),
{
    let mut parts = split_words(query);
    if parts.len() == 0 {
        return Err(DbError::EmptyCommand);
    }
    let ghost all = parts@;
    let name = parts.remove(0);
    assert(texts_view(parts@) =~= words(query@).drop_first()) by {
        assert(parts@ =~= all.drop_first());
    }
    Ok(KvCommand { name, args: parts })
}

/// The result of a key-value command: its reply under an `Output` column,
/// null where the command replied nothing.
pub fn kv_result(reply: Option<String>) -> (r: QueryResponse)
    ensures
        r@ == single_cell(
            "Output"@,
            match reply {
                Option::Some(t) => CellView::Text(t@),
                Option::None => CellView::Null,
            },
        ),
        r.wf(),
{
    let value = match reply {
        Option::Some(t) => CellValue::Text(t),
        Option::None => CellValue::Null,
    };
    single_cell_result("Output", value)
}

} // verus!
