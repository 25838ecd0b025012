//! The export pipeline: a normalised result encoded as one document in a
//! chosen format. Writing the document to its destination is the caller's.

use vstd::prelude::*;
use crate::error::DbError;
use crate::json::{joined, json_string, push_json_string, terminated};
use crate::text::{chars_of, int_text, push_char, push_int, push_sql_escaped, push_str, same_text, sql_escaped};
use crate::value::{CellValue, CellView, QueryResponse, ResultView, texts_view};

verus! {

/// A supported export format.
#[derive(Debug, Clone, Copy, PartialEq, Eq, Structural)]
pub enum ExportFormat {
    /// A pretty-printed array of objects.
    Json,
    /// One compact object per line.
    Jsonl,
    /// Comma-separated fields.
    Csv,
    /// Semicolon-separated fields.
    CsvSemicolon,
    /// Tab-separated fields.
    Tsv,
    /// One `INSERT` statement per row.
    Sql,
    /// `<data>` with one `<row>` element per row.
    Xml,
    /// One worksheet of typed cells.
    Excel,
}

/// The format that a tag names.
pub open spec fn format_of(tag: Seq<char>) -> Option<ExportFormat> {
    if tag == "json"@ {
        Option::Some(ExportFormat::Json)
    } else if tag == "jsonl"@ {
        Option::Some(ExportFormat::Jsonl)
    } else if tag == "csv"@ {
        Option::Some(ExportFormat::Csv)
    } else if tag == "csv_semicolon"@ {
        Option::Some(ExportFormat::CsvSemicolon)
    } else if tag == "tsv"@ {
        Option::Some(ExportFormat::Tsv)
    } else if tag == "sql"@ {
        Option::Some(ExportFormat::Sql)
    } else if tag == "xml"@ {
        Option::Some(ExportFormat::Xml)
    } else if tag == "excel"@ {
        Option::Some(ExportFormat::Excel)
    } else {
        Option::None
    }
}

/// The format that a tag names; `UnsupportedFormat` for any other tag.
pub fn export_format(tag: &str) -> (r: Result<ExportFormat, DbError>)
    ensures
        format_of(tag@) is Some ==> r == Ok::<ExportFormat, DbError>(format_of(tag@)->0),
        format_of(tag@) is None ==> r is Err && r->Err_0 is UnsupportedFormat
            && r->Err_0->UnsupportedFormat_0@ == tag@,
{
    if same_text(tag, "json") {
        Ok(ExportFormat::Json)
    } else if same_text(tag, "jsonl") {
        Ok(ExportFormat::Jsonl)
    } else if same_text(tag, "csv") {
        Ok(ExportFormat::Csv)
    } else if same_text(tag, "csv_semicolon") {
        Ok(ExportFormat::CsvSemicolon)
    } else if same_text(tag, "tsv") {
        Ok(ExportFormat::Tsv)
    } else if same_text(tag, "sql") {
        Ok(ExportFormat::Sql)
    } else if same_text(tag, "xml") {
        Ok(ExportFormat::Xml)
    } else if same_text(tag, "excel") {
        Ok(ExportFormat::Excel)
    } else {
        Err(DbError::UnsupportedFormat(String::from_str(tag)))
    }
}

/// A cell as plain text: empty for null.
pub open spec fn cell_text(c: CellView) -> Seq<char> {
    match c {
        CellView::Null => Seq::empty(),
        CellView::Bool(b) => if b {
            "true"@
        } else {
            "false"@
        },
        CellView::Int(i) => int_text(i as int),
        CellView::Float(t) => t,
        CellView::Text(t) => t,
        CellView::Document(t) => t,
    }
}

/// A cell as a JSON value.
pub open spec fn json_value(c: CellView) -> Seq<char> {
    match c {
        CellView::Null => "null"@,
        CellView::Text(t) => json_string(t),
        _ => cell_text(c),
    }
}

/// A cell as an SQL literal: `NULL`, a bare number or boolean, or quoted text.
pub open spec fn sql_literal(c: CellView) -> Seq<char> {
    match c {
        CellView::Null => "NULL"@,
        CellView::Text(t) => "'"@ + sql_escaped(t, false) + "'"@,
        CellView::Document(t) => "'"@ + sql_escaped(t, false) + "'"@,
        _ => cell_text(c),
    }
}

/// A character transformation used when writing a field.
#[derive(Debug, Clone, Copy, PartialEq, Eq, Structural)]
pub enum Escape {
    /// Double quotes doubled, inside a quoted delimited field.
    Quotes,
    /// `&`, `<` and `>` as entities, in XML text.
    Xml,
    /// Spaces as underscores, in an XML tag.
    Tag,
}

pub open spec fn escape_char(e: Escape, c: char) -> Seq<char> {
    match e {
        Escape::Quotes => if c == '"' {
            seq!['"', '"']
        } else {
            seq![c]
        },
        Escape::Xml => if c == '&' {
            "&amp;"@
        } else if c == '<' {
            "&lt;"@
        } else if c == '>' {
            "&gt;"@
        } else {
            seq![c]
        },
        Escape::Tag => if c == ' ' {
            seq!['_']
        } else {
            seq![c]
        },
    }
}

/// The text with each character transformed.
pub open spec fn escaped(e: Escape, s: Seq<char>) -> Seq<char>
    decreases s.len(),
{
    if s.len() == 0 {
        Seq::empty()
    } else {
        escaped(e, s.drop_last()) + escape_char(e, s.last())
    }
}

fn push_escaped(out: &mut String, e: Escape, s: &str)
    ensures
        final(out)@ == old(out)@ + escaped(e, s@),
{
    let v = chars_of(s);
    let ghost start = out@;
    let mut i: usize = 0;
    while i < v.len()
        invariant
            v@ == s@,
            i <= v.len(),
            out@ == start + escaped(e, s@.take(i as int)),
        decreases v.len() - i,
    {
        assert(s@.take(i + 1).drop_last() =~= s@.take(i as int));
        let c = v[i];
        match e {
            Escape::Quotes => {
                if c == '"' {
                    push_char(out, '"');
                }
                push_char(out, c);
            },
            Escape::Xml => {
                if c == '&' {
                    push_str(out, "&amp;");
                } else if c == '<' {
                    push_str(out, "&lt;");
                } else if c == '>' {
                    push_str(out, "&gt;");
                } else {
                    push_char(out, c);
                }
            },
            Escape::Tag => {
                if c == ' ' {
                    push_char(out, '_');
                } else {
                    push_char(out, c);
                }
            },
        }
        i = i + 1;
        assert(out@ =~= start + escaped(e, s@.take(i as int)));
    }
    assert(s@.take(v.len() as int) =~= s@);
}

/// Whether a delimited field must be quoted: it holds the delimiter, a
/// double quote or a line break.
pub open spec fn needs_quotes(s: Seq<char>, d: char) -> bool {
    exists|i: int| 0 <= i < s.len() && (s[i] == d || s[i] == '"' || s[i] == '\n' || s[i] == '\r')
}

/// A delimited field, quoted where it must be.
pub open spec fn csv_field(s: Seq<char>, d: char) -> Seq<char> {
    if needs_quotes(s, d) {
        seq!['"'] + escaped(Escape::Quotes, s) + seq!['"']
    } else {
        s
    }
}

fn push_csv_field(out: &mut String, s: &str, d: char)
    ensures
        final(out)@ == old(out)@ + csv_field(s@, d),
{
    let v = chars_of(s);
    let mut quote = false;
    let mut i: usize = 0;
    while i < v.len()
        invariant
            v@ == s@,
            i <= v.len(),
            quote == exists|j: int| 0 <= j < i && (s@[j] == d || s@[j] == '"' || s@[j] == '\n' || s@[j] == '\r'),
        decreases v.len() - i,
    {
        let c = v[i];
        if c == d || c == '"' || c == '\n' || c == '\r' {
            quote = true;
        }
        i = i + 1;
    }
    if quote {
        push_char(out, '"');
        push_escaped(out, Escape::Quotes, s);
        push_char(out, '"');
    } else {
        push_str(out, s);
    }
}

/// The field delimiter of a delimited format.
pub open spec fn delimiter(f: ExportFormat) -> char {
    if f == ExportFormat::CsvSemicolon {
        ';'
    } else if f == ExportFormat::Tsv {
        '\t'
    } else {
        ','
    }
}

pub open spec fn is_delimited(f: ExportFormat) -> bool {
    f == ExportFormat::Csv || f == ExportFormat::CsvSemicolon || f == ExportFormat::Tsv
}

/// How one cell of a row is written, given its column's name.
pub open spec fn cell_part(f: ExportFormat, col: Seq<char>, c: CellView) -> Seq<char> {
    match f {
        ExportFormat::Json => "    "@ + json_string(col) + ": "@ + json_value(c),
        ExportFormat::Jsonl => json_string(col) + ":"@ + json_value(c),
        ExportFormat::Sql => sql_literal(c),
        ExportFormat::Xml => if c is Null {
            Seq::empty()
        } else {
            "<"@ + escaped(Escape::Tag, col) + ">"@ + escaped(Escape::Xml, cell_text(c)) + "</"@
                + escaped(Escape::Tag, col) + ">"@
        },
        _ => csv_field(cell_text(c), delimiter(f)),
    }
}

/// What stands between two cells of a row.
pub open spec fn separator(f: ExportFormat) -> Seq<char> {
    match f {
        ExportFormat::Json => ",\n"@,
        ExportFormat::Jsonl => ","@,
        ExportFormat::Sql => ", "@,
        ExportFormat::Xml => ""@,
        _ => seq![delimiter(f)],
    }
}

/// The written cells of a row, one per column.
pub open spec fn row_parts(f: ExportFormat, cols: Seq<Seq<char>>, row: Seq<CellView>) -> Seq<Seq<char>> {
    Seq::new(cols.len(), |j: int| cell_part(f, cols[j], row[j]))
}

/// The line of a row.
pub open spec fn row_line(f: ExportFormat, cols: Seq<Seq<char>>, row: Seq<CellView>) -> Seq<char> {
    let body = joined(row_parts(f, cols, row), separator(f));
    match f {
        ExportFormat::Json => if cols.len() == 0 {
            "  {}"@
        } else {
            "  {\n"@ + body + "\n  }"@
        },
        ExportFormat::Jsonl => "{"@ + body + "}"@,
        ExportFormat::Sql => "INSERT INTO export_table ("@ + joined(cols, ", "@) + ") VALUES ("@ + body
            + ");"@,
        ExportFormat::Xml => "<row>"@ + body + "</row>"@,
        _ => body,
    }
}

/// The lines of all rows.
pub open spec fn row_lines(f: ExportFormat, v: ResultView) -> Seq<Seq<char>> {
    Seq::new(v.rows.len(), |i: int| row_line(f, v.columns, v.rows[i]))
}

/// The header line of a delimited format.
pub open spec fn header_line(f: ExportFormat, cols: Seq<Seq<char>>) -> Seq<char> {
    joined(Seq::new(cols.len(), |j: int| csv_field(cols[j], delimiter(f))), seq![delimiter(f)])
}

/// The document of a text format.
pub open spec fn document(f: ExportFormat, v: ResultView) -> Seq<char> {
    match f {
        ExportFormat::Json => if v.rows.len() == 0 {
            "[]"@
        } else {
            "[\n"@ + joined(row_lines(f, v), ",\n"@) + "\n]"@
        },
        ExportFormat::Xml => "<data>\n"@ + terminated(row_lines(f, v), "\n"@) + "</data>\n"@,
        ExportFormat::Jsonl | ExportFormat::Sql => terminated(row_lines(f, v), "\n"@),
        ExportFormat::Excel => Seq::empty(),
        _ => terminated(seq![header_line(f, v.columns)] + row_lines(f, v), "\n"@),
    }
}

/// Appends the parts with the separator between each two of them.
pub fn push_joined(out: &mut String, parts: &Vec<String>, sep: &str)
    ensures
        final(out)@ == old(out)@ + joined(texts_view(parts@), sep@),
{
    let ghost start = out@;
    let mut i: usize = 0;
    while i < parts.len()
        invariant
            i <= parts@.len(),
            out@ == start + joined(texts_view(parts@.take(i as int)), sep@),
        decreases parts@.len() - i,
    {
        let ghost prev = texts_view(parts@.take(i as int));
        assert(texts_view(parts@.take(i + 1)).drop_last() =~= prev);
        if i > 0 {
            push_str(out, sep);
        }
        push_str(out, parts[i].as_str());
        i = i + 1;
        assert(out@ =~= start + joined(texts_view(parts@.take(i as int)), sep@));
    }
    assert(parts@.take(parts@.len() as int) =~= parts@);
}

/// Appends the lines, each followed by the terminator.
pub fn push_terminated(out: &mut String, lines: &Vec<String>, term: &str)
    ensures
        final(out)@ == old(out)@ + terminated(texts_view(lines@), term@),
{
    let ghost start = out@;
    let mut i: usize = 0;
    while i < lines.len()
        invariant
            i <= lines@.len(),
            out@ == start + terminated(texts_view(lines@.take(i as int)), term@),
        decreases lines@.len() - i,
    {
        assert(texts_view(lines@.take(i + 1)).drop_last() =~= texts_view(lines@.take(i as int)));
        push_str(out, lines[i].as_str());
        push_str(out, term);
        i = i + 1;
        assert(out@ =~= start + terminated(texts_view(lines@.take(i as int)), term@));
    }
    assert(lines@.take(lines@.len() as int) =~= lines@);
}

/// A cell as plain text: empty for null.
pub fn cell_text_of(c: &CellValue) -> (r: String)
    ensures
        r@ == cell_text(c@),
{
    match c {
        CellValue::Null => String::new(),
        CellValue::Bool(b) => if *b {
            String::from_str("true")
        } else {
            String::from_str("false")
        },
        CellValue::Int(i) => {
            let mut r = String::new();
            push_int(&mut r, *i);
            r
        },
        CellValue::Float(t) => t.clone(),
        CellValue::Text(t) => t.clone(),
        CellValue::Document(t) => t.clone(),
    }
}

fn push_json_value(out: &mut String, c: &CellValue)
    ensures
        final(out)@ == old(out)@ + json_value(c@),
{
    match c {
        CellValue::Null => push_str(out, "null"),
        CellValue::Text(t) => push_json_string(out, t.as_str()),
        _ => {
            let t = cell_text_of(c);
            push_str(out, t.as_str());
        },
    }
}

fn push_sql_literal(out: &mut String, c: &CellValue)
    ensures
        final(out)@ == old(out)@ + sql_literal(c@),
{
    match c {
        CellValue::Null => push_str(out, "NULL"),
        CellValue::Text(t) => {
            let ghost start = out@;
            push_str(out, "'");
            push_sql_escaped(out, t.as_str(), false);
            push_str(out, "'");
            assert(out@ =~= start + sql_literal(c@));
        },
        CellValue::Document(t) => {
            let ghost start = out@;
            push_str(out, "'");
            push_sql_escaped(out, t.as_str(), false);
            push_str(out, "'");
            assert(out@ =~= start + sql_literal(c@));
        },
        _ => {
            let t = cell_text_of(c);
            push_str(out, t.as_str());
        },
    }
}

fn delimiter_of(f: ExportFormat) -> (d: char)
    ensures
        d == delimiter(f),
{
    if f == ExportFormat::CsvSemicolon {
        ';'
    } else if f == ExportFormat::Tsv {
        '\t'
    } else {
        ','
    }
}

fn cell_part_of(f: ExportFormat, col: &String, c: &CellValue) -> (r: String)
    ensures
        r@ == cell_part(f, col@, c@),
{
    let mut r = String::new();
    match f {
        ExportFormat::Json => {
            push_str(&mut r, "    ");
            push_json_string(&mut r, col.as_str());
            push_str(&mut r, ": ");
            push_json_value(&mut r, c);
            assert(r@ =~= cell_part(f, col@, c@));
        },
        ExportFormat::Jsonl => {
            push_json_string(&mut r, col.as_str());
            push_str(&mut r, ":");
            push_json_value(&mut r, c);
            assert(r@ =~= cell_part(f, col@, c@));
        },
        ExportFormat::Sql => {
            push_sql_literal(&mut r, c);
            assert(r@ =~= cell_part(f, col@, c@));
        },
        ExportFormat::Xml => {
            match c {
                CellValue::Null => {},
                _ => {
                    let t = cell_text_of(c);
                    push_str(&mut r, "<");
                    push_escaped(&mut r, Escape::Tag, col.as_str());
                    push_str(&mut r, ">");
                    push_escaped(&mut r, Escape::Xml, t.as_str());
                    push_str(&mut r, "</");
                    push_escaped(&mut r, Escape::Tag, col.as_str());
                    push_str(&mut r, ">");
                },
            }
            assert(r@ =~= cell_part(f, col@, c@));
        },
        _ => {
            let t = cell_text_of(c);
            push_csv_field(&mut r, t.as_str(), delimiter_of(f));
            assert(r@ =~= cell_part(f, col@, c@));
        },
    }
    r
}

fn row_parts_of(f: ExportFormat, cols: &Vec<String>, row: &Vec<CellValue>) -> (r: Vec<String>)
    requires
        row@.len() == cols@.len(),
    ensures
        texts_view(r@) == row_parts(f, texts_view(cols@), crate::value::row_view(row@)),
{
    let mut r: Vec<String> = Vec::new();
    let mut j: usize = 0;
    while j < cols.len()
        invariant
            row@.len() == cols@.len(),
            j <= cols@.len(),
            r@.len() == j,
            forall|k: int| 0 <= k < j ==> (#[trigger] r@[k])@ == cell_part(f, cols@[k]@, row@[k]@),
        decreases cols@.len() - j,
    {
        let part = cell_part_of(f, &cols[j], &row[j]);
        r.push(part);
        j = j + 1;
    }
    assert(texts_view(r@) =~= row_parts(f, texts_view(cols@), crate::value::row_view(row@)));
    r
}

fn row_line_of(f: ExportFormat, cols: &Vec<String>, row: &Vec<CellValue>) -> (r: String)
    requires
        row@.len() == cols@.len(),
    ensures
        r@ == row_line(f, texts_view(cols@), crate::value::row_view(row@)),
{
    let parts = row_parts_of(f, cols, row);
    let mut r = String::new();
    match f {
        ExportFormat::Json => {
            if cols.len() == 0 {
                push_str(&mut r, "  {}");
            } else {
                push_str(&mut r, "  {\n");
                push_joined(&mut r, &parts, ",\n");
                push_str(&mut r, "\n  }");
            }
        },
        ExportFormat::Jsonl => {
            push_str(&mut r, "{");
            push_joined(&mut r, &parts, ",");
            push_str(&mut r, "}");
        },
        ExportFormat::Sql => {
            push_str(&mut r, "INSERT INTO export_table (");
            push_joined(&mut r, cols, ", ");
            push_str(&mut r, ") VALUES (");
            push_joined(&mut r, &parts, ", ");
            push_str(&mut r, ");");
        },
        ExportFormat::Xml => {
            push_str(&mut r, "<row>");
            push_joined(&mut r, &parts, "");
            push_str(&mut r, "</row>");
        },
        _ => {
            let mut sep = String::new();
            push_char(&mut sep, delimiter_of(f));
            push_joined(&mut r, &parts, sep.as_str());
            assert(sep@ =~= seq![delimiter(f)]);
        },
    }
    assert(r@ =~= row_line(f, texts_view(cols@), crate::value::row_view(row@)));
    r
}

fn header_line_of(f: ExportFormat, cols: &Vec<String>) -> (r: String)
    ensures
        r@ == header_line(f, texts_view(cols@)),
{
    let d = delimiter_of(f);
    let mut fields: Vec<String> = Vec::new();
    let mut j: usize = 0;
    while j < cols.len()
        invariant
            j <= cols@.len(),
            fields@.len() == j,
            forall|k: int| 0 <= k < j ==> (#[trigger] fields@[k])@ == csv_field(cols@[k]@, d),
        decreases cols@.len() - j,
    {
        let mut x = String::new();
        push_csv_field(&mut x, cols[j].as_str(), d);
        fields.push(x);
        j = j + 1;
    }
    let mut sep = String::new();
    push_char(&mut sep, d);
    let mut r = String::new();
    push_joined(&mut r, &fields, sep.as_str());
    assert(texts_view(fields@) =~= Seq::new(texts_view(cols@).len(), |j: int| csv_field(texts_view(cols@)[j], delimiter(f))));
    assert(sep@ =~= seq![d]);
    r
}

/// Encodes a result in a text format; a worksheet has no text encoding.
pub fn render_text(f: ExportFormat, result: &QueryResponse) -> (r: String)
    requires
        result.wf(),
    ensures
        r@ == document(f, result@),
{
    let mut lines: Vec<String> = Vec::new();
    let mut i: usize = 0;
    while i < result.rows.len()
        invariant
            result.wf(),
            i <= result.rows@.len(),
            lines@.len() == i,
            forall|k: int| 0 <= k < i ==> (#[trigger] lines@[k])@ == row_line(f, texts_view(result.columns@), crate::value::row_view(result.rows@[k]@)),
        decreases result.rows@.len() - i,
    {
        let line = row_line_of(f, &result.columns, &result.rows[i]);
        lines.push(line);
        i = i + 1;
    }
    assert(texts_view(lines@) =~= row_lines(f, result@));
    let mut r = String::new();
    match f {
        ExportFormat::Json => {
            if lines.len() == 0 {
                push_str(&mut r, "[]");
            } else {
                push_str(&mut r, "[\n");
                push_joined(&mut r, &lines, ",\n");
                push_str(&mut r, "\n]");
            }
        },
        ExportFormat::Xml => {
            push_str(&mut r, "<data>\n");
            push_terminated(&mut r, &lines, "\n");
            push_str(&mut r, "</data>\n");
        },
        ExportFormat::Jsonl | ExportFormat::Sql => {
            push_terminated(&mut r, &lines, "\n");
        },
        ExportFormat::Excel => {},
        _ => {
            let header = header_line_of(f, &result.columns);
            let mut all: Vec<String> = vec![header];
            let mut k: usize = 0;
            let ghost h = all@;
            while k < lines.len()
                invariant
                    k <= lines@.len(),
                    all@ == h + lines@.take(k as int),
                decreases lines@.len() - k,
            {
                all.push(lines[k].clone());
                k = k + 1;
                assert(all@ =~= h + lines@.take(k as int));
            }
            assert(lines@.take(lines@.len() as int) =~= lines@);
            assert(texts_view(all@) =~= seq![header_line(f, result@.columns)] + row_lines(f, result@));
            push_terminated(&mut r, &all, "\n");
        },
    }
    assert(r@ =~= document(f, result@));
    r
}

/// A typed worksheet cell.
#[derive(Debug, Clone, PartialEq, Eq)]
pub enum SheetCell {
    Empty,
    Int(i64),
    /// A floating-point number, as its decimal text.
    Float(String),
    Bool(bool),
    Text(String),
}

/// The meaning of a worksheet cell.
pub enum SheetView {
    Empty,
    Int(i64),
    Float(Seq<char>),
    Bool(bool),
    Text(Seq<char>),
}

impl View for SheetCell {
    type V = SheetView;

    open spec fn view(&self) -> SheetView {
        match self {
            SheetCell::Empty => SheetView::Empty,
            SheetCell::Int(i) => SheetView::Int(*i),
            SheetCell::Float(t) => SheetView::Float(t@),
            SheetCell::Bool(b) => SheetView::Bool(*b),
            SheetCell::Text(t) => SheetView::Text(t@),
        }
    }
}

/// The worksheet cell of a value: numbers and booleans keep their type,
/// null is empty and everything else is text.
pub open spec fn sheet_cell(c: CellView) -> SheetView {
    match c {
        CellView::Null => SheetView::Empty,
        CellView::Bool(b) => SheetView::Bool(b),
        CellView::Int(i) => SheetView::Int(i),
        CellView::Float(t) => SheetView::Float(t),
        CellView::Text(t) => SheetView::Text(t),
        CellView::Document(t) => SheetView::Text(t),
    }
}

/// The meaning of a worksheet.
pub open spec fn sheet_view(rows: Seq<Vec<SheetCell>>) -> Seq<Seq<SheetView>> {
    rows.map_values(|r: Vec<SheetCell>| r@.map_values(|c: SheetCell| c@))
}

/// The worksheet of a result: a header row of column names, then one row
/// of typed cells per result row.
pub open spec fn worksheet(v: ResultView) -> Seq<Seq<SheetView>> {
    seq![v.columns.map_values(|n: Seq<char>| SheetView::Text(n))] + v.rows.map_values(
        |r: Seq<CellView>| r.map_values(|c: CellView| sheet_cell(c)),
    )
}

fn sheet_cell_of(c: &CellValue) -> (r: SheetCell)
    ensures
        r@ == sheet_cell(c@),
{
    match c {
        CellValue::Null => SheetCell::Empty,
        CellValue::Bool(b) => SheetCell::Bool(*b),
        CellValue::Int(i) => SheetCell::Int(*i),
        CellValue::Float(t) => SheetCell::Float(t.clone()),
        CellValue::Text(t) => SheetCell::Text(t.clone()),
        CellValue::Document(t) => SheetCell::Text(t.clone()),
    }
}

/// The worksheet of a result.
pub fn render_sheet(result: &QueryResponse) -> (r: Vec<Vec<SheetCell>>)
    ensures
        sheet_view(r@) == worksheet(result@),
{
    let mut header: Vec<SheetCell> = Vec::new();
    let mut j: usize = 0;
    while j < result.columns.len()
        invariant
            j <= result.columns@.len(),
            header@.len() == j,
            forall|k: int| 0 <= k < j ==> (#[trigger] header@[k])@ == SheetView::Text(result.columns@[k]@),
        decreases result.columns@.len() - j,
    {
        header.push(SheetCell::Text(result.columns[j].clone()));
        j = j + 1;
    }
    let mut sheet: Vec<Vec<SheetCell>> = vec![header];
    let mut i: usize = 0;
    while i < result.rows.len()
        invariant
            i <= result.rows@.len(),
            sheet@.len() == i + 1,
            sheet@[0] == header,
            forall|k: int| 1 <= k <= i ==> (#[trigger] sheet@[k])@.map_values(|c: SheetCell| c@)
                == result.rows@[k - 1]@.map_values(|c: CellValue| sheet_cell(c@)),
        decreases result.rows@.len() - i,
    {
        let row = &result.rows[i];
        let mut cells: Vec<SheetCell> = Vec::new();
        let mut j: usize = 0;
        while j < row.len()
            invariant
                j <= row@.len(),
                cells@.len() == j,
                forall|k: int| 0 <= k < j ==> (#[trigger] cells@[k])@ == sheet_cell(row@[k]@),
            decreases row@.len() - j,
        {
            cells.push(sheet_cell_of(&row[j]));
            j = j + 1;
        }
        assert(cells@.map_values(|c: SheetCell| c@) =~= row@.map_values(|c: CellValue| sheet_cell(c@)));
        sheet.push(cells);
        i = i + 1;
    }
    assert(sheet_view(sheet@) =~= worksheet(result@)) by {
        assert(sheet_view(sheet@)[0] =~= result@.columns.map_values(|n: Seq<char>| SheetView::Text(n)));
        assert forall|k: int| 1 <= k < sheet@.len() implies #[trigger] sheet_view(sheet@)[k] =~= worksheet(result@)[k] by {
            assert(sheet@[k]@.map_values(|c: SheetCell| c@) == result.rows@[k - 1]@.map_values(|c: CellValue| sheet_cell(c@)));
            assert(worksheet(result@)[k] == crate::value::row_view(result.rows@[k - 1]@).map_values(|c: CellView| sheet_cell(c)));
        }
    }
    sheet
}

/// An encoded export: the text of a text format, or a worksheet.
#[derive(Debug, Clone, PartialEq, Eq)]
pub enum ExportDocument {
    Text(String),
    Sheet(Vec<Vec<SheetCell>>),
}

/// Encodes a result in the format that the tag names; `UnsupportedFormat`
/// for an unknown tag.
pub fn export_document(result: &QueryResponse, format: &str) -> (r: Result<ExportDocument, DbError>)
    requires
        result.wf(),
    ensures
        format_of(format@) is None ==> r is Err && r->Err_0 is UnsupportedFormat
            && r->Err_0->UnsupportedFormat_0@ == format@,
        format_of(format@) == Option::Some(ExportFormat::Excel) ==> r is Ok && r->Ok_0 is Sheet
            && sheet_view(r->Ok_0->Sheet_0@) == worksheet(result@),
        format_of(format@) is Some && format_of(format@) != Option::Some(ExportFormat::Excel) ==> r is Ok
            && r->Ok_0 is Text && r->Ok_0->Text_0@ == document(format_of(format@)->0, result@),
{
    let f = export_format(format)?;
    if f == ExportFormat::Excel {
        Ok(ExportDocument::Sheet(render_sheet(result)))
    } else {
        Ok(ExportDocument::Text(render_text(f, result)))
    }
}

} // verus!
