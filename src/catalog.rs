//! The catalog service: how each engine lists its schemas, databases,
//! tables, views and functions, and how listed names are qualified.

use vstd::prelude::*;
use crate::descriptor::Engine;
use crate::text::{push_sql_escaped, push_str, same_text, sql_escaped};

verus! {

/// What a catalog request lists.
#[derive(Debug, Clone, Copy, PartialEq, Eq, Structural)]
pub enum CatalogKind {
    Schemas,
    Databases,
    Tables,
    Views,
    Functions,
}

/// How a catalog request is answered.
#[derive(Debug, Clone, PartialEq, Eq)]
pub enum CatalogPlan {
    /// Run the metadata query. Where `qualified`, each row holds a schema
    /// and a name; otherwise it holds a name.
    Sql { query: String, qualified: bool },
    /// List the document store's databases.
    ListDatabases,
    /// List the collections of a database; absent means the connection's
    /// default database.
    ListCollections(Option<String>),
    /// The answer is fixed and needs no request.
    Fixed(Vec<String>),
}

/// The meaning of a catalog plan.
pub enum PlanView {
    Sql(Seq<char>, bool),
    ListDatabases,
    ListCollections(Option<Seq<char>>),
    Fixed(Seq<Seq<char>>),
}

impl View for CatalogPlan {
    type V = PlanView;

    open spec fn view(&self) -> PlanView {
        match self {
            CatalogPlan::Sql { query, qualified } => PlanView::Sql(query@, *qualified),
            CatalogPlan::ListDatabases => PlanView::ListDatabases,
            CatalogPlan::ListCollections(d) => PlanView::ListCollections(crate::descriptor::opt_text(*d)),
            CatalogPlan::Fixed(names) => PlanView::Fixed(crate::value::texts_view(names@)),
        }
    }
}

/// The filter that asks for every non-system schema, with qualified names.
pub open spec fn is_wildcard(filter: Option<Seq<char>>) -> bool {
    filter == Option::Some("*"@)
}

pub open spec fn distinct_spec(k: CatalogKind) -> Seq<char> {
    if k == CatalogKind::Tables {
        ""@
    } else {
        "DISTINCT "@
    }
}

pub open spec fn schema_column(k: CatalogKind) -> Seq<char> {
    if k == CatalogKind::Functions {
        "routine_schema"@
    } else {
        "table_schema"@
    }
}

pub open spec fn name_column(k: CatalogKind) -> Seq<char> {
    if k == CatalogKind::Functions {
        "routine_name"@
    } else {
        "table_name"@
    }
}

pub open spec fn source_table(k: CatalogKind) -> Seq<char> {
    if k == CatalogKind::Functions {
        "information_schema.routines"@
    } else if k == CatalogKind::Views {
        "information_schema.views"@
    } else {
        "information_schema.tables"@
    }
}

/// The condition that restricts the listing to its kind of object.
pub open spec fn kind_condition(e: Engine, k: CatalogKind) -> Seq<char> {
    if k == CatalogKind::Functions {
        "routine_type = 'FUNCTION' AND "@
    } else if k == CatalogKind::Tables && e == Engine::Mssql {
        "table_type = 'BASE TABLE' AND "@
    } else {
        ""@
    }
}

/// The engine's internal schemas, which the wildcard leaves out.
pub open spec fn system_schemas(e: Engine) -> Seq<char> {
    if e == Engine::Mssql {
        "('sys', 'INFORMATION_SCHEMA')"@
    } else if e == Engine::Mysql {
        "('information_schema', 'mysql', 'performance_schema', 'sys')"@
    } else {
        "('information_schema', 'pg_catalog')"@
    }
}

/// The condition on the schema: every non-system schema under the wildcard,
/// the connection's default schema without a filter, else the named one,
/// compared as a literal (MySQL also reads backslashes as escapes, so there
/// they are doubled too).
pub open spec fn schema_condition(e: Engine, k: CatalogKind, filter: Option<Seq<char>>) -> Seq<char> {
    match filter {
        Option::Some(s) => if s == "*"@ {
            schema_column(k) + " NOT IN "@ + system_schemas(e)
        } else {
            schema_column(k) + " = '"@ + sql_escaped(s, e == Engine::Mysql) + "'"@
        },
        Option::None => if e == Engine::Mysql {
            schema_column(k) + " = DATABASE()"@
        } else if e == Engine::Mssql {
            schema_column(k) + " = 'dbo'"@
        } else {
            schema_column(k) + " = 'public'"@
        },
    }
}

/// The metadata query that lists tables, views or functions.
pub open spec fn listing_sql(e: Engine, k: CatalogKind, filter: Option<Seq<char>>) -> Seq<char> {
    "SELECT "@ + distinct_spec(k) + (if is_wildcard(filter) {
        schema_column(k) + ", "@ + name_column(k)
    } else {
        name_column(k)
    }) + " FROM "@ + source_table(k) + " WHERE "@ + kind_condition(e, k) + schema_condition(
        e,
        k,
        filter,
    )
}

/// The metadata query that lists schemas or databases of a relational engine.
pub open spec fn namespace_sql(e: Engine, k: CatalogKind) -> Seq<char> {
    if e == Engine::Mssql {
        if k == CatalogKind::Schemas {
            "SELECT name FROM sys.schemas"@
        } else {
            "SELECT name FROM sys.databases"@
        }
    } else if e == Engine::Mysql {
        "SHOW DATABASES"@
    } else if k == CatalogKind::Schemas {
        "SELECT schema_name FROM information_schema.schemata"@
    } else {
        "SELECT datname FROM pg_database WHERE NOT datistemplate"@
    }
}

/// The placeholder that the key-value engine lists as its table.
pub open spec fn key_placeholder() -> Seq<char> {
    "Keys (Use 'SCAN' in query)"@
}

/// How a catalog request is answered, per engine.
pub open spec fn plan_spec(e: Engine, k: CatalogKind, filter: Option<Seq<char>>) -> PlanView {
    match e {
        Engine::Mongo => match k {
            CatalogKind::Schemas | CatalogKind::Databases => PlanView::ListDatabases,
            CatalogKind::Tables => PlanView::ListCollections(filter),
            _ => PlanView::Fixed(Seq::empty()),
        },
        Engine::Redis => match k {
            CatalogKind::Schemas | CatalogKind::Databases => PlanView::Fixed(seq!["0"@]),
            CatalogKind::Tables => PlanView::Fixed(seq![key_placeholder()]),
            _ => PlanView::Fixed(Seq::empty()),
        },
        _ => match k {
            CatalogKind::Schemas | CatalogKind::Databases => PlanView::Sql(namespace_sql(e, k), false),
            _ => PlanView::Sql(listing_sql(e, k, filter), is_wildcard(filter)),
        },
    }
}

fn column_names(k: CatalogKind) -> (r: (&'static str, &'static str))
    ensures
        r.0@ == schema_column(k),
        r.1@ == name_column(k),
{
    if k == CatalogKind::Functions {
        ("routine_schema", "routine_name")
    } else {
        ("table_schema", "table_name")
    }
}

fn push_head(out: &mut String, k: CatalogKind, wild: bool)
    ensures
        final(out)@ == old(out)@ + "SELECT "@ + distinct_spec(k) + (if wild {
            schema_column(k) + ", "@ + name_column(k)
        } else {
            name_column(k)
        }) + " FROM "@ + source_table(k) + " WHERE "@,
{
    let cols = column_names(k);
    push_str(out, "SELECT ");
    if k != CatalogKind::Tables {
        push_str(out, "DISTINCT ");
    } else {
        push_str(out, "");
    }
    if wild {
        push_str(out, cols.0);
        push_str(out, ", ");
    }
    push_str(out, cols.1);
    push_str(out, " FROM ");
    if k == CatalogKind::Functions {
        push_str(out, "information_schema.routines");
    } else if k == CatalogKind::Views {
        push_str(out, "information_schema.views");
    } else {
        push_str(out, "information_schema.tables");
    }
    push_str(out, " WHERE ");
}

fn push_kind_condition(out: &mut String, e: Engine, k: CatalogKind)
    ensures
        final(out)@ == old(out)@ + kind_condition(e, k),
{
    if k == CatalogKind::Functions {
        push_str(out, "routine_type = 'FUNCTION' AND ");
    } else if k == CatalogKind::Tables && e == Engine::Mssql {
        push_str(out, "table_type = 'BASE TABLE' AND ");
    } else {
        push_str(out, "");
    }
}

fn push_system_schemas(out: &mut String, e: Engine)
    ensures
        final(out)@ == old(out)@ + system_schemas(e),
{
    if e == Engine::Mssql {
        push_str(out, "('sys', 'INFORMATION_SCHEMA')");
    } else if e == Engine::Mysql {
        push_str(out, "('information_schema', 'mysql', 'performance_schema', 'sys')");
    } else {
        push_str(out, "('information_schema', 'pg_catalog')");
    }
}

fn push_schema_condition(out: &mut String, e: Engine, k: CatalogKind, filter: &Option<String>, wild: bool)
    requires
        wild == is_wildcard(crate::descriptor::opt_text(*filter)),
    ensures
        final(out)@ == old(out)@ + schema_condition(e, k, crate::descriptor::opt_text(*filter)),
{
    let cols = column_names(k);
    push_str(out, cols.0);
    match filter {
        Option::Some(s) => {
            if wild {
                push_str(out, " NOT IN ");
                push_system_schemas(out, e);
            } else {
                push_str(out, " = '");
                push_sql_escaped(out, s.as_str(), e == Engine::Mysql);
                push_str(out, "'");
            }
        },
        Option::None => {
            if e == Engine::Mysql {
                push_str(out, " = DATABASE()");
            } else if e == Engine::Mssql {
                push_str(out, " = 'dbo'");
            } else {
                push_str(out, " = 'public'");
            }
        },
    }
}

fn push_listing_sql(out: &mut String, e: Engine, k: CatalogKind, filter: &Option<String>, wild: bool)
    requires
        wild == is_wildcard(crate::descriptor::opt_text(*filter)),
    ensures
        final(out)@ == old(out)@ + listing_sql(e, k, crate::descriptor::opt_text(*filter)),
{
    let ghost start = out@;
    push_head(out, k, wild);
    push_kind_condition(out, e, k);
    push_schema_condition(out, e, k, filter, wild);
    assert(out@ =~= start + listing_sql(e, k, crate::descriptor::opt_text(*filter)));
}

fn single_name(name: &str) -> (r: Vec<String>)
    ensures
        crate::value::texts_view(r@) == seq![name@],
{
    let r = vec![String::from_str(name)];
    assert(crate::value::texts_view(r@) =~= seq![name@]);
    r
}

fn no_names() -> (r: Vec<String>)
    ensures
        crate::value::texts_view(r@) == Seq::<Seq<char>>::empty(),
{
    let r: Vec<String> = Vec::new();
    assert(crate::value::texts_view(r@) =~= Seq::<Seq<char>>::empty());
    r
}

/// Whether the filter is the wildcard `*`.
pub fn wildcard_filter(filter: &Option<String>) -> (r: bool)
    ensures
        r == is_wildcard(crate::descriptor::opt_text(*filter)),
{
    match filter {
        Option::Some(s) => same_text(s.as_str(), "*"),
        Option::None => false,
    }
}

/// Plans a catalog request. Relational engines answer with a metadata
/// query; the document store lists its databases or a database's
/// collections; the key-value engine reports its default database and a
/// placeholder table. Engines without views or functions list none.
pub fn catalog_plan(e: Engine, k: CatalogKind, filter: Option<String>) -> (r: CatalogPlan)
    ensures
        r@ == plan_spec(e, k, crate::descriptor::opt_text(filter)),
{
    match e {
        Engine::Mongo => match k {
            CatalogKind::Schemas | CatalogKind::Databases => CatalogPlan::ListDatabases,
            CatalogKind::Tables => CatalogPlan::ListCollections(filter),
            _ => CatalogPlan::Fixed(no_names()),
        },
        Engine::Redis => match k {
            CatalogKind::Schemas | CatalogKind::Databases => CatalogPlan::Fixed(single_name("0")),
            CatalogKind::Tables => CatalogPlan::Fixed(single_name("Keys (Use 'SCAN' in query)")),
            _ => CatalogPlan::Fixed(no_names()),
        },
        _ => match k {
            CatalogKind::Schemas | CatalogKind::Databases => {
                let query = if e == Engine::Mssql {
                    if k == CatalogKind::Schemas {
                        String::from_str("SELECT name FROM sys.schemas")
                    } else {
                        String::from_str("SELECT name FROM sys.databases")
                    }
                } else if e == Engine::Mysql {
                    String::from_str("SHOW DATABASES")
                } else if k == CatalogKind::Schemas {
                    String::from_str("SELECT schema_name FROM information_schema.schemata")
                } else {
                    String::from_str("SELECT datname FROM pg_database WHERE NOT datistemplate")
                };
                CatalogPlan::Sql { query, qualified: false }
            },
            _ => {
                let wild = wildcard_filter(&filter);
                let mut query = String::new();
                push_listing_sql(&mut query, e, k, &filter, wild);
                assert(query@ =~= listing_sql(e, k, crate::descriptor::opt_text(filter)));
                CatalogPlan::Sql { query, qualified: wild }
            },
        },
    }
}

/// One row of a metadata answer: the schema, where the listing is
/// qualified, and the object's name. Either is absent where the engine gave
/// no text for it.
#[derive(Debug, Clone, PartialEq, Eq)]
pub struct CatalogRow {
    pub schema: Option<String>,
    pub name: Option<String>,
}

/// Schema and name of a metadata row.
pub type RowView = (Option<Seq<char>>, Option<Seq<char>>);

impl View for CatalogRow {
    type V = RowView;

    open spec fn view(&self) -> RowView {
        (crate::descriptor::opt_text(self.schema), crate::descriptor::opt_text(self.name))
    }
}

/// The name that a metadata row lists: `schema.object` where the listing is
/// qualified, the bare object name otherwise; none where a part is absent.
pub open spec fn row_entry(qualified: bool, row: RowView) -> Option<Seq<char>> {
    if qualified {
        match (row.0, row.1) {
            (Option::Some(s), Option::Some(n)) => Option::Some(s + seq!['.'] + n),
            _ => Option::None,
        }
    } else {
        row.1
    }
}

/// The names that metadata rows list, in order.
pub open spec fn listed_names(qualified: bool, rows: Seq<RowView>) -> Seq<Seq<char>>
    decreases rows.len(),
{
    if rows.len() == 0 {
        Seq::empty()
    } else {
        let before = listed_names(qualified, rows.drop_last());
        match row_entry(qualified, rows.last()) {
            Option::Some(x) => before.push(x),
            Option::None => before,
        }
    }
}

/// The meaning of a sequence of metadata rows.
pub open spec fn rows_of(rows: Seq<CatalogRow>) -> Seq<RowView> {
    rows.map_values(|r: CatalogRow| r@)
}

/// The names that the rows of a metadata answer list, qualified as
/// `schema.object` where the listing asked for every schema.
pub fn catalog_names(qualified: bool, rows: Vec<CatalogRow>) -> (r: Vec<String>)
    ensures
        crate::value::texts_view(r@) == listed_names(qualified, rows_of(rows@)),
{
    let mut out: Vec<String> = Vec::new();
    let mut i: usize = 0;
    while i < rows.len()
        invariant
            i <= rows@.len(),
            crate::value::texts_view(out@) == listed_names(qualified, rows_of(rows@.take(i as int))),
        decreases rows@.len() - i,
    {
        let ghost before = out@;
        let ghost rv = rows_of(rows@.take(i + 1));
        assert(rv.drop_last() =~= rows_of(rows@.take(i as int)));
        assert(rv.last() == rows@[i as int]@);
        assert(listed_names(qualified, rv) == match row_entry(qualified, rv.last()) {
            Option::Some(x) => listed_names(qualified, rv.drop_last()).push(x),
            Option::None => listed_names(qualified, rv.drop_last()),
        });
        let row = &rows[i];
        if qualified {
            match (&row.schema, &row.name) {
                (Option::Some(sc), Option::Some(n)) => {
                    let mut x = sc.clone();
                    crate::text::push_char(&mut x, '.');
                    push_str(&mut x, n.as_str());
                    out.push(x);
                    assert(crate::value::texts_view(out@) =~= crate::value::texts_view(before).push(x@));
                    assert(x@ == sc@ + seq!['.'] + n@);
                    assert(row_entry(qualified, rv.last()) == Option::Some(x@));
                },
                _ => {
                    assert(row_entry(qualified, rv.last()) is None);
                },
            }
        } else {
            match &row.name {
                Option::Some(n) => {
                    out.push(n.clone());
                    assert(crate::value::texts_view(out@) =~= crate::value::texts_view(before).push(n@));
                },
                Option::None => {},
            }
        }
        i = i + 1;
    }
    assert(rows@.take(rows@.len() as int) =~= rows@);
    out
}

/// How many `.` separators a name holds.
pub open spec fn separators(s: Seq<char>) -> nat
    decreases s.len(),
{
    if s.len() == 0 {
        0
    } else {
        separators(s.drop_last()) + if s.last() == '.' {
            1nat
        } else {
            0nat
        }
    }
}

proof fn lemma_separators_concat(a: Seq<char>, b: Seq<char>)
    ensures
        separators(a + b) == separators(a) + separators(b),
    decreases b.len(),
{
    if b.len() > 0 {
        assert((a + b).drop_last() =~= a + b.drop_last());
        lemma_separators_concat(a, b.drop_last());
    } else {
        assert(a + b =~= a);
    }
}

/// Where no schema or object name holds a `.`, every name of a wildcard
/// listing holds exactly one separator.
pub proof fn lemma_wildcard_names_have_one_separator(rows: Seq<RowView>)
    requires
        forall|i: int| 0 <= i < rows.len() && (#[trigger] rows[i]).0 is Some ==> separators(rows[i].0->0) == 0,
        forall|i: int| 0 <= i < rows.len() && (#[trigger] rows[i]).1 is Some ==> separators(rows[i].1->0) == 0,
    ensures
        forall|j: int| 0 <= j < listed_names(true, rows).len() ==> separators(#[trigger] listed_names(true, rows)[j]) == 1,
    decreases rows.len(),
{
    if rows.len() > 0 {
        let r = rows.drop_last();
        assert forall|i: int| 0 <= i < r.len() implies (#[trigger] r[i]) == rows[i] by {}
        lemma_wildcard_names_have_one_separator(r);
        let last = rows.last();
        assert(last == rows[rows.len() - 1]);
        let prev = listed_names(true, r);
        match (last.0, last.1) {
            (Option::Some(s), Option::Some(n)) => {
                lemma_separators_concat(s, seq!['.']);
                lemma_separators_concat(s + seq!['.'], n);
                assert(separators(seq!['.']) == 1) by {
                    let d = seq!['.'];
                    assert(d.drop_last() =~= Seq::<char>::empty());
                    assert(d.last() == '.');
                    assert(separators(d.drop_last()) == 0);
                }
                assert(listed_names(true, rows) == prev.push(s + seq!['.'] + n));
                assert forall|j: int| 0 <= j < listed_names(true, rows).len() implies separators(
                    #[trigger] listed_names(true, rows)[j],
                ) == 1 by {
                    if j < prev.len() {
                        assert(listed_names(true, rows)[j] == prev[j]);
                    }
                }
            },
            _ => {
                assert(listed_names(true, rows) == prev);
            },
        }
    }
}

/// Where no object name holds a `.`, every name of a listing for one
/// schema is bare, without a separator.
pub proof fn lemma_schema_names_are_bare(rows: Seq<RowView>)
    requires
        forall|i: int| 0 <= i < rows.len() && (#[trigger] rows[i]).1 is Some ==> separators(rows[i].1->0) == 0,
    ensures
        forall|j: int| 0 <= j < listed_names(false, rows).len() ==> separators(#[trigger] listed_names(false, rows)[j]) == 0,
    decreases rows.len(),
{
    if rows.len() > 0 {
        let r = rows.drop_last();
        assert forall|i: int| 0 <= i < r.len() implies (#[trigger] r[i]) == rows[i] by {}
        lemma_schema_names_are_bare(r);
        assert(rows.last() == rows[rows.len() - 1]);
        let prev = listed_names(false, r);
        match rows.last().1 {
            Option::Some(n) => {
                assert(listed_names(false, rows) == prev.push(n));
                assert forall|j: int| 0 <= j < listed_names(false, rows).len() implies separators(
                    #[trigger] listed_names(false, rows)[j],
                ) == 0 by {
                    if j < prev.len() {
                        assert(listed_names(false, rows)[j] == prev[j]);
                    }
                }
            },
            Option::None => {
                assert(listed_names(false, rows) == prev);
            },
        }
    }
}

/// The database whose collections a document-store listing reads.
pub open spec fn collection_database_spec(requested: Option<Seq<char>>, default: Option<Seq<char>>) -> Seq<char> {
    match requested {
        Option::Some(d) => d,
        Option::None => match default {
            Option::Some(d) => d,
            Option::None => "test"@,
        },
    }
}

/// The database whose collections are listed: the requested one, else the
/// connection's default database, else `test`.
pub fn collection_database(requested: Option<String>, default: Option<String>) -> (r: String)
    ensures
        r@ == collection_database_spec(crate::descriptor::opt_text(requested), crate::descriptor::opt_text(default)),
{
    match requested {
        Option::Some(d) => d,
        Option::None => match default {
            Option::Some(d) => d,
            Option::None => String::from_str("test"),
        },
    }
}

} // verus!
