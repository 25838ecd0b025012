use polydb::catalog::{catalog_names, catalog_plan, collection_database, CatalogKind, CatalogPlan, CatalogRow};
use polydb::descriptor::Engine;

fn sql_of(plan: CatalogPlan) -> (String, bool) {
    match plan {
        CatalogPlan::Sql { query, qualified } => (query, qualified),
        other => panic!("expected a metadata query, got {:?}", other),
    }
}

#[test]
fn wildcard_tables_are_qualified() {
    let (q, qualified) = sql_of(catalog_plan(Engine::Postgres, CatalogKind::Tables, Some("*".to_string())));
    assert!(qualified);
    assert_eq!(
        q,
        "SELECT table_schema, table_name FROM information_schema.tables WHERE table_schema NOT IN ('information_schema', 'pg_catalog')"
    );
    let rows = vec![
        CatalogRow { schema: Some("public".to_string()), name: Some("users".to_string()) },
        CatalogRow { schema: Some("audit".to_string()), name: Some("log".to_string()) },
    ];
    let names = catalog_names(qualified, rows);
    assert_eq!(names, vec!["public.users".to_string(), "audit.log".to_string()]);
    assert!(names.iter().all(|n| n.matches('.').count() == 1));
}

#[test]
fn concrete_schema_tables_are_bare() {
    let (q, qualified) = sql_of(catalog_plan(Engine::Postgres, CatalogKind::Tables, Some("sales".to_string())));
    assert!(!qualified);
    assert_eq!(q, "SELECT table_name FROM information_schema.tables WHERE table_schema = 'sales'");
    let rows = vec![
        CatalogRow { schema: None, name: Some("orders".to_string()) },
        CatalogRow { schema: None, name: None },
        CatalogRow { schema: None, name: Some("items".to_string()) },
    ];
    let names = catalog_names(qualified, rows);
    assert_eq!(names, vec!["orders".to_string(), "items".to_string()]);
    assert!(names.iter().all(|n| !n.contains('.')));
}

#[test]
fn default_schema_filters() {
    assert_eq!(
        sql_of(catalog_plan(Engine::Mssql, CatalogKind::Tables, None)).0,
        "SELECT table_name FROM information_schema.tables WHERE table_type = 'BASE TABLE' AND table_schema = 'dbo'"
    );
    assert_eq!(
        sql_of(catalog_plan(Engine::Mysql, CatalogKind::Views, None)).0,
        "SELECT DISTINCT table_name FROM information_schema.views WHERE table_schema = DATABASE()"
    );
    assert_eq!(
        sql_of(catalog_plan(Engine::Postgres, CatalogKind::Functions, None)).0,
        "SELECT DISTINCT routine_name FROM information_schema.routines WHERE routine_type = 'FUNCTION' AND routine_schema = 'public'"
    );
}

#[test]
fn wildcard_excludes_system_schemas_per_engine() {
    assert_eq!(
        sql_of(catalog_plan(Engine::Mssql, CatalogKind::Functions, Some("*".to_string()))).0,
        "SELECT DISTINCT routine_schema, routine_name FROM information_schema.routines WHERE routine_type = 'FUNCTION' AND routine_schema NOT IN ('sys', 'INFORMATION_SCHEMA')"
    );
    assert_eq!(
        sql_of(catalog_plan(Engine::Mysql, CatalogKind::Tables, Some("*".to_string()))).0,
        "SELECT table_schema, table_name FROM information_schema.tables WHERE table_schema NOT IN ('information_schema', 'mysql', 'performance_schema', 'sys')"
    );
}

#[test]
fn schema_names_are_quoted_safely() {
    assert_eq!(
        sql_of(catalog_plan(Engine::Mssql, CatalogKind::Views, Some("o'brien".to_string()))).0,
        "SELECT DISTINCT table_name FROM information_schema.views WHERE table_schema = 'o''brien'"
    );
}

#[test]
fn namespace_queries() {
    assert_eq!(sql_of(catalog_plan(Engine::Mssql, CatalogKind::Schemas, None)), ("SELECT name FROM sys.schemas".to_string(), false));
    assert_eq!(sql_of(catalog_plan(Engine::Mysql, CatalogKind::Schemas, None)).0, "SHOW DATABASES");
    assert_eq!(
        sql_of(catalog_plan(Engine::Postgres, CatalogKind::Schemas, None)).0,
        "SELECT schema_name FROM information_schema.schemata"
    );
    assert_eq!(
        sql_of(catalog_plan(Engine::Postgres, CatalogKind::Databases, None)).0,
        "SELECT datname FROM pg_database WHERE NOT datistemplate"
    );
}

#[test]
fn document_and_key_value_catalogs() {
    assert_eq!(catalog_plan(Engine::Mongo, CatalogKind::Databases, None), CatalogPlan::ListDatabases);
    assert_eq!(
        catalog_plan(Engine::Mongo, CatalogKind::Tables, Some("app".to_string())),
        CatalogPlan::ListCollections(Some("app".to_string()))
    );
    assert_eq!(catalog_plan(Engine::Mongo, CatalogKind::Functions, None), CatalogPlan::Fixed(vec![]));
    assert_eq!(catalog_plan(Engine::Redis, CatalogKind::Schemas, None), CatalogPlan::Fixed(vec!["0".to_string()]));
    assert_eq!(
        catalog_plan(Engine::Redis, CatalogKind::Tables, None),
        CatalogPlan::Fixed(vec!["Keys (Use 'SCAN' in query)".to_string()])
    );
    assert_eq!(catalog_plan(Engine::Redis, CatalogKind::Views, None), CatalogPlan::Fixed(vec![]));
}

#[test]
fn mysql_schema_names_double_backslashes() {
    assert_eq!(
        sql_of(catalog_plan(Engine::Mysql, CatalogKind::Tables, Some("a\\' OR 1=1 -- ".to_string()))).0,
        "SELECT table_name FROM information_schema.tables WHERE table_schema = 'a\\\\'' OR 1=1 -- '"
    );
    assert_eq!(
        sql_of(catalog_plan(Engine::Postgres, CatalogKind::Views, Some("a\\b".to_string()))).0,
        "SELECT DISTINCT table_name FROM information_schema.views WHERE table_schema = 'a\\b'"
    );
}

#[test]
fn collection_listing_database_falls_back() {
    assert_eq!(collection_database(Some("app".to_string()), Some("main".to_string())), "app");
    assert_eq!(collection_database(None, Some("main".to_string())), "main");
    assert_eq!(collection_database(None, None), "test");
}
