use line_relay::schema::{build_schema, ColumnEntry, SchemaRow};
use line_relay::sql::{plan_method, schema_query, CallParams, HandlerError, Plan};

fn call(name: Option<&str>, args: bool, query: Option<&str>, table: Option<&str>) -> Option<CallParams> {
    Some(CallParams {
        name: name.map(|s| s.to_string()),
        arguments_is_object: args,
        query: query.map(|s| s.to_string()),
        table: table.map(|s| s.to_string()),
    })
}

const ALL_TABLES: &str = "SELECT m.name as table_name, p.* \n                                 FROM sqlite_master m\n                                 JOIN pragma_table_info(m.name) p\n                                 WHERE m.type = 'table'\n                                 ORDER BY m.name, p.cid";

#[test]
fn list_tools_ignores_params() {
    assert_eq!(plan_method("tools/list", None), Ok(Plan::ListTools));
}

#[test]
fn unknown_method_is_named() {
    assert_eq!(plan_method("tools/run", None), Err(HandlerError::UnknownMethod("tools/run".to_string())));
}

#[test]
fn call_errors_in_order() {
    assert_eq!(plan_method("tools/call", None), Err(HandlerError::MissingParameters));
    assert_eq!(plan_method("tools/call", call(None, false, None, None)), Err(HandlerError::MissingToolName));
    assert_eq!(plan_method("tools/call", call(Some("query"), false, Some("SELECT 1"), None)), Err(HandlerError::MissingArguments));
    assert_eq!(plan_method("tools/call", call(Some("query"), true, None, None)), Err(HandlerError::MissingQuery));
    assert_eq!(plan_method("tools/call", call(Some("drop"), true, None, None)), Err(HandlerError::UnknownTool("drop".to_string())));
}

#[test]
fn query_tool_posts_query_verbatim() {
    assert_eq!(
        plan_method("tools/call", call(Some("query"), true, Some("SELECT * FROM t"), None)),
        Ok(Plan::PostQuery("SELECT * FROM t".to_string()))
    );
}

#[test]
fn schema_tool_filters_on_table() {
    let expected = "SELECT m.name as table_name, p.* \n                                 FROM sqlite_master m\n                                 JOIN pragma_table_info(m.name) p\n                                 WHERE m.type = 'table' AND m.name = 'users'\n                                 ORDER BY m.name, p.cid";
    assert_eq!(schema_query(Some("users")), expected);
    assert_eq!(
        plan_method("tools/call", call(Some("schema"), true, None, Some("users"))),
        Ok(Plan::PostSchema(expected.to_string()))
    );
}

#[test]
fn schema_tool_without_table_covers_all() {
    assert_eq!(schema_query(None), ALL_TABLES);
    assert_eq!(
        plan_method("tools/call", call(Some("schema"), true, None, None)),
        Ok(Plan::PostSchema(ALL_TABLES.to_string()))
    );
}

fn row(t: &str, c: &str, ty: &str, notnull: Option<i64>, pk: Option<i64>) -> SchemaRow<String> {
    SchemaRow {
        table_name: t.to_string(),
        name: c.to_string(),
        col_type: ty.to_string(),
        notnull,
        pk,
        dflt_value: String::new(),
    }
}

fn entry(t: &str, c: &str, ty: &str, nullable: bool, primary_key: bool) -> ColumnEntry<String> {
    ColumnEntry {
        table: t.to_string(),
        column: c.to_string(),
        col_type: ty.to_string(),
        nullable,
        primary_key,
        default: String::new(),
    }
}

#[test]
fn schema_groups_columns_by_table() {
    let rows = vec![
        row("users", "id", "INTEGER", Some(1), Some(1)),
        row("users", "name", "TEXT", Some(0), Some(0)),
        row("posts", "id", "INTEGER", None, Some(2)),
    ];
    assert_eq!(
        build_schema(rows),
        vec![
            entry("users", "id", "INTEGER", false, true),
            entry("users", "name", "TEXT", true, false),
            entry("posts", "id", "INTEGER", false, false),
        ]
    );
}

#[test]
fn schema_last_row_wins_per_column() {
    let rows = vec![
        row("t", "a", "TEXT", Some(0), Some(0)),
        row("t", "b", "TEXT", Some(0), Some(0)),
        row("t", "a", "BLOB", Some(1), Some(1)),
    ];
    assert_eq!(
        build_schema(rows),
        vec![entry("t", "a", "BLOB", false, true), entry("t", "b", "TEXT", true, false)]
    );
    assert_eq!(build_schema(Vec::<SchemaRow<String>>::new()), vec![]);
}
