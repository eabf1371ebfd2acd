use pg_introspect::constraints::{get_constraints, ConstraintRow};
use pg_introspect::model::TableInfo;
use pg_introspect::schema::{collect_constraints, get_schema_info};
use pg_introspect::tables::{flush_table, group_columns, TableGroup};
use pg_introspect::views::{get_views, ViewRow};
use pg_introspect::functions::{get_functions, FunctionRow};

fn table(name: &str, constraints: &[(&str, &str)]) -> TableInfo {
    let rows: Vec<ConstraintRow> = constraints
        .iter()
        .map(|(constraint, kind)| ConstraintRow {
            name: constraint.to_string(),
            kind: kind.to_string(),
            definition: String::new(),
            columns: vec!["id".to_string()],
            fk_reference: None,
        })
        .collect();
    let group =
        TableGroup { schema: "public".to_string(), name: name.to_string(), columns: Vec::new() };
    flush_table(group, get_constraints("public", name, &rows), Vec::new())
}

#[test]
fn an_empty_database_has_an_empty_schema() {
    let tables: Vec<TableInfo> = group_columns(&Vec::new())
        .into_iter()
        .map(|group| flush_table(group, Vec::new(), Vec::new()))
        .collect();
    let schema = get_schema_info(tables, get_views(&Vec::new()), get_functions(&Vec::new()));
    assert_eq!(schema.name, "public");
    assert!(schema.tables.is_empty());
    assert!(schema.views.is_empty());
    assert!(schema.functions.is_empty());
    assert!(schema.constraints.is_empty());
}

#[test]
fn the_schema_lists_the_constraints_of_all_tables() {
    let tables = vec![
        table("a", &[("a_pkey", "p"), ("a_unique", "u")]),
        table("b", &[]),
        table("c", &[("c_check", "c")]),
    ];
    let expected: Vec<_> = tables.iter().flat_map(|t| t.constraints.clone()).collect();
    let schema = get_schema_info(tables.clone(), Vec::new(), Vec::new());
    assert_eq!(schema.tables, tables);
    let names: Vec<&str> = schema.constraints.iter().map(|c| c.name.as_str()).collect();
    assert_eq!(names, vec!["a_pkey", "a_unique", "c_check"]);
    assert_eq!(schema.constraints, expected);
    assert_eq!(collect_constraints(&tables), expected);
}

#[test]
fn the_schema_keeps_its_views_and_functions() {
    let views = get_views(&vec![ViewRow {
        name: "v".to_string(),
        schema: "public".to_string(),
        definition: "SELECT 1".to_string(),
    }]);
    let functions = get_functions(&vec![FunctionRow {
        name: "f".to_string(),
        schema: "public".to_string(),
        arguments: String::new(),
        return_type: "void".to_string(),
        definition: String::new(),
    }]);
    let schema = get_schema_info(Vec::new(), views.clone(), functions.clone());
    assert_eq!(schema.views, views);
    assert_eq!(schema.functions, functions);
    assert!(schema.constraints.is_empty());
}
