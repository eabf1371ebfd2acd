use pg_introspect::category::ColumnTypeCategory;
use pg_introspect::constraints::{get_constraints, ConstraintRow};
use pg_introspect::indices::{get_indices, IndexRow};
use pg_introspect::model::{ConstraintType, TableInfo};
use pg_introspect::tables::{
    build_table, column_from_row, flush_table, group_columns, primary_key_columns, ColumnRow,
    TableGroup,
};

fn row(schema: &str, table: &str, column: &str, ordinal: i32) -> ColumnRow {
    ColumnRow {
        schema_name: schema.to_string(),
        table_name: table.to_string(),
        column_name: column.to_string(),
        data_type: "text".to_string(),
        not_null: false,
        ordinal_position: ordinal,
        default_value: None,
        description: None,
        full_data_type: "text".to_string(),
        is_primary: false,
        is_indexed: false,
        is_unique: false,
        is_serial: false,
    }
}

fn names(group: &TableGroup) -> Vec<String> {
    group.columns.iter().map(|c| c.name.clone()).collect()
}

fn orders_rows() -> Vec<ColumnRow> {
    vec![
        ColumnRow {
            schema_name: "public".to_string(),
            table_name: "orders".to_string(),
            column_name: "id".to_string(),
            data_type: "int4".to_string(),
            not_null: true,
            ordinal_position: 1,
            default_value: Some("nextval('orders_id_seq'::regclass)".to_string()),
            description: None,
            full_data_type: "integer".to_string(),
            is_primary: true,
            is_indexed: true,
            is_unique: true,
            is_serial: true,
        },
        ColumnRow {
            schema_name: "public".to_string(),
            table_name: "orders".to_string(),
            column_name: "total".to_string(),
            data_type: "numeric".to_string(),
            not_null: true,
            ordinal_position: 2,
            default_value: None,
            description: Some("the sum".to_string()),
            full_data_type: "numeric(10,2)".to_string(),
            is_primary: false,
            is_indexed: false,
            is_unique: false,
            is_serial: false,
        },
    ]
}

fn orders_table() -> TableInfo {
    let mut groups = group_columns(&orders_rows());
    assert_eq!(groups.len(), 1);
    let group = groups.remove(0);
    let constraint_rows = vec![ConstraintRow {
        name: "orders_pkey".to_string(),
        kind: "p".to_string(),
        definition: "PRIMARY KEY (id)".to_string(),
        columns: vec!["id".to_string()],
        fk_reference: None,
    }];
    let index_rows = vec![IndexRow {
        name: "orders_pkey".to_string(),
        method: "btree".to_string(),
        is_unique: true,
        is_primary: true,
        column_names: vec!["id".to_string()],
    }];
    let constraints = get_constraints(&group.schema, &group.name, &constraint_rows);
    let indices = get_indices(&group.schema, &group.name, &index_rows);
    flush_table(group, constraints, indices)
}

#[test]
fn orders_table_has_two_columns() {
    let table = orders_table();
    assert_eq!(table.name, "orders");
    assert_eq!(table.schema, "public");
    assert_eq!(table.columns.len(), 2);
    assert_eq!(table.primary_key_columns, vec!["id".to_string()]);
    assert_eq!(table.row_count_estimate, None);
    assert_eq!(table.size_bytes, None);
    assert_eq!(table.comment, None);
    assert_eq!(table.last_modified, None);
}

#[test]
fn orders_id_is_a_serial_primary_key() {
    let table = orders_table();
    let id = &table.columns[0];
    assert_eq!(id.name, "id");
    assert!(id.primary_key);
    assert!(id.auto_increment);
    assert!(id.indexed);
    assert!(id.unique);
    assert!(!id.nullable);
    assert_eq!(id.type_category, ColumnTypeCategory::Numeric);
    assert_eq!(id.position, Some(1));
    assert_eq!(id.default_value, Some("nextval('orders_id_seq'::regclass)".to_string()));
}

#[test]
fn orders_total_is_a_required_number() {
    let table = orders_table();
    let total = &table.columns[1];
    assert_eq!(total.name, "total");
    assert!(!total.nullable);
    assert!(!total.primary_key);
    assert!(!total.auto_increment);
    assert_eq!(total.type_category, ColumnTypeCategory::Numeric);
    assert_eq!(total.data_type, "numeric(10,2)");
    assert_eq!(total.comment, Some("the sum".to_string()));
    assert_eq!(total.position, Some(2));
}

#[test]
fn orders_table_carries_its_constraints_and_indices() {
    let table = orders_table();
    assert_eq!(table.constraints.len(), 1);
    assert_eq!(table.constraints[0].constraint_type, ConstraintType::PrimaryKey);
    assert_eq!(table.constraints[0].table_name, "orders");
    assert_eq!(table.constraints[0].schema_name, "public");
    assert_eq!(table.indices.len(), 1);
    assert_eq!(table.indices[0].name, "orders_pkey");
    assert_eq!(table.indices[0].table, "orders");
    assert_eq!(table.indices[0].method, Some("btree".to_string()));
}

#[test]
fn a_column_leaves_unknown_facts_absent() {
    let column = column_from_row(&row("s", "t", "c", 7), 6);
    assert_eq!(column.char_max_length, None);
    assert_eq!(column.numeric_precision, None);
    assert_eq!(column.numeric_scale, None);
    assert_eq!(column.foreign_key, None);
    assert_eq!(column.display_hint, None);
    assert_eq!(column.position, Some(7));
    assert!(column.nullable);
    assert_eq!(column.type_category, ColumnTypeCategory::Text);
}

#[test]
fn the_category_comes_from_the_bare_type() {
    let mut r = row("s", "t", "c", 1);
    r.data_type = "varchar".to_string();
    r.full_data_type = "character varying(20)".to_string();
    let column = column_from_row(&r, 0);
    assert_eq!(column.type_category, ColumnTypeCategory::Text);
    assert_eq!(column.data_type, "character varying(20)");
    assert_eq!(column.position, Some(1));
}

#[test]
fn an_array_column_is_found_by_its_formatted_type() {
    let mut r = row("s", "t", "tags", 1);
    r.data_type = "_text".to_string();
    r.full_data_type = "text[]".to_string();
    assert_eq!(column_from_row(&r, 0).type_category, ColumnTypeCategory::Array);
}

#[test]
fn the_position_is_the_place_and_not_the_ordinal() {
    assert_eq!(column_from_row(&row("s", "t", "c", -1), 0).position, Some(1));
    assert_eq!(column_from_row(&row("s", "t", "c", 1), 4).position, Some(5));
    assert_eq!(column_from_row(&row("s", "t", "c", 9), u32::MAX as usize - 1).position, Some(u32::MAX));
    assert_eq!(column_from_row(&row("s", "t", "c", 9), u32::MAX as usize).position, None);
}

#[test]
fn no_rows_no_groups() {
    assert!(group_columns(&Vec::new()).is_empty());
}

#[test]
fn one_row_one_group() {
    let groups = group_columns(&vec![row("public", "a", "x", 1)]);
    assert_eq!(groups.len(), 1);
    assert_eq!(groups[0].schema, "public");
    assert_eq!(groups[0].name, "a");
    assert_eq!(names(&groups[0]), vec!["x"]);
}

#[test]
fn rows_are_grouped_by_table_and_the_last_group_is_kept() {
    let rows = vec![
        row("public", "a", "a1", 1),
        row("public", "a", "a2", 2),
        row("public", "b", "b1", 1),
        row("sales", "b", "c1", 1),
        row("sales", "b", "c2", 2),
        row("sales", "b", "c3", 3),
    ];
    let groups = group_columns(&rows);
    assert_eq!(groups.len(), 3);
    assert_eq!((groups[0].schema.as_str(), groups[0].name.as_str()), ("public", "a"));
    assert_eq!(names(&groups[0]), vec!["a1", "a2"]);
    assert_eq!((groups[1].schema.as_str(), groups[1].name.as_str()), ("public", "b"));
    assert_eq!(names(&groups[1]), vec!["b1"]);
    assert_eq!((groups[2].schema.as_str(), groups[2].name.as_str()), ("sales", "b"));
    assert_eq!(names(&groups[2]), vec!["c1", "c2", "c3"]);
}

#[test]
fn positions_are_contiguous_from_one() {
    let rows = vec![
        row("public", "a", "a1", 1),
        row("public", "a", "a2", 2),
        row("public", "a", "a3", 3),
        row("public", "b", "b1", 1),
        row("public", "b", "b2", 2),
    ];
    for group in group_columns(&rows) {
        for (j, column) in group.columns.iter().enumerate() {
            assert_eq!(column.position, Some(j as u32 + 1));
        }
    }
}

#[test]
fn a_dropped_column_leaves_no_gap() {
    let rows = vec![
        row("public", "a", "a1", 1),
        row("public", "a", "a3", 3),
        row("public", "a", "a7", 7),
        row("public", "b", "b2", 2),
    ];
    let groups = group_columns(&rows);
    assert_eq!(groups[0].columns[0].position, Some(1));
    assert_eq!(groups[0].columns[1].position, Some(2));
    assert_eq!(groups[0].columns[2].position, Some(3));
    assert_eq!(groups[1].columns[0].position, Some(1));
}

#[test]
fn a_table_that_returns_later_is_a_group_of_its_own() {
    let rows = vec![
        row("public", "a", "a1", 1),
        row("public", "b", "b1", 1),
        row("public", "a", "a2", 2),
    ];
    let groups = group_columns(&rows);
    assert_eq!(groups.len(), 3);
    assert_eq!(names(&groups[0]), vec!["a1"]);
    assert_eq!(names(&groups[1]), vec!["b1"]);
    assert_eq!(names(&groups[2]), vec!["a2"]);
}

#[test]
fn rows_without_a_table_name_yield_no_group() {
    let rows = vec![
        row("", "", "x", 1),
        row("public", "a", "a1", 1),
        row("public", "", "y", 1),
        row("public", "", "z", 2),
        row("public", "a", "a2", 2),
        row("other", "", "w", 1),
    ];
    let groups = group_columns(&rows);
    assert_eq!(groups.len(), 2);
    assert_eq!(names(&groups[0]), vec!["a1"]);
    assert_eq!(names(&groups[1]), vec!["a2"]);
}

#[test]
fn a_schema_without_a_name_still_groups() {
    let rows = vec![row("", "a", "a1", 1), row("", "a", "a2", 2)];
    let groups = group_columns(&rows);
    assert_eq!(groups.len(), 1);
    assert_eq!(groups[0].schema, "");
    assert_eq!(names(&groups[0]), vec!["a1", "a2"]);
}

#[test]
fn primary_key_columns_follow_the_order_of_the_columns() {
    let mut rows = vec![
        row("public", "a", "k2", 1),
        row("public", "a", "v", 2),
        row("public", "a", "k1", 3),
    ];
    rows[0].is_primary = true;
    rows[2].is_primary = true;
    let mut groups = group_columns(&rows);
    let table = flush_table(groups.remove(0), Vec::new(), Vec::new());
    assert_eq!(table.primary_key_columns, vec!["k2".to_string(), "k1".to_string()]);
    let flagged: Vec<String> =
        table.columns.iter().filter(|c| c.primary_key).map(|c| c.name.clone()).collect();
    assert_eq!(table.primary_key_columns, flagged);
}

#[test]
fn no_primary_key_no_primary_key_columns() {
    let rows = vec![row("public", "a", "x", 1), row("public", "a", "y", 2)];
    let mut groups = group_columns(&rows);
    let table = flush_table(groups.remove(0), Vec::new(), Vec::new());
    assert!(table.primary_key_columns.is_empty());
    assert!(table.constraints.is_empty());
    assert!(table.indices.is_empty());
    assert!(primary_key_columns(&Vec::new()).is_empty());
}

#[test]
fn a_table_built_from_rows_owns_its_parts() {
    let mut groups = group_columns(&orders_rows());
    let constraint_rows = vec![
        ConstraintRow {
            name: "orders_pkey".to_string(),
            kind: "p".to_string(),
            definition: "PRIMARY KEY (id)".to_string(),
            columns: vec!["id".to_string()],
            fk_reference: None,
        },
        ConstraintRow {
            name: "ignored".to_string(),
            kind: "t".to_string(),
            definition: String::new(),
            columns: Vec::new(),
            fk_reference: None,
        },
    ];
    let index_rows = vec![IndexRow {
        name: "orders_pkey".to_string(),
        method: "btree".to_string(),
        is_unique: true,
        is_primary: true,
        column_names: vec!["id".to_string()],
    }];
    let table = build_table(groups.remove(0), &constraint_rows, &index_rows);
    assert_eq!(table, orders_table());
    for constraint in &table.constraints {
        assert_eq!(constraint.schema_name, table.schema);
        assert_eq!(constraint.table_name, table.name);
    }
    for index in &table.indices {
        assert_eq!(index.schema, table.schema);
        assert_eq!(index.table, table.name);
    }
}
