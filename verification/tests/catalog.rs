use pg_introspect::functions::{
    get_functions, split_arguments, trim_arguments, FunctionRow,
};
use pg_introspect::indices::{get_indices, index_from_row, IndexRow};
use pg_introspect::views::{get_views, ViewRow};

fn strings(items: &[&str]) -> Vec<String> {
    items.iter().map(|s| s.to_string()).collect()
}

#[test]
fn an_index_is_built_from_its_row() {
    let row = IndexRow {
        name: "orders_total_idx".to_string(),
        method: "hash".to_string(),
        is_unique: false,
        is_primary: false,
        column_names: strings(&["total", "id"]),
    };
    let index = index_from_row("public", "orders", &row);
    assert_eq!(index.name, "orders_total_idx");
    assert_eq!(index.schema, "public");
    assert_eq!(index.table, "orders");
    assert!(!index.is_unique);
    assert!(!index.is_primary);
    assert_eq!(index.column_names, strings(&["total", "id"]));
    assert_eq!(index.method, Some("hash".to_string()));
}

#[test]
fn indices_keep_the_order_of_the_rows() {
    let rows = vec![
        IndexRow {
            name: "b".to_string(),
            method: "btree".to_string(),
            is_unique: true,
            is_primary: true,
            column_names: strings(&["id"]),
        },
        IndexRow {
            name: "a".to_string(),
            method: "gin".to_string(),
            is_unique: false,
            is_primary: false,
            column_names: Vec::new(),
        },
    ];
    let indices = get_indices("s", "t", &rows);
    assert_eq!(indices.len(), 2);
    assert_eq!(indices[0].name, "b");
    assert!(indices[0].is_unique && indices[0].is_primary);
    assert_eq!(indices[1].name, "a");
    assert_eq!(indices[1].method, Some("gin".to_string()));
    assert!(indices[1].column_names.is_empty());
    assert!(get_indices("s", "t", &Vec::new()).is_empty());
}

#[test]
fn views_come_without_columns() {
    let rows = vec![
        ViewRow {
            name: "recent_orders".to_string(),
            schema: "public".to_string(),
            definition: "SELECT 1;".to_string(),
        },
        ViewRow {
            name: "totals".to_string(),
            schema: "sales".to_string(),
            definition: String::new(),
        },
    ];
    let views = get_views(&rows);
    assert_eq!(views.len(), 2);
    assert_eq!(views[0].name, "recent_orders");
    assert_eq!(views[0].schema, "public");
    assert!(views[0].columns.is_empty());
    assert_eq!(views[0].definition, Some("SELECT 1;".to_string()));
    assert_eq!(views[1].name, "totals");
    assert_eq!(views[1].definition, Some(String::new()));
    assert!(get_views(&Vec::new()).is_empty());
}

#[test]
fn arguments_are_split_at_commas_and_trimmed() {
    assert_eq!(split_arguments("a integer, b text"), strings(&["a integer", "b text"]));
    assert_eq!(split_arguments("  x  ,\ty\n,z"), strings(&["x", "y", "z"]));
    assert_eq!(split_arguments("single"), strings(&["single"]));
}

#[test]
fn an_empty_signature_has_one_empty_argument() {
    assert_eq!(split_arguments(""), strings(&[""]));
    assert_eq!(split_arguments("   "), strings(&[""]));
}

#[test]
fn every_comma_separates() {
    assert_eq!(split_arguments(","), strings(&["", ""]));
    assert_eq!(split_arguments("a,,b,"), strings(&["a", "", "b", ""]));
}

#[test]
fn a_comma_inside_a_type_cuts_the_argument() {
    assert_eq!(
        split_arguments("amount numeric(10,2), note text"),
        strings(&["amount numeric(10", "2)", "note text"])
    );
}

#[test]
fn white_space_inside_an_argument_stays() {
    assert_eq!(split_arguments(" a   b "), strings(&["a   b"]));
    assert_eq!(split_arguments("\u{a0}a\u{3000},\u{2003}b"), strings(&["a", "b"]));
}

#[test]
fn pieces_are_trimmed_one_by_one() {
    assert_eq!(trim_arguments(&strings(&[" a", "b ", " ", "c,d "])), strings(&["a", "b", "", "c,d"]));
    assert!(trim_arguments(&Vec::new()).is_empty());
}

#[test]
fn a_function_is_built_from_its_row() {
    let rows = vec![FunctionRow {
        name: "add".to_string(),
        schema: "public".to_string(),
        arguments: "a integer, b integer".to_string(),
        return_type: "integer".to_string(),
        definition: "CREATE FUNCTION add ...".to_string(),
    }];
    let functions = get_functions(&rows);
    assert_eq!(functions.len(), 1);
    assert_eq!(functions[0].name, "add");
    assert_eq!(functions[0].schema, "public");
    assert_eq!(functions[0].arguments, strings(&["a integer", "b integer"]));
    assert_eq!(functions[0].return_type, Some("integer".to_string()));
    assert_eq!(functions[0].definition, Some("CREATE FUNCTION add ...".to_string()));
    assert!(get_functions(&Vec::new()).is_empty());
}

fn has_white_space_property(c: char) -> bool {
    matches!(
        c as u32,
        0x09..=0x0D
            | 0x20
            | 0x85
            | 0xA0
            | 0x1680
            | 0x2000..=0x200A
            | 0x2028
            | 0x2029
            | 0x202F
            | 0x205F
            | 0x3000
    )
}

#[test]
fn exactly_the_white_space_characters_are_trimmed() {
    let mut trimmed = 0;
    for c in '\0'..=char::MAX {
        if c == ',' {
            continue;
        }
        let padded = format!("{}x{}", c, c);
        let expected = if has_white_space_property(c) { "x".to_string() } else { padded.clone() };
        assert_eq!(split_arguments(&padded), vec![expected], "U+{:04X}", c as u32);
        if has_white_space_property(c) {
            trimmed += 1;
        }
    }
    assert_eq!(trimmed, 25);
}
