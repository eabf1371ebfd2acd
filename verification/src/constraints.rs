//! From the rows of the constraints query to the constraints of a table.

use vstd::prelude::*;
use crate::json::{is_object, json_is_object, json_member_string, member_string};
use crate::model::{
    ConstraintInfo, ConstraintInfoView, ConstraintType, ForeignKeyReference,
    ForeignKeyReferenceView,
};
use crate::text::{clone_texts, str_eq};

verus! {

/// One row of the constraints query: one constraint with all its member
/// columns.
#[derive(Clone, Debug, PartialEq, Eq)]
pub struct ConstraintRow {
    pub name: String,
    /// The server's one-letter code for the kind of the constraint.
    pub kind: String,
    pub definition: String,
    /// The member columns, in the server's own order.
    pub columns: Vec<String>,
    /// For a foreign key, the object that describes its target.
    pub fk_reference: Option<serde_json::Value>,
}

/// The mathematical value of a [`ConstraintRow`].
pub struct ConstraintRowView {
    pub name: Seq<char>,
    pub kind: Seq<char>,
    pub definition: Seq<char>,
    pub columns: Seq<Seq<char>>,
    pub fk_reference: Option<serde_json::Value>,
}

impl View for ConstraintRow {
    type V = ConstraintRowView;

    open spec fn view(&self) -> ConstraintRowView {
        ConstraintRowView {
            name: self.name@,
            kind: self.kind@,
            definition: self.definition@,
            columns: self.columns.deep_view(),
            fk_reference: self.fk_reference,
        }
    }
}

impl DeepView for ConstraintRow {
    type V = ConstraintRowView;

    open spec fn deep_view(&self) -> ConstraintRowView {
        self.view()
    }
}

/// The kind of constraint that a one-letter code of the server stands for.
pub open spec fn constraint_kind(code: Seq<char>) -> Option<ConstraintType> {
    if code == "p"@ {
        Some(ConstraintType::PrimaryKey)
    } else if code == "f"@ {
        Some(ConstraintType::ForeignKey)
    } else if code == "u"@ {
        Some(ConstraintType::Unique)
    } else if code == "c"@ {
        Some(ConstraintType::Check)
    } else if code == "x"@ {
        Some(ConstraintType::Exclusion)
    } else {
        None
    }
}

/// A text, or the empty text where there is none.
pub open spec fn text_or_empty(text: Option<Seq<char>>) -> Seq<char> {
    match text {
        Some(t) => t,
        None => Seq::empty(),
    }
}

/// The reference that the five members of a foreign key's description give.
/// The target's schema, table and column are empty where the description
/// lacks them; the two rules are absent where it lacks them.
pub open spec fn reference_of_parts(
    referenced_schema: Option<Seq<char>>,
    referenced_table: Option<Seq<char>>,
    referenced_column: Option<Seq<char>>,
    on_update: Option<Seq<char>>,
    on_delete: Option<Seq<char>>,
) -> ForeignKeyReferenceView {
    ForeignKeyReferenceView {
        referenced_schema: text_or_empty(referenced_schema),
        referenced_table: text_or_empty(referenced_table),
        referenced_column: text_or_empty(referenced_column),
        on_update: on_update,
        on_delete: on_delete,
    }
}

/// The reference that a fetched description gives: one only for a JSON
/// object, read from its string members.
pub open spec fn foreign_key_of(description: Option<serde_json::Value>) -> Option<
    ForeignKeyReferenceView,
> {
    match description {
        Some(value) => if json_is_object(value) {
            Some(
                reference_of_parts(
                    json_member_string(value, "referenced_schema"@),
                    json_member_string(value, "referenced_table"@),
                    json_member_string(value, "referenced_column"@),
                    json_member_string(value, "on_update"@),
                    json_member_string(value, "on_delete"@),
                ),
            )
        } else {
            None
        },
        None => None,
    }
}

/// The constraint that a row describes for the table `table` of `schema`, or
/// nothing where the row's code names no known kind.
pub open spec fn constraint_of(schema: Seq<char>, table: Seq<char>, row: ConstraintRowView) -> Option<
    ConstraintInfoView,
> {
    match constraint_kind(row.kind) {
        Some(kind) => Some(
            ConstraintInfoView {
                name: row.name,
                constraint_type: kind,
                table_name: table,
                schema_name: schema,
                column_names: row.columns,
                foreign_key_reference: foreign_key_of(row.fk_reference),
                check_definition: if kind == ConstraintType::Check {
                    Some(row.definition)
                } else {
                    None
                },
            },
        ),
        None => None,
    }
}

/// The constraints that the rows describe, in the order of the rows; rows of
/// an unknown kind are left out.
pub open spec fn constraints_of(
    schema: Seq<char>,
    table: Seq<char>,
    rows: Seq<ConstraintRowView>,
) -> Seq<ConstraintInfoView> {
    rows.filter_map(|row: ConstraintRowView| constraint_of(schema, table, row))
}

/// Maps the server's one-letter code to the kind of constraint.
pub fn constraint_type_of(code: &str) -> (kind: Option<ConstraintType>)
    ensures
        kind == constraint_kind(code@),
{
    if str_eq(code, "p") {
        Some(ConstraintType::PrimaryKey)
    } else if str_eq(code, "f") {
        Some(ConstraintType::ForeignKey)
    } else if str_eq(code, "u") {
        Some(ConstraintType::Unique)
    } else if str_eq(code, "c") {
        Some(ConstraintType::Check)
    } else if str_eq(code, "x") {
        Some(ConstraintType::Exclusion)
    } else {
        None
    }
}

fn or_empty(text: Option<String>) -> (t: String)
    ensures
        t@ == text_or_empty(text.deep_view()),
{
    match text {
        Some(t) => t,
        None => String::new(),
    }
}

/// Builds a foreign-key reference from the five members of its description.
pub fn foreign_key_from_parts(
    referenced_schema: Option<String>,
    referenced_table: Option<String>,
    referenced_column: Option<String>,
    on_update: Option<String>,
    on_delete: Option<String>,
) -> (reference: ForeignKeyReference)
    ensures
        reference@ == reference_of_parts(
            referenced_schema.deep_view(),
            referenced_table.deep_view(),
            referenced_column.deep_view(),
            on_update.deep_view(),
            on_delete.deep_view(),
        ),
{
    ForeignKeyReference {
        referenced_schema: or_empty(referenced_schema),
        referenced_table: or_empty(referenced_table),
        referenced_column: or_empty(referenced_column),
        on_update: on_update,
        on_delete: on_delete,
    }
}

/// Decodes the description of a foreign key's target that the constraints
/// query packs into one JSON value. Anything but a JSON object gives no
/// reference; a member that is missing or no string counts as absent.
pub fn decode_foreign_key(description: &Option<serde_json::Value>) -> (reference: Option<
    ForeignKeyReference,
>)
    ensures
        reference.deep_view() == foreign_key_of(*description),
{
    match description {
        Some(value) => {
            if is_object(value) {
                Some(
                    foreign_key_from_parts(
                        member_string(value, "referenced_schema"),
                        member_string(value, "referenced_table"),
                        member_string(value, "referenced_column"),
                        member_string(value, "on_update"),
                        member_string(value, "on_delete"),
                    ),
                )
            } else {
                None
            }
        },
        None => None,
    }
}

/// Builds the constraint that one row describes, or nothing where the row's
/// code names no known kind.
pub fn constraint_from_row(schema: &str, table: &str, row: &ConstraintRow) -> (constraint: Option<
    ConstraintInfo,
>)
    ensures
        constraint.deep_view() == constraint_of(schema@, table@, row@),
{
    match constraint_type_of(row.kind.as_str()) {
        Some(kind) => {
            let check_definition = if kind == ConstraintType::Check {
                Some(row.definition.clone())
            } else {
                None
            };
            Some(
                ConstraintInfo {
                    name: row.name.clone(),
                    constraint_type: kind,
                    table_name: table.to_owned(),
                    schema_name: schema.to_owned(),
                    column_names: clone_texts(&row.columns),
                    foreign_key_reference: decode_foreign_key(&row.fk_reference),
                    check_definition: check_definition,
                },
            )
        },
        None => None,
    }
}

/// Builds the constraints of the table `table` of `schema` from the rows that
/// the constraints query returned for it. The constraints keep the order of
/// the rows; a row whose code names no known kind is skipped.
pub fn get_constraints(schema: &str, table: &str, rows: &Vec<ConstraintRow>) -> (constraints: Vec<
    ConstraintInfo,
>)
    ensures
        constraints.deep_view() == constraints_of(schema@, table@, rows.deep_view()),
{
    let ghost all = rows.deep_view();
    let ghost pick = |row: ConstraintRowView| constraint_of(schema@, table@, row);
    let mut constraints: Vec<ConstraintInfo> = Vec::new();
    let mut i: usize = 0;
    assert(constraints.deep_view() =~= all.take(0).filter_map(pick));
    while i < rows.len()
        invariant
            i <= rows.len(),
            all == rows.deep_view(),
            pick == |row: ConstraintRowView| constraint_of(schema@, table@, row),
            constraints.deep_view() == all.take(i as int).filter_map(pick),
        decreases rows.len() - i,
    {
        let ghost before = constraints.deep_view();
        proof {
            all.lemma_filter_map_take_succ(pick, i as int);
        }
        match constraint_from_row(schema, table, &rows[i]) {
            Some(constraint) => {
                constraints.push(constraint);
                assert(constraints.deep_view() =~= before.push(constraint@));
            },
            None => {},
        }
        i += 1;
    }
    assert(all.take(i as int) =~= all);
    constraints
}

} // verus!
