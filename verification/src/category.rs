//! The portable vocabulary of column types and the mapping of PostgreSQL's
//! type names onto it.

use vstd::prelude::*;
use crate::text::{str_eq, str_ends_with, str_starts_with};

verus! {

/// The portable category of a column's type.
#[derive(Clone, Copy, Debug, PartialEq, Eq, Structural)]
pub enum ColumnTypeCategory {
    Numeric,
    Text,
    Boolean,
    Date,
    Time,
    DateTime,
    Binary,
    Json,
    Array,
    UUID,
    Network,
    Geometry,
    Other,
}

/// The category that a type name written exactly like a known keyword has.
/// The match is on the whole name and minds the case; any other name, such
/// as the catalog's `int4` or `bool`, is no keyword.
pub open spec fn keyword_category(name: Seq<char>) -> Option<ColumnTypeCategory> {
    if name == "smallint"@ || name == "integer"@ || name == "bigint"@ || name == "decimal"@
        || name == "numeric"@ || name == "real"@ || name == "double precision"@ {
        Some(ColumnTypeCategory::Numeric)
    } else if name == "character varying"@ || name == "varchar"@ || name == "character"@
        || name == "char"@ || name == "text"@ {
        Some(ColumnTypeCategory::Text)
    } else if name == "boolean"@ {
        Some(ColumnTypeCategory::Boolean)
    } else if name == "date"@ {
        Some(ColumnTypeCategory::Date)
    } else if name == "time"@ || name == "timetz"@ {
        Some(ColumnTypeCategory::Time)
    } else if name == "timestamp"@ || name == "timestamptz"@ || name == "interval"@ {
        Some(ColumnTypeCategory::DateTime)
    } else if name == "bytea"@ {
        Some(ColumnTypeCategory::Binary)
    } else if name == "json"@ || name == "jsonb"@ {
        Some(ColumnTypeCategory::Json)
    } else if name == "uuid"@ {
        Some(ColumnTypeCategory::UUID)
    } else if name == "inet"@ || name == "cidr"@ || name == "macaddr"@ {
        Some(ColumnTypeCategory::Network)
    } else {
        None
    }
}

/// The category of a PostgreSQL type name: a known keyword decides first,
/// then the array suffix, then the spatial prefixes; every other name, such
/// as that of an enum or a custom type, is `Other`.
pub open spec fn category_of(name: Seq<char>) -> ColumnTypeCategory {
    match keyword_category(name) {
        Some(category) => category,
        None => if "[]"@.is_suffix_of(name) {
            ColumnTypeCategory::Array
        } else if "geometry"@.is_prefix_of(name) || "geography"@.is_prefix_of(name) {
            ColumnTypeCategory::Geometry
        } else {
            ColumnTypeCategory::Other
        },
    }
}

fn keyword(name: &str) -> (r: Option<ColumnTypeCategory>)
    ensures
        r == keyword_category(name@),
{
    if str_eq(name, "smallint") || str_eq(name, "integer") || str_eq(name, "bigint")
        || str_eq(name, "decimal") || str_eq(name, "numeric") || str_eq(
        name,
        "real",
    ) || str_eq(name, "double precision") {
        Some(ColumnTypeCategory::Numeric)
    } else if str_eq(name, "character varying") || str_eq(name, "varchar") || str_eq(
        name,
        "character",
    ) || str_eq(name, "char") || str_eq(name, "text") {
        Some(ColumnTypeCategory::Text)
    } else if str_eq(name, "boolean") {
        Some(ColumnTypeCategory::Boolean)
    } else if str_eq(name, "date") {
        Some(ColumnTypeCategory::Date)
    } else if str_eq(name, "time") || str_eq(name, "timetz") {
        Some(ColumnTypeCategory::Time)
    } else if str_eq(name, "timestamp") || str_eq(name, "timestamptz") || str_eq(
        name,
        "interval",
    ) {
        Some(ColumnTypeCategory::DateTime)
    } else if str_eq(name, "bytea") {
        Some(ColumnTypeCategory::Binary)
    } else if str_eq(name, "json") || str_eq(name, "jsonb") {
        Some(ColumnTypeCategory::Json)
    } else if str_eq(name, "uuid") {
        Some(ColumnTypeCategory::UUID)
    } else if str_eq(name, "inet") || str_eq(name, "cidr") || str_eq(
        name,
        "macaddr",
    ) {
        Some(ColumnTypeCategory::Network)
    } else {
        None
    }
}

/// Maps a PostgreSQL type name to its portable category.
///
/// The mapping is total and depends on nothing but the characters of the
/// name, so equal names always map alike.
pub fn map_pg_type_to_category(name: &str) -> (category: ColumnTypeCategory)
    ensures
        category == category_of(name@),
{
    match keyword(name) {
        Some(category) => category,
        None => if str_ends_with(name, "[]") {
            ColumnTypeCategory::Array
        } else if str_starts_with(name, "geometry") || str_starts_with(
            name,
            "geography",
        ) {
            ColumnTypeCategory::Geometry
        } else {
            ColumnTypeCategory::Other
        },
    }
}

/// The category of a column whose type the catalog reports under two names,
/// the bare name of the type and the name formatted with its modifiers: the
/// category of the bare name, and where that is `Other`, the category of the
/// formatted name. So `numeric(10,2)` is found by its bare name `numeric`, a
/// serial column, whose bare name is `int4`, by its formatted name `integer`,
/// and an array, whose bare name is `_int4`, by its formatted name
/// `integer[]`.
pub open spec fn column_category_of(bare: Seq<char>, formatted: Seq<char>) -> ColumnTypeCategory {
    if category_of(bare) != ColumnTypeCategory::Other {
        category_of(bare)
    } else {
        category_of(formatted)
    }
}

/// Maps the two names under which the catalog reports the type of a column
/// to the portable category of the column.
pub fn column_category(bare: &str, formatted: &str) -> (category: ColumnTypeCategory)
    ensures
        category == column_category_of(bare@, formatted@),
{
    let by_bare_name = map_pg_type_to_category(bare);
    if by_bare_name != ColumnTypeCategory::Other {
        by_bare_name
    } else {
        map_pg_type_to_category(formatted)
    }
}

} // verus!
