//! From the rows of the indices query to the indices of a table.

use vstd::prelude::*;
use crate::model::{IndexInfo, IndexInfoView};
use crate::text::clone_texts;

verus! {

/// One row of the indices query: one index with all its member columns.
#[derive(Clone, Debug, PartialEq, Eq)]
pub struct IndexRow {
    pub name: String,
    /// The name of the access method, such as `btree` or `hash`.
    pub method: String,
    pub is_unique: bool,
    pub is_primary: bool,
    pub column_names: Vec<String>,
}

/// The mathematical value of an [`IndexRow`].
pub struct IndexRowView {
    pub name: Seq<char>,
    pub method: Seq<char>,
    pub is_unique: bool,
    pub is_primary: bool,
    pub column_names: Seq<Seq<char>>,
}

impl View for IndexRow {
    type V = IndexRowView;

    open spec fn view(&self) -> IndexRowView {
        IndexRowView {
            name: self.name@,
            method: self.method@,
            is_unique: self.is_unique,
            is_primary: self.is_primary,
            column_names: self.column_names.deep_view(),
        }
    }
}

impl DeepView for IndexRow {
    type V = IndexRowView;

    open spec fn deep_view(&self) -> IndexRowView {
        self.view()
    }
}

/// The index that a row describes for the table `table` of `schema`.
pub open spec fn index_of(schema: Seq<char>, table: Seq<char>, row: IndexRowView) -> IndexInfoView {
    IndexInfoView {
        name: row.name,
        schema: schema,
        table: table,
        is_unique: row.is_unique,
        is_primary: row.is_primary,
        column_names: row.column_names,
        method: Some(row.method),
    }
}

/// The indices that the rows describe, one for each row, in the order of the
/// rows.
pub open spec fn indices_of(schema: Seq<char>, table: Seq<char>, rows: Seq<IndexRowView>) -> Seq<
    IndexInfoView,
> {
    rows.map_values(|row: IndexRowView| index_of(schema, table, row))
}

/// Builds the index that one row describes.
pub fn index_from_row(schema: &str, table: &str, row: &IndexRow) -> (index: IndexInfo)
    ensures
        index@ == index_of(schema@, table@, row@),
{
    IndexInfo {
        name: row.name.clone(),
        schema: schema.to_owned(),
        table: table.to_owned(),
        is_unique: row.is_unique,
        is_primary: row.is_primary,
        column_names: clone_texts(&row.column_names),
        method: Some(row.method.clone()),
    }
}

/// Builds the indices of the table `table` of `schema` from the rows that the
/// indices query returned for it, one index for each row, in their order.
pub fn get_indices(schema: &str, table: &str, rows: &Vec<IndexRow>) -> (indices: Vec<IndexInfo>)
    ensures
        indices.deep_view() == indices_of(schema@, table@, rows.deep_view()),
{
    let mut indices: Vec<IndexInfo> = Vec::new();
    let mut i: usize = 0;
    while i < rows.len()
        invariant
            i <= rows.len(),
            indices.len() == i,
            forall|j: int| 0 <= j < i ==> (#[trigger] indices[j])@ == index_of(schema@, table@, rows[j]@),
        decreases rows.len() - i,
    {
        indices.push(index_from_row(schema, table, &rows[i]));
        i += 1;
    }
    assert(indices.deep_view() =~= indices_of(schema@, table@, rows.deep_view()));
    indices
}

} // verus!
