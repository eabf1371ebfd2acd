//! From the rows of the views query to the views of the database.

use vstd::prelude::*;
use crate::model::{ColumnInfoView, ViewInfo, ViewInfoView};

verus! {

/// One row of the views query.
#[derive(Clone, Debug, PartialEq, Eq)]
pub struct ViewRow {
    pub name: String,
    pub schema: String,
    pub definition: String,
}

/// The mathematical value of a [`ViewRow`].
pub struct ViewRowView {
    pub name: Seq<char>,
    pub schema: Seq<char>,
    pub definition: Seq<char>,
}

impl View for ViewRow {
    type V = ViewRowView;

    open spec fn view(&self) -> ViewRowView {
        ViewRowView { name: self.name@, schema: self.schema@, definition: self.definition@ }
    }
}

impl DeepView for ViewRow {
    type V = ViewRowView;

    open spec fn deep_view(&self) -> ViewRowView {
        self.view()
    }
}

/// The view that a row describes. Its columns are not resolved and stay
/// empty.
pub open spec fn view_of(row: ViewRowView) -> ViewInfoView {
    ViewInfoView {
        name: row.name,
        schema: row.schema,
        columns: Seq::<ColumnInfoView>::empty(),
        definition: Some(row.definition),
    }
}

/// The views that the rows describe, one for each row, in the order of the
/// rows.
pub open spec fn views_of(rows: Seq<ViewRowView>) -> Seq<ViewInfoView> {
    rows.map_values(|row: ViewRowView| view_of(row))
}

/// Builds the view that one row describes.
pub fn view_from_row(row: &ViewRow) -> (view: ViewInfo)
    ensures
        view@ == view_of(row@),
{
    let view = ViewInfo {
        name: row.name.clone(),
        schema: row.schema.clone(),
        columns: Vec::new(),
        definition: Some(row.definition.clone()),
    };
    assert(view.columns.deep_view() =~= Seq::<ColumnInfoView>::empty());
    view
}

/// Builds the views of the database from the rows of the views query, one
/// view for each row, in their order.
pub fn get_views(rows: &Vec<ViewRow>) -> (views: Vec<ViewInfo>)
    ensures
        views.deep_view() == views_of(rows.deep_view()),
{
    let mut views: Vec<ViewInfo> = Vec::new();
    let mut i: usize = 0;
    while i < rows.len()
        invariant
            i <= rows.len(),
            views.len() == i,
            forall|j: int| 0 <= j < i ==> (#[trigger] views[j])@ == view_of(rows[j]@),
        decreases rows.len() - i,
    {
        views.push(view_from_row(&rows[i]));
        i += 1;
    }
    assert(views.deep_view() =~= views_of(rows.deep_view()));
    views
}

} // verus!
