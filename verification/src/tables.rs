//! From the flat rows of the columns query to tables.
//!
//! The catalog reports one row per column, sorted by schema, table and
//! ordinal position. Consecutive rows of one table form a run; every run
//! becomes one group of columns, and a group together with the constraints and
//! indices fetched for it becomes a table.

use vstd::prelude::*;
use crate::category::{column_category, column_category_of};
use crate::constraints::{
    constraint_of, constraints_of, get_constraints, ConstraintRow, ConstraintRowView,
};
use crate::indices::{get_indices, indices_of, IndexRow, IndexRowView};
use crate::model::{
    primary_key_names, ColumnInfo, ColumnInfoView, ConstraintInfo, ConstraintInfoView, IndexInfo,
    IndexInfoView, TableInfo, TableInfoView,
};
use crate::text::clone_text;

verus! {

/// One row of the columns query.
#[derive(Clone, Debug, PartialEq, Eq)]
pub struct ColumnRow {
    pub schema_name: String,
    pub table_name: String,
    pub column_name: String,
    /// The bare name under which the catalog files the type, such as `int4`.
    pub data_type: String,
    pub not_null: bool,
    /// The catalog's own number of the column. It orders the rows of a table
    /// and has gaps where columns were dropped, so the position of a column
    /// is counted within its table and not copied from here.
    pub ordinal_position: i32,
    pub default_value: Option<String>,
    pub description: Option<String>,
    /// The type as the server formats it, with its modifiers, such as
    /// `numeric(10,2)` or `integer[]`.
    pub full_data_type: String,
    pub is_primary: bool,
    pub is_indexed: bool,
    pub is_unique: bool,
    pub is_serial: bool,
}

/// The mathematical value of a [`ColumnRow`].
pub struct ColumnRowView {
    pub schema_name: Seq<char>,
    pub table_name: Seq<char>,
    pub column_name: Seq<char>,
    pub data_type: Seq<char>,
    pub not_null: bool,
    pub ordinal_position: i32,
    pub default_value: Option<Seq<char>>,
    pub description: Option<Seq<char>>,
    pub full_data_type: Seq<char>,
    pub is_primary: bool,
    pub is_indexed: bool,
    pub is_unique: bool,
    pub is_serial: bool,
}

impl View for ColumnRow {
    type V = ColumnRowView;

    open spec fn view(&self) -> ColumnRowView {
        ColumnRowView {
            schema_name: self.schema_name@,
            table_name: self.table_name@,
            column_name: self.column_name@,
            data_type: self.data_type@,
            not_null: self.not_null,
            ordinal_position: self.ordinal_position,
            default_value: self.default_value.deep_view(),
            description: self.description.deep_view(),
            full_data_type: self.full_data_type@,
            is_primary: self.is_primary,
            is_indexed: self.is_indexed,
            is_unique: self.is_unique,
            is_serial: self.is_serial,
        }
    }
}

impl DeepView for ColumnRow {
    type V = ColumnRowView;

    open spec fn deep_view(&self) -> ColumnRowView {
        self.view()
    }
}

/// The columns of one table, gathered from one run of rows.
#[derive(Clone, Debug, PartialEq, Eq)]
pub struct TableGroup {
    pub schema: String,
    pub name: String,
    pub columns: Vec<ColumnInfo>,
}

/// The mathematical value of a [`TableGroup`].
pub struct TableGroupView {
    pub schema: Seq<char>,
    pub name: Seq<char>,
    pub columns: Seq<ColumnInfoView>,
}

impl View for TableGroup {
    type V = TableGroupView;

    open spec fn view(&self) -> TableGroupView {
        TableGroupView {
            schema: self.schema@,
            name: self.name@,
            columns: self.columns.deep_view(),
        }
    }
}

impl DeepView for TableGroup {
    type V = TableGroupView;

    open spec fn deep_view(&self) -> TableGroupView {
        self.view()
    }
}

/// The position of the column at `place` among the columns of its table,
/// counted from 1. Places that no `u32` can number have no position.
pub open spec fn position_at(place: int) -> Option<u32> {
    if 0 <= place < u32::MAX {
        Some((place + 1) as u32)
    } else {
        None
    }
}

/// The column that a row describes, for a row that stands at `place` among
/// the rows of its table. What a result set cannot tell (lengths, precision,
/// the foreign key, the display hint) stays absent.
pub open spec fn column_of(row: ColumnRowView, place: int) -> ColumnInfoView {
    ColumnInfoView {
        name: row.column_name,
        data_type: row.full_data_type,
        type_category: column_category_of(row.data_type, row.full_data_type),
        nullable: !row.not_null,
        primary_key: row.is_primary,
        auto_increment: row.is_serial,
        indexed: row.is_indexed,
        unique: row.is_unique,
        char_max_length: None,
        numeric_precision: None,
        numeric_scale: None,
        default_value: row.default_value,
        comment: row.description,
        position: position_at(place),
        foreign_key: None,
        display_hint: None,
    }
}

/// The columns that the rows of one table describe, in the order of the
/// rows.
pub open spec fn columns_of(run: Seq<ColumnRowView>) -> Seq<ColumnInfoView> {
    Seq::new(run.len(), |place: int| column_of(run[place], place))
}

/// Whether two rows belong to the same table of the same schema.
pub open spec fn same_table(a: ColumnRowView, b: ColumnRowView) -> bool {
    a.schema_name == b.schema_name && a.table_name == b.table_name
}

/// The rows cut into runs: a row continues the run of the row before it when
/// both belong to the same table, and starts a new run otherwise.
pub open spec fn runs(rows: Seq<ColumnRowView>) -> Seq<Seq<ColumnRowView>>
    decreases rows.len(),
{
    if rows.len() == 0 {
        Seq::empty()
    } else {
        let before = runs(rows.drop_last());
        if rows.len() >= 2 && same_table(rows[rows.len() - 2], rows.last()) {
            before.drop_last().push(before.last().push(rows.last()))
        } else {
            before.push(seq![rows.last()])
        }
    }
}

/// Whether a run names its table. A run without a table name describes no
/// table.
pub open spec fn is_named(run: Seq<ColumnRowView>) -> bool {
    run.len() > 0 && run[0].table_name.len() > 0
}

/// The group that a run of rows becomes.
pub open spec fn group_of(run: Seq<ColumnRowView>) -> TableGroupView {
    TableGroupView {
        schema: run[0].schema_name,
        name: run[0].table_name,
        columns: columns_of(run),
    }
}

/// The groups of the runs that name their table, in the order of the runs.
pub open spec fn named_groups(parts: Seq<Seq<ColumnRowView>>) -> Seq<TableGroupView> {
    parts.filter(|run: Seq<ColumnRowView>| is_named(run)).map_values(
        |run: Seq<ColumnRowView>| group_of(run),
    )
}

/// The groups of columns that a stream of rows yields: one for each run of
/// rows of one table, but for runs without a table name.
pub open spec fn table_groups(rows: Seq<ColumnRowView>) -> Seq<TableGroupView> {
    named_groups(runs(rows))
}

/// The table that a group becomes once its constraints and indices are known.
pub open spec fn table_of(
    group: TableGroupView,
    constraints: Seq<ConstraintInfoView>,
    indices: Seq<IndexInfoView>,
) -> TableInfoView {
    TableInfoView {
        name: group.name,
        schema: group.schema,
        columns: group.columns,
        constraints: constraints,
        indices: indices,
        primary_key_columns: primary_key_names(group.columns),
        row_count_estimate: None,
        size_bytes: None,
        comment: None,
        last_modified: None,
    }
}

/// The table that a group becomes with the rows that the constraints query
/// and the indices query returned for it.
pub open spec fn table_from_rows(
    group: TableGroupView,
    constraint_rows: Seq<ConstraintRowView>,
    index_rows: Seq<IndexRowView>,
) -> TableInfoView {
    table_of(
        group,
        constraints_of(group.schema, group.name, constraint_rows),
        indices_of(group.schema, group.name, index_rows),
    )
}

/// There is a run for every non-empty stream, every run holds a row, and the
/// last row of the stream is the last row of the last run.
pub proof fn lemma_runs_last(rows: Seq<ColumnRowView>)
    requires
        rows.len() > 0,
    ensures
        runs(rows).len() > 0,
        runs(rows).last().len() > 0,
        runs(rows).last().last() == rows.last(),
        forall|k: int| 0 <= k < runs(rows).len() ==> (#[trigger] runs(rows)[k]).len() > 0,
    decreases rows.len(),
{
    let before = runs(rows.drop_last());
    if rows.len() >= 2 {
        lemma_runs_last(rows.drop_last());
    }
    assert forall|k: int| 0 <= k < runs(rows).len() implies (#[trigger] runs(rows)[k]).len()
        > 0 by {
        if k < runs(rows).len() - 1 {
            assert(runs(rows)[k] == before[k]);
        }
    }
}

/// Cutting the rows into runs loses and reorders nothing: the runs, laid end
/// to end, are the rows.
pub proof fn lemma_runs_concat(rows: Seq<ColumnRowView>)
    ensures
        runs(rows).flatten() == rows,
    decreases rows.len(),
{
    if rows.len() == 0 {
        assert(runs(rows).flatten() =~= rows);
    } else {
        let before = runs(rows.drop_last());
        lemma_runs_concat(rows.drop_last());
        if rows.len() >= 2 && same_table(rows[rows.len() - 2], rows.last()) {
            lemma_runs_last(rows.drop_last());
            let head = before.drop_last();
            assert(before =~= head.push(before.last()));
            head.lemma_flatten_push(before.last());
            head.lemma_flatten_push(before.last().push(rows.last()));
            assert(runs(rows) == head.push(before.last().push(rows.last())));
            assert(rows =~= rows.drop_last().push(rows.last()));
            assert(runs(rows).flatten() =~= (head.flatten() + before.last()).push(rows.last()));
            assert(runs(rows).flatten() =~= rows);
        } else {
            before.lemma_flatten_push(seq![rows.last()]);
            assert(runs(rows).flatten() =~= rows);
        }
    }
}

/// All rows of a run belong to the same table.
pub proof fn lemma_runs_uniform(rows: Seq<ColumnRowView>)
    ensures
        forall|k: int, j: int|
            0 <= k < runs(rows).len() && 0 <= j < runs(rows)[k].len() ==> same_table(
                runs(rows)[k][0],
                #[trigger] runs(rows)[k][j],
            ),
    decreases rows.len(),
{
    if rows.len() > 0 {
        lemma_runs_uniform(rows.drop_last());
        if rows.len() >= 2 {
            lemma_runs_last(rows.drop_last());
        }
    }
}

/// Runs are as long as they can be: where one run ends and the next begins,
/// the table changes.
pub proof fn lemma_runs_maximal(rows: Seq<ColumnRowView>)
    ensures
        forall|k: int|
            0 <= k && k + 1 < runs(rows).len() ==> !same_table(
                (#[trigger] runs(rows)[k]).last(),
                runs(rows)[k + 1][0],
            ),
    decreases rows.len(),
{
    if rows.len() > 0 {
        lemma_runs_maximal(rows.drop_last());
        if rows.len() >= 2 {
            lemma_runs_last(rows.drop_last());
            lemma_runs_uniform(rows.drop_last());
        }
    }
}

/// What one more run adds to the groups.
pub proof fn lemma_named_groups_push(parts: Seq<Seq<ColumnRowView>>, run: Seq<ColumnRowView>)
    ensures
        named_groups(parts.push(run)) == if is_named(run) {
            named_groups(parts).push(group_of(run))
        } else {
            named_groups(parts)
        },
{
    let keep = |run: Seq<ColumnRowView>| is_named(run);
    parts.lemma_filter_push(run, keep);
    assert(named_groups(parts.push(run)) =~= if is_named(run) {
        named_groups(parts).push(group_of(run))
    } else {
        named_groups(parts)
    });
}

/// Every group comes from a run that names its table.
pub proof fn lemma_group_has_run(parts: Seq<Seq<ColumnRowView>>, g: int)
    requires
        0 <= g < named_groups(parts).len(),
    ensures
        exists|k: int|
            0 <= k < parts.len() && is_named(#[trigger] parts[k]) && named_groups(parts)[g]
                == group_of(parts[k]),
    decreases parts.len(),
{
    if parts.len() > 0 {
        let head = parts.drop_last();
        assert(parts =~= head.push(parts.last()));
        lemma_named_groups_push(head, parts.last());
        if is_named(parts.last()) && g == named_groups(head).len() {
            assert(named_groups(parts)[g] == group_of(parts[parts.len() - 1]));
        } else {
            lemma_group_has_run(head, g);
            let k = choose|k: int|
                0 <= k < head.len() && is_named(#[trigger] head[k]) && named_groups(head)[g]
                    == group_of(head[k]);
            assert(parts[k] == head[k]);
        }
    } else {
        assert(named_groups(parts) =~= Seq::empty()) by {
            reveal(Seq::filter);
        }
    }
}

/// Whether the columns are numbered by their place: the first has position
/// 1, the next 2, and so on without a gap. (A `u32` cannot number more than
/// `u32::MAX` columns; columns beyond that have no position.)
pub open spec fn numbered_from_one(columns: Seq<ColumnInfoView>) -> bool {
    forall|j: int|
        0 <= j < columns.len() && j < u32::MAX ==> (#[trigger] columns[j]).position == Some(
            (j + 1) as u32,
        )
}

/// Whether the positions of the columns rise strictly from column to column,
/// as far as a `u32` can number the columns.
pub open spec fn positions_rise(columns: Seq<ColumnInfoView>) -> bool {
    forall|i: int, j: int|
        0 <= i < j < columns.len() && j < u32::MAX ==> {
            &&& (#[trigger] columns[i]).position is Some
            &&& (#[trigger] columns[j]).position is Some
            &&& columns[i].position->0 < columns[j].position->0
        }
}

/// Columns that are numbered by their place have strictly rising positions.
pub proof fn lemma_numbered_positions_rise(columns: Seq<ColumnInfoView>)
    requires
        numbered_from_one(columns),
    ensures
        positions_rise(columns),
{
}

/// The columns of every group are numbered by their place in the group:
/// the positions start at 1 and rise by 1 from column to column, whatever
/// numbers the catalog gave the rows.
pub proof fn lemma_positions_contiguous(rows: Seq<ColumnRowView>)
    ensures
        forall|g: int|
            0 <= g < table_groups(rows).len() ==> numbered_from_one(
                (#[trigger] table_groups(rows)[g]).columns,
            ) && positions_rise(table_groups(rows)[g].columns),
{
    assert forall|g: int| 0 <= g < table_groups(rows).len() implies numbered_from_one(
        (#[trigger] table_groups(rows)[g]).columns,
    ) && positions_rise(table_groups(rows)[g].columns) by {
        lemma_group_has_run(runs(rows), g);
        let k = choose|k: int|
            0 <= k < runs(rows).len() && is_named(#[trigger] runs(rows)[k]) && named_groups(
                runs(rows),
            )[g] == group_of(runs(rows)[k]);
        let run = runs(rows)[k];
        let columns = table_groups(rows)[g].columns;
        assert forall|j: int| 0 <= j < columns.len() && j < u32::MAX implies (
        #[trigger] columns[j]).position == Some((j + 1) as u32) by {
            assert(columns[j] == column_of(run[j], j));
        }
        lemma_numbered_positions_rise(columns);
    }
}

/// The list of primary-key columns is empty exactly when no column is flagged
/// as part of the primary key.
pub proof fn lemma_primary_key_nonempty(columns: Seq<ColumnInfoView>)
    ensures
        primary_key_names(columns).len() > 0 <==> exists|i: int|
            0 <= i < columns.len() && (#[trigger] columns[i]).primary_key,
{
    let flagged = |c: ColumnInfoView| c.primary_key;
    if primary_key_names(columns).len() > 0 {
        columns.lemma_filter_pred(flagged, 0);
        let c = columns.filter(flagged)[0];
        columns.lemma_filter_contains_rev(flagged, c);
        assert(columns.contains(c));
        let i = choose|i: int| 0 <= i < columns.len() && columns[i] == c;
        assert(columns[i].primary_key);
    }
    if exists|i: int| 0 <= i < columns.len() && (#[trigger] columns[i]).primary_key {
        let i = choose|i: int| 0 <= i < columns.len() && (#[trigger] columns[i]).primary_key;
        columns.lemma_filter_contains(flagged, i);
    }
}

/// Every constraint and every index of a table built from fetched rows names
/// the table and its schema as its owner.
pub proof fn lemma_table_owns_its_parts(
    group: TableGroupView,
    constraint_rows: Seq<ConstraintRowView>,
    index_rows: Seq<IndexRowView>,
)
    ensures
        forall|i: int|
            0 <= i < table_from_rows(group, constraint_rows, index_rows).constraints.len() ==> {
                let constraint = #[trigger] table_from_rows(
                    group,
                    constraint_rows,
                    index_rows,
                ).constraints[i];
                constraint.schema_name == group.schema && constraint.table_name == group.name
            },
        forall|i: int|
            0 <= i < table_from_rows(group, constraint_rows, index_rows).indices.len() ==> {
                let index = #[trigger] table_from_rows(group, constraint_rows, index_rows).indices[i];
                index.schema == group.schema && index.table == group.name
            },
{
    let pick = |row: ConstraintRowView| constraint_of(group.schema, group.name, row);
    let constraints = constraint_rows.filter_map(pick);
    assert forall|i: int| 0 <= i < constraints.len() implies (#[trigger] constraints[i]).schema_name
        == group.schema && constraints[i].table_name == group.name by {
        assert(constraints.contains(constraints[i]));
        constraint_rows.lemma_filter_map_contains(pick, constraints[i]);
    }
}

/// Builds the column that a row of the columns query describes, for a row
/// that stands at `place` (counted from 0) among the rows of its table.
pub fn column_from_row(row: &ColumnRow, place: usize) -> (column: ColumnInfo)
    ensures
        column@ == column_of(row@, place as int),
{
    let position = if place < u32::MAX as usize {
        Some((place + 1) as u32)
    } else {
        None
    };
    ColumnInfo {
        name: row.column_name.clone(),
        data_type: row.full_data_type.clone(),
        type_category: column_category(row.data_type.as_str(), row.full_data_type.as_str()),
        nullable: !row.not_null,
        primary_key: row.is_primary,
        auto_increment: row.is_serial,
        indexed: row.is_indexed,
        unique: row.is_unique,
        char_max_length: None,
        numeric_precision: None,
        numeric_scale: None,
        default_value: clone_text(&row.default_value),
        comment: clone_text(&row.description),
        position: position,
        foreign_key: None,
        display_hint: None,
    }
}

/// Groups the rows of the columns query by table.
///
/// The rows are taken in the order given. Each run of consecutive rows with
/// the same schema and table becomes one group, which holds the columns of
/// the run in the order of its rows, numbered from 1; the groups come in the
/// order of the runs, the last run included. A run whose table name is empty
/// yields no group.
pub fn group_columns(rows: &Vec<ColumnRow>) -> (groups: Vec<TableGroup>)
    ensures
        groups.deep_view() == table_groups(rows.deep_view()),
        forall|g: int|
            0 <= g < groups.len() ==> numbered_from_one((#[trigger] groups.deep_view()[g]).columns)
                && positions_rise(groups.deep_view()[g].columns),
{
    let ghost all = rows.deep_view();
    let mut groups: Vec<TableGroup> = Vec::new();
    let mut current_schema = String::new();
    let mut current_table = String::new();
    let mut current_columns: Vec<ColumnInfo> = Vec::new();
    let mut i: usize = 0;
    proof {
        assert(named_groups(Seq::empty()) =~= Seq::empty()) by {
            reveal(Seq::filter);
        }
    }
    while i < rows.len()
        invariant
            i <= rows.len(),
            all == rows.deep_view(),
            i == 0 ==> groups.deep_view() == Seq::<TableGroupView>::empty(),
            i > 0 ==> {
                let parts = runs(all.take(i as int));
                &&& parts.len() > 0
                &&& parts.last().len() > 0
                &&& parts.last()[0].schema_name == current_schema@
                &&& parts.last()[0].table_name == current_table@
                &&& all[i - 1].schema_name == current_schema@
                &&& all[i - 1].table_name == current_table@
                &&& current_columns.deep_view() == group_of(parts.last()).columns
                &&& groups.deep_view() == named_groups(parts.drop_last())
            },
        decreases rows.len() - i,
    {
        let row = &rows[i];
        let ghost before = all.take(i as int);
        let ghost now = all.take(i + 1);
        let ghost old_groups = groups.deep_view();
        proof {
            assert(now.drop_last() =~= before);
            assert(now.last() == row@);
            if i > 0 {
                lemma_runs_last(before);
                assert(now[now.len() - 2] == all[i - 1]);
            }
        }
        let continues = i > 0 && current_schema == row.schema_name && current_table
            == row.table_name;
        if !continues {
            if i > 0 && !current_table.as_str().is_empty() {
                let group = TableGroup {
                    schema: current_schema,
                    name: current_table,
                    columns: current_columns,
                };
                groups.push(group);
                proof {
                    assert(groups.deep_view() =~= old_groups.push(group@));
                }
            }
            proof {
                if i > 0 {
                    let parts = runs(before);
                    assert(parts =~= parts.drop_last().push(parts.last()));
                    lemma_named_groups_push(parts.drop_last(), parts.last());
                    assert(runs(now) == parts.push(seq![row@]));
                    assert(runs(now).drop_last() =~= parts);
                } else {
                    assert(runs(before) =~= Seq::empty());
                    assert(runs(now) == Seq::<Seq<ColumnRowView>>::empty().push(seq![row@]));
                    assert(runs(now).drop_last() =~= Seq::empty());
                }
            }
            current_schema = row.schema_name.clone();
            current_table = row.table_name.clone();
            current_columns = Vec::new();
            proof {
                assert(current_columns.deep_view() =~= Seq::empty());
            }
        } else {
            proof {
                let parts = runs(before);
                assert(runs(now) == parts.drop_last().push(parts.last().push(row@)));
                assert(runs(now).drop_last() =~= parts.drop_last());
            }
        }
        let ghost shorter = current_columns.deep_view();
        let place = current_columns.len();
        let column = column_from_row(row, place);
        current_columns.push(column);
        proof {
            assert(current_columns.deep_view() =~= shorter.push(column_of(row@, place as int)));
            assert(columns_of(runs(now).last()) =~= shorter.push(column_of(row@, place as int)));
        }
        i += 1;
    }
    proof {
        assert(all.take(i as int) =~= all);
    }
    if i > 0 && !current_table.as_str().is_empty() {
        let ghost old_groups = groups.deep_view();
        let group = TableGroup {
            schema: current_schema,
            name: current_table,
            columns: current_columns,
        };
        groups.push(group);
        proof {
            assert(groups.deep_view() =~= old_groups.push(group@));
        }
    }
    proof {
        if i > 0 {
            let parts = runs(all);
            assert(parts =~= parts.drop_last().push(parts.last()));
            lemma_named_groups_push(parts.drop_last(), parts.last());
        } else {
            assert(runs(all) =~= Seq::empty());
        }
        lemma_positions_contiguous(all);
    }
    groups
}

/// The names of the primary-key columns among `columns`, in their order.
pub fn primary_key_columns(columns: &Vec<ColumnInfo>) -> (names: Vec<String>)
    ensures
        names.deep_view() == primary_key_names(columns.deep_view()),
{
    let ghost all = columns.deep_view();
    let ghost flagged = |c: ColumnInfoView| c.primary_key;
    let ghost name_of = |c: ColumnInfoView| c.name;
    let mut names: Vec<String> = Vec::new();
    let mut i: usize = 0;
    proof {
        assert(all.take(0).filter(flagged) =~= Seq::empty()) by {
            reveal(Seq::filter);
        }
        assert(names.deep_view() =~= all.take(0).filter(flagged).map_values(name_of));
    }
    while i < columns.len()
        invariant
            i <= columns.len(),
            all == columns.deep_view(),
            flagged == |c: ColumnInfoView| c.primary_key,
            name_of == |c: ColumnInfoView| c.name,
            names.deep_view() == all.take(i as int).filter(flagged).map_values(name_of),
        decreases columns.len() - i,
    {
        let ghost old_names = names.deep_view();
        proof {
            assert(all.take(i + 1) =~= all.take(i as int).push(all[i as int]));
            all.take(i as int).lemma_filter_push(all[i as int], flagged);
        }
        if columns[i].primary_key {
            let name = columns[i].name.clone();
            names.push(name);
            proof {
                assert(names.deep_view() =~= old_names.push(all[i as int].name));
                assert(names.deep_view() =~= all.take(i + 1).filter(flagged).map_values(name_of));
            }
        }
        i += 1;
    }
    proof {
        assert(all.take(i as int) =~= all);
    }
    names
}

/// Completes a group into a table, once the constraints and indices of the
/// table have been fetched. The list of primary-key columns is derived from
/// the columns; what the catalog queries do not report stays absent.
pub fn flush_table(group: TableGroup, constraints: Vec<ConstraintInfo>, indices: Vec<IndexInfo>) -> (table: TableInfo)
    ensures
        table@ == table_of(group@, constraints.deep_view(), indices.deep_view()),
        table@.well_formed(),
{
    let names = primary_key_columns(&group.columns);
    TableInfo {
        name: group.name,
        schema: group.schema,
        columns: group.columns,
        constraints: constraints,
        indices: indices,
        primary_key_columns: names,
        row_count_estimate: None,
        size_bytes: None,
        comment: None,
        last_modified: None,
    }
}

/// Completes a group into a table from the rows that the constraints query
/// and the indices query returned for the group's table.
pub fn build_table(group: TableGroup, constraint_rows: &Vec<ConstraintRow>, index_rows: &Vec<IndexRow>) -> (table: TableInfo)
    ensures
        table@ == table_from_rows(group@, constraint_rows.deep_view(), index_rows.deep_view()),
        table@.well_formed(),
{
    let constraints = get_constraints(group.schema.as_str(), group.name.as_str(), constraint_rows);
    let indices = get_indices(group.schema.as_str(), group.name.as_str(), index_rows);
    flush_table(group, constraints, indices)
}

} // verus!
