//! The common shape of a query's result.
//!
//! Whatever a statement returns is reported as a list of column definitions
//! and a list of rows; every row maps the names of its columns to texts, and
//! an absent value is written as the text `NULL`.

use vstd::prelude::*;
use crate::json::{json_text, to_text};
use crate::text::str_eq;

verus! {

/// What is known of one column of a result set. A result set tells the name
/// and the type of a column and nothing else: every column is reported as
/// nullable, as no part of a primary key and without a default.
#[derive(Clone, Debug, PartialEq, Eq)]
pub struct ColumnDefinition {
    pub name: String,
    pub data_type: String,
    pub nullable: bool,
    pub primary_key: bool,
    pub default_value: Option<String>,
}

/// The mathematical value of a [`ColumnDefinition`].
pub struct ColumnDefinitionView {
    pub name: Seq<char>,
    pub data_type: Seq<char>,
    pub nullable: bool,
    pub primary_key: bool,
    pub default_value: Option<Seq<char>>,
}

impl View for ColumnDefinition {
    type V = ColumnDefinitionView;

    open spec fn view(&self) -> ColumnDefinitionView {
        ColumnDefinitionView {
            name: self.name@,
            data_type: self.data_type@,
            nullable: self.nullable,
            primary_key: self.primary_key,
            default_value: self.default_value.deep_view(),
        }
    }
}

impl DeepView for ColumnDefinition {
    type V = ColumnDefinitionView;

    open spec fn deep_view(&self) -> ColumnDefinitionView {
        self.view()
    }
}

/// The names and texts of a list of entries.
pub open spec fn pairs_of(entries: Seq<(String, String)>) -> Seq<(Seq<char>, Seq<char>)> {
    entries.map_values(|entry: (String, String)| (entry.0@, entry.1@))
}

/// The map that a list of pairs builds when they are inserted in their order.
pub open spec fn map_of(pairs: Seq<(Seq<char>, Seq<char>)>) -> Map<Seq<char>, Seq<char>>
    decreases pairs.len(),
{
    if pairs.len() == 0 {
        Map::empty()
    } else {
        map_of(pairs.drop_last()).insert(pairs.last().0, pairs.last().1)
    }
}

/// Whether no name occurs twice among the pairs.
pub open spec fn distinct_names(pairs: Seq<(Seq<char>, Seq<char>)>) -> bool {
    forall|i: int, j: int| 0 <= i < j < pairs.len() ==> (#[trigger] pairs[i]).0 != (
    #[trigger] pairs[j]).0
}

/// The names that the map of a list of pairs holds are the names of the
/// pairs.
pub proof fn lemma_map_of_names(pairs: Seq<(Seq<char>, Seq<char>)>)
    ensures
        forall|name: Seq<char>| #[trigger]
            map_of(pairs).contains_key(name) <==> exists|i: int|
                0 <= i < pairs.len() && (#[trigger] pairs[i]).0 == name,
        map_of(pairs).dom().finite(),
    decreases pairs.len(),
{
    if pairs.len() > 0 {
        let head = pairs.drop_last();
        lemma_map_of_names(head);
        assert forall|name: Seq<char>| #[trigger]
            map_of(pairs).contains_key(name) <==> exists|i: int|
                0 <= i < pairs.len() && (#[trigger] pairs[i]).0 == name by {
            if map_of(pairs).contains_key(name) {
                if name == pairs.last().0 {
                    assert(pairs[pairs.len() - 1].0 == name);
                } else {
                    assert(map_of(head).contains_key(name));
                    let i = choose|i: int| 0 <= i < head.len() && (#[trigger] head[i]).0 == name;
                    assert(pairs[i].0 == name);
                }
            }
            if exists|i: int| 0 <= i < pairs.len() && (#[trigger] pairs[i]).0 == name {
                let i = choose|i: int| 0 <= i < pairs.len() && (#[trigger] pairs[i]).0 == name;
                if i < head.len() {
                    assert(head[i].0 == name);
                }
            }
        }
    }
}

/// Where no name occurs twice, none does once the last pair is left out.
pub proof fn lemma_distinct_names_drop_last(pairs: Seq<(Seq<char>, Seq<char>)>)
    requires
        distinct_names(pairs),
        pairs.len() > 0,
    ensures
        distinct_names(pairs.drop_last()),
{
    let head = pairs.drop_last();
    assert forall|a: int, b: int| 0 <= a < b < head.len() implies (#[trigger] head[a]).0 != (
    #[trigger] head[b]).0 by {
        assert(pairs[a].0 != pairs[b].0);
    }
}

/// Where no name occurs twice, the map holds for each pair its text.
pub proof fn lemma_map_of_value(pairs: Seq<(Seq<char>, Seq<char>)>, i: int)
    requires
        distinct_names(pairs),
        0 <= i < pairs.len(),
    ensures
        map_of(pairs).contains_key(pairs[i].0),
        map_of(pairs)[pairs[i].0] == pairs[i].1,
    decreases pairs.len(),
{
    let head = pairs.drop_last();
    if i < pairs.len() - 1 {
        lemma_distinct_names_drop_last(pairs);
        lemma_map_of_value(head, i);
        assert(pairs[i].0 != pairs[pairs.len() - 1].0);
    }
}

/// Where no name occurs twice, the map has as many entries as there are
/// pairs.
pub proof fn lemma_map_of_len(pairs: Seq<(Seq<char>, Seq<char>)>)
    requires
        distinct_names(pairs),
    ensures
        map_of(pairs).dom().finite(),
        map_of(pairs).len() == pairs.len(),
    decreases pairs.len(),
{
    lemma_map_of_names(pairs);
    if pairs.len() > 0 {
        let head = pairs.drop_last();
        lemma_distinct_names_drop_last(pairs);
        lemma_map_of_len(head);
        lemma_map_of_names(head);
        if map_of(head).contains_key(pairs.last().0) {
            let i = choose|i: int| 0 <= i < head.len() && (#[trigger] head[i]).0 == pairs.last().0;
            assert(pairs[i].0 == pairs[pairs.len() - 1].0);
        }
        assert(map_of(pairs).dom() =~= map_of(head).dom().insert(pairs.last().0));
    }
}

/// Where no name occurs twice, giving a pair another text is inserting the
/// text under the pair's name, and still no name occurs twice.
pub proof fn lemma_map_of_update(pairs: Seq<(Seq<char>, Seq<char>)>, k: int, text: Seq<char>)
    requires
        distinct_names(pairs),
        0 <= k < pairs.len(),
    ensures
        distinct_names(pairs.update(k, (pairs[k].0, text))),
        map_of(pairs.update(k, (pairs[k].0, text))) == map_of(pairs).insert(pairs[k].0, text),
{
    let name = pairs[k].0;
    let after = pairs.update(k, (name, text));
    assert(distinct_names(after)) by {
        assert forall|a: int, b: int| 0 <= a < b < after.len() implies (#[trigger] after[a]).0 != (
        #[trigger] after[b]).0 by {
            assert(pairs[a].0 != pairs[b].0);
        }
    }
    lemma_map_of_names(pairs);
    lemma_map_of_names(after);
    assert forall|n: Seq<char>| #[trigger]
        map_of(after).contains_key(n) <==> map_of(pairs).insert(name, text).contains_key(n) by {
        if map_of(after).contains_key(n) {
            let i = choose|i: int| 0 <= i < after.len() && (#[trigger] after[i]).0 == n;
            assert(pairs[i].0 == n);
        }
        if map_of(pairs).contains_key(n) {
            let i = choose|i: int| 0 <= i < pairs.len() && (#[trigger] pairs[i]).0 == n;
            assert(after[i].0 == n);
        }
        if n == name {
            assert(after[k].0 == n);
        }
    }
    assert forall|n: Seq<char>| #[trigger] map_of(after).contains_key(n) implies map_of(after)[n]
        == map_of(pairs).insert(name, text)[n] by {
        let i = choose|i: int| 0 <= i < after.len() && (#[trigger] after[i]).0 == n;
        lemma_map_of_value(after, i);
        if i != k {
            assert(pairs[i].0 != pairs[k].0);
            lemma_map_of_value(pairs, i);
        }
    }
    assert(map_of(after) =~= map_of(pairs).insert(name, text));
}

/// One row of a result: a map from the names of its columns to texts. Two
/// rows are equal when they hold the same names with the same texts, in
/// whatever order the names were set.
#[derive(Debug, Eq)]
pub struct Row {
    entries: Vec<(String, String)>,
}

impl View for Row {
    type V = Map<Seq<char>, Seq<char>>;

    closed spec fn view(&self) -> Map<Seq<char>, Seq<char>> {
        map_of(pairs_of(self.entries@))
    }
}

impl DeepView for Row {
    type V = Map<Seq<char>, Seq<char>>;

    open spec fn deep_view(&self) -> Map<Seq<char>, Seq<char>> {
        self.view()
    }
}

impl Row {
    #[verifier::type_invariant]
    spec fn no_name_twice(self) -> bool {
        distinct_names(pairs_of(self.entries@))
    }

    /// A row without entries.
    pub fn new() -> (row: Row)
        ensures
            row@ == Map::<Seq<char>, Seq<char>>::empty(),
    {
        let entries: Vec<(String, String)> = Vec::new();
        assert(pairs_of(entries@) =~= Seq::empty());
        Row { entries }
    }

    /// Where the name stands among the entries, if it does.
    fn position(&self, name: &str) -> (at: Option<usize>)
        ensures
            match at {
                Some(k) => k < self.entries.len() && self.entries[k as int].0@ == name@,
                None => forall|j: int|
                    0 <= j < self.entries.len() ==> (#[trigger] self.entries[j]).0@ != name@,
            },
    {
        let mut k: usize = 0;
        while k < self.entries.len()
            invariant
                k <= self.entries.len(),
                forall|j: int| 0 <= j < k ==> (#[trigger] self.entries[j]).0@ != name@,
            decreases self.entries.len() - k,
        {
            if str_eq(self.entries[k].0.as_str(), name) {
                return Some(k);
            }
            k += 1;
        }
        None
    }

    /// Sets the text under `name`, replacing the one that was there.
    pub fn insert(&mut self, name: String, text: String)
        ensures
            final(self)@ == old(self)@.insert(name@, text@),
    {
        proof {
            use_type_invariant(&*self);
        }
        let ghost before = pairs_of(self.entries@);
        let at = self.position(name.as_str());
        let mut entries: Vec<(String, String)> = Vec::new();
        proof {
            assert(pairs_of(entries@) =~= Seq::empty());
        }
        core::mem::swap(&mut self.entries, &mut entries);
        match at {
            Some(k) => {
                proof {
                    lemma_map_of_update(before, k as int, text@);
                }
                entries.set(k, (name, text));
                proof {
                    assert(pairs_of(entries@) =~= before.update(k as int, (name@, text@)));
                }
            },
            None => {
                proof {
                    let after = before.push((name@, text@));
                    assert(after.drop_last() =~= before);
                    assert(distinct_names(after)) by {
                        assert forall|a: int, b: int| 0 <= a < b < after.len() implies (
                        #[trigger] after[a]).0 != (#[trigger] after[b]).0 by {
                            if b < before.len() {
                                assert(before[a].0 != before[b].0);
                            } else {
                                assert(old(self).entries[a].0@ != name@);
                            }
                        }
                    }
                }
                entries.push((name, text));
                proof {
                    assert(pairs_of(entries@) =~= before.push((name@, text@)));
                }
            },
        }
        self.entries = entries;
    }

    /// The text under `name`, if the row holds the name.
    pub fn get(&self, name: &str) -> (text: Option<String>)
        ensures
            text.deep_view() == if self@.contains_key(name@) {
                Some(self@[name@])
            } else {
                None
            },
    {
        proof {
            use_type_invariant(self);
            lemma_map_of_names(pairs_of(self.entries@));
        }
        match self.position(name) {
            Some(k) => {
                proof {
                    lemma_map_of_value(pairs_of(self.entries@), k as int);
                }
                Some(self.entries[k].1.clone())
            },
            None => {
                proof {
                    if self@.contains_key(name@) {
                        let pairs = pairs_of(self.entries@);
                        let i = choose|i: int|
                            0 <= i < pairs.len() && (#[trigger] pairs[i]).0 == name@;
                        assert(self.entries[i].0@ == name@);
                    }
                }
                None
            },
        }
    }

    /// The number of names that the row holds.
    pub fn len(&self) -> (n: usize)
        ensures
            self@.dom().finite(),
            n == self@.len(),
    {
        proof {
            use_type_invariant(self);
            lemma_map_of_len(pairs_of(self.entries@));
        }
        self.entries.len()
    }

    /// The names of the row with their texts, each name once.
    pub fn entries(&self) -> (pairs: Vec<(String, String)>)
        ensures
            distinct_names(pairs_of(pairs@)),
            map_of(pairs_of(pairs@)) == self@,
    {
        proof {
            use_type_invariant(self);
        }
        let mut pairs: Vec<(String, String)> = Vec::new();
        let mut k: usize = 0;
        while k < self.entries.len()
            invariant
                k <= self.entries.len(),
                pairs.len() == k,
                forall|j: int|
                    0 <= j < k ==> (#[trigger] pairs[j]).0@ == self.entries[j].0@ && pairs[j].1@
                        == self.entries[j].1@,
            decreases self.entries.len() - k,
        {
            pairs.push((self.entries[k].0.clone(), self.entries[k].1.clone()));
            k += 1;
        }
        assert(pairs_of(pairs@) =~= pairs_of(self.entries@));
        pairs
    }
}

impl PartialEq for Row {
    fn eq(&self, other: &Row) -> (same: bool) {
        let ghost mine = pairs_of(self.entries@);
        let ghost theirs = pairs_of(other.entries@);
        proof {
            use_type_invariant(self);
            use_type_invariant(other);
            lemma_map_of_len(mine);
            lemma_map_of_len(theirs);
            lemma_map_of_names(mine);
            lemma_map_of_names(theirs);
        }
        if self.entries.len() != other.entries.len() {
            return false;
        }
        let mut k: usize = 0;
        while k < self.entries.len()
            invariant
                k <= self.entries.len(),
                mine == pairs_of(self.entries@),
                theirs == pairs_of(other.entries@),
                distinct_names(mine),
                distinct_names(theirs),
                other@ == map_of(theirs),
                forall|j: int|
                    0 <= j < k ==> other@.contains_key((#[trigger] mine[j]).0) && other@[mine[j].0]
                        == mine[j].1,
            decreases self.entries.len() - k,
        {
            proof {
                lemma_map_of_value(mine, k as int);
                lemma_map_of_names(theirs);
            }
            match other.position(self.entries[k].0.as_str()) {
                Some(m) => {
                    proof {
                        lemma_map_of_value(theirs, m as int);
                    }
                    if !(other.entries[m].1 == self.entries[k].1) {
                        assert(self@[mine[k as int].0] != other@[mine[k as int].0]);
                        return false;
                    }
                },
                None => {
                    proof {
                        if other@.contains_key(mine[k as int].0) {
                            let i = choose|i: int|
                                0 <= i < theirs.len() && (#[trigger] theirs[i]).0 == mine[k as int].0;
                            assert(other.entries[i].0@ == self.entries[k as int].0@);
                        }
                        assert(self@.contains_key(mine[k as int].0));
                    }
                    return false;
                },
            }
            k += 1;
        }
        proof {
            assert forall|name: Seq<char>| self@.dom().contains(name) implies other@.dom().contains(
                name,
            ) by {
                let i = choose|i: int| 0 <= i < mine.len() && (#[trigger] mine[i]).0 == name;
                assert(other@.contains_key(mine[i].0));
            }
            vstd::set_lib::lemma_subset_equality(self@.dom(), other@.dom());
            assert forall|name: Seq<char>| self@.dom().contains(name) implies self@[name]
                == other@[name] by {
                let i = choose|i: int| 0 <= i < mine.len() && (#[trigger] mine[i]).0 == name;
                lemma_map_of_value(mine, i);
                assert(other@[mine[i].0] == mine[i].1);
            }
            assert(self@ =~= other@);
        }
        true
    }
}

impl vstd::std_specs::cmp::PartialEqSpecImpl for Row {
    open spec fn obeys_eq_spec() -> bool {
        true
    }

    open spec fn eq_spec(&self, other: &Row) -> bool {
        self@ == other@
    }
}

impl Clone for Row {
    fn clone(&self) -> (copy: Row)
        ensures
            copy@ == self@,
    {
        Row { entries: self.entries() }
    }
}

/// One value of a fetched row, with the name and the type of its column.
#[derive(Clone, Debug, PartialEq, Eq)]
pub struct ResultCell {
    pub name: String,
    pub data_type: String,
    /// The value as JSON, or nothing for the database's null.
    pub value: Option<serde_json::Value>,
}

/// The mathematical value of a [`ResultCell`].
pub struct ResultCellView {
    pub name: Seq<char>,
    pub data_type: Seq<char>,
    pub value: Option<serde_json::Value>,
}

impl View for ResultCell {
    type V = ResultCellView;

    open spec fn view(&self) -> ResultCellView {
        ResultCellView { name: self.name@, data_type: self.data_type@, value: self.value }
    }
}

impl DeepView for ResultCell {
    type V = ResultCellView;

    open spec fn deep_view(&self) -> ResultCellView {
        self.view()
    }
}

/// One fetched row: its values in the order of the columns.
#[derive(Clone, Debug, PartialEq, Eq)]
pub struct ResultRow {
    pub cells: Vec<ResultCell>,
}

impl View for ResultRow {
    type V = Seq<ResultCellView>;

    open spec fn view(&self) -> Seq<ResultCellView> {
        self.cells.deep_view()
    }
}

impl DeepView for ResultRow {
    type V = Seq<ResultCellView>;

    open spec fn deep_view(&self) -> Seq<ResultCellView> {
        self.view()
    }
}

/// The result of one statement.
#[derive(Clone, Debug, PartialEq, Eq)]
pub struct QueryResult {
    /// When the statement ran, in seconds since the Unix epoch.
    pub timestamp: u64,
    pub query: String,
    pub rows_affected: Option<u64>,
    pub execution_time_ms: u64,
    pub columns: Vec<ColumnDefinition>,
    pub rows: Vec<Row>,
    pub warnings: Vec<String>,
    pub result_index: usize,
}

/// The mathematical value of a [`QueryResult`].
pub struct QueryResultView {
    pub timestamp: u64,
    pub query: Seq<char>,
    pub rows_affected: Option<u64>,
    pub execution_time_ms: u64,
    pub columns: Seq<ColumnDefinitionView>,
    pub rows: Seq<Map<Seq<char>, Seq<char>>>,
    pub warnings: Seq<Seq<char>>,
    pub result_index: usize,
}

impl View for QueryResult {
    type V = QueryResultView;

    open spec fn view(&self) -> QueryResultView {
        QueryResultView {
            timestamp: self.timestamp,
            query: self.query@,
            rows_affected: self.rows_affected,
            execution_time_ms: self.execution_time_ms,
            columns: self.columns.deep_view(),
            rows: self.rows.deep_view(),
            warnings: self.warnings.deep_view(),
            result_index: self.result_index,
        }
    }
}

/// The text that stands for a value: its own text, or `NULL` where there is
/// no value.
pub open spec fn text_or_null_of(text: Option<Seq<char>>) -> Seq<char> {
    match text {
        Some(t) => t,
        None => "NULL"@,
    }
}

/// The text of a fetched value: the value written as compact JSON, or `NULL`
/// for the database's null.
pub open spec fn cell_text_of(value: Option<serde_json::Value>) -> Seq<char> {
    text_or_null_of(
        match value {
            Some(v) => Some(json_text(v)),
            None => None,
        },
    )
}

/// The definition of the column that a cell belongs to.
pub open spec fn definition_of(cell: ResultCellView) -> ColumnDefinitionView {
    ColumnDefinitionView {
        name: cell.name,
        data_type: cell.data_type,
        nullable: true,
        primary_key: false,
        default_value: None,
    }
}

/// The definitions of the columns of a result: those of the cells of its
/// first row, and none where there is no row.
pub open spec fn definitions_of(rows: Seq<Seq<ResultCellView>>) -> Seq<ColumnDefinitionView> {
    if rows.len() == 0 {
        Seq::empty()
    } else {
        rows[0].map_values(|cell: ResultCellView| definition_of(cell))
    }
}

/// The row that a list of cells becomes: each cell's text under the name of
/// its column, a later cell replacing an earlier one of the same name.
pub open spec fn row_of(cells: Seq<ResultCellView>) -> Map<Seq<char>, Seq<char>>
    decreases cells.len(),
{
    if cells.len() == 0 {
        Map::empty()
    } else {
        row_of(cells.drop_last()).insert(cells.last().name, cell_text_of(cells.last().value))
    }
}

/// The result of the statement `sql`, run at `timestamp`, that returned
/// `rows`.
pub open spec fn query_result_of(sql: Seq<char>, timestamp: u64, rows: Seq<Seq<ResultCellView>>) -> QueryResultView {
    QueryResultView {
        timestamp: timestamp,
        query: sql,
        rows_affected: None,
        execution_time_ms: 0,
        columns: definitions_of(rows),
        rows: rows.map_values(|cells: Seq<ResultCellView>| row_of(cells)),
        warnings: Seq::empty(),
        result_index: 0,
    }
}

/// The names of a list of cells, in their order.
pub open spec fn cell_names(cells: Seq<ResultCellView>) -> Seq<Seq<char>> {
    cells.map_values(|cell: ResultCellView| cell.name)
}

/// Whether every row has the column names of the first row, as the rows that
/// one statement returns have.
pub open spec fn same_columns(rows: Seq<Seq<ResultCellView>>) -> bool {
    forall|i: int|
        0 <= i < rows.len() ==> cell_names(#[trigger] rows[i]).to_set() == cell_names(
            rows[0],
        ).to_set()
}

/// A row holds exactly the names of its cells.
pub proof fn lemma_row_names(cells: Seq<ResultCellView>)
    ensures
        row_of(cells).dom() == cell_names(cells).to_set(),
    decreases cells.len(),
{
    if cells.len() == 0 {
        assert(row_of(cells).dom() =~= cell_names(cells).to_set());
    } else {
        let head = cells.drop_last();
        lemma_row_names(head);
        assert(cell_names(cells) =~= cell_names(head).push(cells.last().name));
        assert forall|name: Seq<char>| #[trigger]
            row_of(cells).dom().contains(name) <==> cell_names(cells).to_set().contains(name) by {
            if cell_names(cells).to_set().contains(name) {
                let i = choose|i: int|
                    0 <= i < cell_names(cells).len() && cell_names(cells)[i] == name;
                if i < head.len() {
                    assert(cell_names(head)[i] == name);
                    assert(cell_names(head).to_set().contains(name));
                }
            }
            if row_of(cells).dom().contains(name) && name != cells.last().name {
                assert(cell_names(head).to_set().contains(name));
                let i = choose|i: int|
                    0 <= i < cell_names(head).len() && cell_names(head)[i] == name;
                assert(cell_names(cells)[i] == name);
            }
            if name == cells.last().name {
                assert(cell_names(cells)[cells.len() - 1] == name);
            }
        }
        assert(row_of(cells).dom() =~= cell_names(cells).to_set());
    }
}

/// The names of a list of column definitions, in their order.
pub open spec fn column_names(columns: Seq<ColumnDefinitionView>) -> Seq<Seq<char>> {
    columns.map_values(|column: ColumnDefinitionView| column.name)
}

/// Whether every row of the result holds exactly the names of the result's
/// column definitions.
pub open spec fn rows_match_columns(result: QueryResultView) -> bool {
    forall|i: int|
        0 <= i < result.rows.len() ==> (#[trigger] result.rows[i]).dom() == column_names(
            result.columns,
        ).to_set()
}

/// Where all fetched rows have the same column names, every row of the
/// result holds exactly the names of the result's column definitions.
pub proof fn lemma_rows_match_columns(sql: Seq<char>, timestamp: u64, rows: Seq<Seq<ResultCellView>>)
    requires
        same_columns(rows),
    ensures
        rows_match_columns(query_result_of(sql, timestamp, rows)),
{
    let result = query_result_of(sql, timestamp, rows);
    assert forall|i: int| 0 <= i < result.rows.len() implies (#[trigger] result.rows[i]).dom()
        == column_names(result.columns).to_set() by {
        lemma_row_names(rows[i]);
        assert(cell_names(rows[i]).to_set() == cell_names(rows[0]).to_set());
        assert(column_names(result.columns) =~= cell_names(rows[0]));
    }
}

/// The text that stands for a value: its own text, or `NULL` where there is
/// no value.
pub fn text_or_null(text: Option<String>) -> (t: String)
    ensures
        t@ == text_or_null_of(text.deep_view()),
{
    match text {
        Some(t) => t,
        None => "NULL".to_owned(),
    }
}

/// The text of a fetched value: the value written as compact JSON, or `NULL`
/// for the database's null.
pub fn cell_text(value: &Option<serde_json::Value>) -> (t: String)
    ensures
        t@ == cell_text_of(*value),
{
    match value {
        Some(v) => text_or_null(Some(to_text(v))),
        None => text_or_null(None),
    }
}

/// The column definitions that the cells of a row give.
pub fn column_definitions(cells: &Vec<ResultCell>) -> (columns: Vec<ColumnDefinition>)
    ensures
        columns.deep_view() == cells.deep_view().map_values(
            |cell: ResultCellView| definition_of(cell),
        ),
{
    let mut columns: Vec<ColumnDefinition> = Vec::new();
    let mut j: usize = 0;
    while j < cells.len()
        invariant
            j <= cells.len(),
            columns.len() == j,
            forall|k: int| 0 <= k < j ==> (#[trigger] columns[k])@ == definition_of(cells[k]@),
        decreases cells.len() - j,
    {
        columns.push(
            ColumnDefinition {
                name: cells[j].name.clone(),
                data_type: cells[j].data_type.clone(),
                nullable: true,
                primary_key: false,
                default_value: None,
            },
        );
        j += 1;
    }
    assert(columns.deep_view() =~= cells.deep_view().map_values(
        |cell: ResultCellView| definition_of(cell),
    ));
    columns
}

/// Turns the cells of a fetched row into a row of the result.
pub fn row_from_cells(cells: &Vec<ResultCell>) -> (row: Row)
    ensures
        row@ == row_of(cells.deep_view()),
{
    let ghost all = cells.deep_view();
    let mut row = Row::new();
    let mut j: usize = 0;
    while j < cells.len()
        invariant
            j <= cells.len(),
            all == cells.deep_view(),
            row@ == row_of(all.take(j as int)),
        decreases cells.len() - j,
    {
        proof {
            assert(all.take(j + 1).drop_last() =~= all.take(j as int));
        }
        row.insert(cells[j].name.clone(), cell_text(&cells[j].value));
        j += 1;
    }
    assert(all.take(j as int) =~= all);
    row
}

/// Shapes what the statement `sql` returned into a result.
///
/// The column definitions come from the first row alone. A statement that
/// returned no row gives a result without columns and without rows, which is
/// no error. Where the rows have the same column names, as the rows of one
/// statement have, every row of the result holds exactly the names of the
/// column definitions. The elapsed time is not measured and reported as
/// zero.
pub fn execute_query(sql: &str, timestamp: u64, rows: &Vec<ResultRow>) -> (result: QueryResult)
    ensures
        result@ == query_result_of(sql@, timestamp, rows.deep_view()),
        rows.len() == 0 ==> result@.columns.len() == 0 && result@.rows.len() == 0,
        same_columns(rows.deep_view()) ==> rows_match_columns(result@),
{
    proof {
        if same_columns(rows.deep_view()) {
            lemma_rows_match_columns(sql@, timestamp, rows.deep_view());
        }
    }
    let columns = if rows.len() == 0 {
        Vec::new()
    } else {
        column_definitions(&rows[0].cells)
    };
    assert(columns.deep_view() =~= definitions_of(rows.deep_view()));
    let mut result_rows: Vec<Row> = Vec::new();
    let mut i: usize = 0;
    while i < rows.len()
        invariant
            i <= rows.len(),
            result_rows.len() == i,
            forall|k: int| 0 <= k < i ==> (#[trigger] result_rows[k])@ == row_of(rows[k]@),
        decreases rows.len() - i,
    {
        result_rows.push(row_from_cells(&rows[i].cells));
        i += 1;
    }
    assert(result_rows.deep_view() =~= rows.deep_view().map_values(
        |cells: Seq<ResultCellView>| row_of(cells),
    ));
    let warnings: Vec<String> = Vec::new();
    assert(warnings.deep_view() =~= Seq::<Seq<char>>::empty());
    QueryResult {
        timestamp: timestamp,
        query: sql.to_owned(),
        rows_affected: None,
        execution_time_ms: 0,
        columns: columns,
        rows: result_rows,
        warnings: warnings,
        result_index: 0,
    }
}

} // verus!
