//! The snapshot of a whole schema.

use vstd::prelude::*;
use crate::model::{
    ConstraintInfo, ConstraintInfoView, FunctionInfo, FunctionInfoView, SchemaInfo,
    SchemaInfoView, TableInfo, TableInfoView, ViewInfo, ViewInfoView,
};

verus! {

/// The constraints of all tables, table after table, each table's in their
/// own order.
pub open spec fn all_constraints(tables: Seq<TableInfoView>) -> Seq<ConstraintInfoView> {
    tables.map_values(|table: TableInfoView| table.constraints).flatten()
}

/// The snapshot that the tables, views and functions of a database make. It
/// goes by the name `public` and lists the constraints of all its tables once
/// more on their own.
pub open spec fn schema_of(
    tables: Seq<TableInfoView>,
    views: Seq<ViewInfoView>,
    functions: Seq<FunctionInfoView>,
) -> SchemaInfoView {
    SchemaInfoView {
        name: "public"@,
        tables: tables,
        views: views,
        functions: functions,
        constraints: all_constraints(tables),
    }
}

/// What the table at `i` adds to the constraints of the tables before it.
pub proof fn lemma_all_constraints_step(tables: Seq<TableInfoView>, i: int)
    requires
        0 <= i < tables.len(),
    ensures
        all_constraints(tables.take(i + 1)) == all_constraints(tables.take(i))
            + tables[i].constraints,
{
    let pick = |table: TableInfoView| table.constraints;
    assert(tables.take(i + 1).map_values(pick) =~= tables.take(i).map_values(pick).push(
        tables[i].constraints,
    ));
    tables.take(i).map_values(pick).lemma_flatten_push(tables[i].constraints);
}

/// A database without tables has no constraints.
pub proof fn lemma_no_tables_no_constraints()
    ensures
        all_constraints(Seq::empty()) == Seq::<ConstraintInfoView>::empty(),
{
    let pick = |table: TableInfoView| table.constraints;
    assert(Seq::<TableInfoView>::empty().map_values(pick) =~= Seq::empty());
}

/// Collects copies of the constraints of all tables, in the order of the
/// tables.
pub fn collect_constraints(tables: &Vec<TableInfo>) -> (constraints: Vec<ConstraintInfo>)
    ensures
        constraints.deep_view() == all_constraints(tables.deep_view()),
{
    let ghost all = tables.deep_view();
    let mut constraints: Vec<ConstraintInfo> = Vec::new();
    let mut i: usize = 0;
    proof {
        lemma_no_tables_no_constraints();
        assert(all.take(0) =~= Seq::empty());
        assert(constraints.deep_view() =~= Seq::empty());
    }
    while i < tables.len()
        invariant
            i <= tables.len(),
            all == tables.deep_view(),
            constraints.deep_view() == all_constraints(all.take(i as int)),
        decreases tables.len() - i,
    {
        let table = &tables[i];
        let ghost base = constraints.deep_view();
        let ghost own = table.constraints.deep_view();
        let mut j: usize = 0;
        proof {
            assert(own == all[i as int].constraints);
            assert(constraints.deep_view() =~= base + own.take(0));
        }
        while j < table.constraints.len()
            invariant
                j <= table.constraints.len(),
                own == table.constraints.deep_view(),
                constraints.deep_view() == base + own.take(j as int),
            decreases table.constraints.len() - j,
        {
            let ghost before = constraints.deep_view();
            let copy = table.constraints[j].duplicate();
            constraints.push(copy);
            proof {
                assert(constraints.deep_view() =~= before.push(copy@));
                assert(own.take(j + 1) =~= own.take(j as int).push(own[j as int]));
                assert(constraints.deep_view() =~= base + own.take(j + 1));
            }
            j += 1;
        }
        proof {
            assert(own.take(j as int) =~= own);
            lemma_all_constraints_step(all, i as int);
        }
        i += 1;
    }
    proof {
        assert(all.take(i as int) =~= all);
    }
    constraints
}

/// Assembles the snapshot of a schema from its tables, views and functions.
///
/// The snapshot lists the constraints of every table a second time, flattened
/// into one list in the order of the tables. They are taken from the tables
/// themselves, so the catalog is not asked for them again.
pub fn get_schema_info(tables: Vec<TableInfo>, views: Vec<ViewInfo>, functions: Vec<FunctionInfo>) -> (schema: SchemaInfo)
    ensures
        schema@ == schema_of(tables.deep_view(), views.deep_view(), functions.deep_view()),
{
    let constraints = collect_constraints(&tables);
    SchemaInfo {
        name: "public".to_owned(),
        tables: tables,
        views: views,
        functions: functions,
        constraints: constraints,
    }
}

} // verus!
