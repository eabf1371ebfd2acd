//! The normalized description of a schema, and the mathematical value of
//! each of its parts.

use vstd::prelude::*;
use crate::category::ColumnTypeCategory;
use crate::text::{clone_text, clone_texts};

verus! {

/// The kind of a constraint.
#[derive(Clone, Copy, Debug, PartialEq, Eq, Structural)]
pub enum ConstraintType {
    PrimaryKey,
    ForeignKey,
    Unique,
    Check,
    Exclusion,
}

/// What a foreign key points at, and what happens when the target changes.
#[derive(Clone, Debug, PartialEq, Eq)]
pub struct ForeignKeyReference {
    pub referenced_schema: String,
    pub referenced_table: String,
    pub referenced_column: String,
    pub on_update: Option<String>,
    pub on_delete: Option<String>,
}

/// The mathematical value of a [`ForeignKeyReference`].
pub struct ForeignKeyReferenceView {
    pub referenced_schema: Seq<char>,
    pub referenced_table: Seq<char>,
    pub referenced_column: Seq<char>,
    pub on_update: Option<Seq<char>>,
    pub on_delete: Option<Seq<char>>,
}

impl View for ForeignKeyReference {
    type V = ForeignKeyReferenceView;

    open spec fn view(&self) -> ForeignKeyReferenceView {
        ForeignKeyReferenceView {
            referenced_schema: self.referenced_schema@,
            referenced_table: self.referenced_table@,
            referenced_column: self.referenced_column@,
            on_update: self.on_update.deep_view(),
            on_delete: self.on_delete.deep_view(),
        }
    }
}

impl DeepView for ForeignKeyReference {
    type V = ForeignKeyReferenceView;

    open spec fn deep_view(&self) -> ForeignKeyReferenceView {
        self.view()
    }
}

impl ForeignKeyReference {
    /// A copy of the reference.
    pub fn duplicate(&self) -> (copy: ForeignKeyReference)
        ensures
            copy@ == self@,
    {
        ForeignKeyReference {
            referenced_schema: self.referenced_schema.clone(),
            referenced_table: self.referenced_table.clone(),
            referenced_column: self.referenced_column.clone(),
            on_update: clone_text(&self.on_update),
            on_delete: clone_text(&self.on_delete),
        }
    }
}

/// One column of a table.
#[derive(Clone, Debug, PartialEq, Eq)]
pub struct ColumnInfo {
    pub name: String,
    pub data_type: String,
    pub type_category: ColumnTypeCategory,
    pub nullable: bool,
    pub primary_key: bool,
    pub auto_increment: bool,
    pub indexed: bool,
    pub unique: bool,
    pub char_max_length: Option<u32>,
    pub numeric_precision: Option<u32>,
    pub numeric_scale: Option<u32>,
    pub default_value: Option<String>,
    pub comment: Option<String>,
    pub position: Option<u32>,
    pub foreign_key: Option<ForeignKeyReference>,
    pub display_hint: Option<String>,
}

/// The mathematical value of a [`ColumnInfo`].
pub struct ColumnInfoView {
    pub name: Seq<char>,
    pub data_type: Seq<char>,
    pub type_category: ColumnTypeCategory,
    pub nullable: bool,
    pub primary_key: bool,
    pub auto_increment: bool,
    pub indexed: bool,
    pub unique: bool,
    pub char_max_length: Option<u32>,
    pub numeric_precision: Option<u32>,
    pub numeric_scale: Option<u32>,
    pub default_value: Option<Seq<char>>,
    pub comment: Option<Seq<char>>,
    pub position: Option<u32>,
    pub foreign_key: Option<ForeignKeyReferenceView>,
    pub display_hint: Option<Seq<char>>,
}

impl View for ColumnInfo {
    type V = ColumnInfoView;

    open spec fn view(&self) -> ColumnInfoView {
        ColumnInfoView {
            name: self.name@,
            data_type: self.data_type@,
            type_category: self.type_category,
            nullable: self.nullable,
            primary_key: self.primary_key,
            auto_increment: self.auto_increment,
            indexed: self.indexed,
            unique: self.unique,
            char_max_length: self.char_max_length,
            numeric_precision: self.numeric_precision,
            numeric_scale: self.numeric_scale,
            default_value: self.default_value.deep_view(),
            comment: self.comment.deep_view(),
            position: self.position,
            foreign_key: self.foreign_key.deep_view(),
            display_hint: self.display_hint.deep_view(),
        }
    }
}

impl DeepView for ColumnInfo {
    type V = ColumnInfoView;

    open spec fn deep_view(&self) -> ColumnInfoView {
        self.view()
    }
}

/// One constraint of a table.
#[derive(Clone, Debug, PartialEq, Eq)]
pub struct ConstraintInfo {
    pub name: String,
    pub constraint_type: ConstraintType,
    pub table_name: String,
    pub schema_name: String,
    pub column_names: Vec<String>,
    pub foreign_key_reference: Option<ForeignKeyReference>,
    pub check_definition: Option<String>,
}

/// The mathematical value of a [`ConstraintInfo`].
pub struct ConstraintInfoView {
    pub name: Seq<char>,
    pub constraint_type: ConstraintType,
    pub table_name: Seq<char>,
    pub schema_name: Seq<char>,
    pub column_names: Seq<Seq<char>>,
    pub foreign_key_reference: Option<ForeignKeyReferenceView>,
    pub check_definition: Option<Seq<char>>,
}

impl View for ConstraintInfo {
    type V = ConstraintInfoView;

    open spec fn view(&self) -> ConstraintInfoView {
        ConstraintInfoView {
            name: self.name@,
            constraint_type: self.constraint_type,
            table_name: self.table_name@,
            schema_name: self.schema_name@,
            column_names: self.column_names.deep_view(),
            foreign_key_reference: self.foreign_key_reference.deep_view(),
            check_definition: self.check_definition.deep_view(),
        }
    }
}

impl DeepView for ConstraintInfo {
    type V = ConstraintInfoView;

    open spec fn deep_view(&self) -> ConstraintInfoView {
        self.view()
    }
}

impl ConstraintInfo {
    /// A copy of the constraint.
    pub fn duplicate(&self) -> (copy: ConstraintInfo)
        ensures
            copy@ == self@,
    {
        let foreign_key_reference = match &self.foreign_key_reference {
            Some(reference) => Some(reference.duplicate()),
            None => None,
        };
        ConstraintInfo {
            name: self.name.clone(),
            constraint_type: self.constraint_type,
            table_name: self.table_name.clone(),
            schema_name: self.schema_name.clone(),
            column_names: clone_texts(&self.column_names),
            foreign_key_reference: foreign_key_reference,
            check_definition: clone_text(&self.check_definition),
        }
    }
}

/// One index of a table.
#[derive(Clone, Debug, PartialEq, Eq)]
pub struct IndexInfo {
    pub name: String,
    pub schema: String,
    pub table: String,
    pub is_unique: bool,
    pub is_primary: bool,
    pub column_names: Vec<String>,
    pub method: Option<String>,
}

/// The mathematical value of an [`IndexInfo`].
pub struct IndexInfoView {
    pub name: Seq<char>,
    pub schema: Seq<char>,
    pub table: Seq<char>,
    pub is_unique: bool,
    pub is_primary: bool,
    pub column_names: Seq<Seq<char>>,
    pub method: Option<Seq<char>>,
}

impl View for IndexInfo {
    type V = IndexInfoView;

    open spec fn view(&self) -> IndexInfoView {
        IndexInfoView {
            name: self.name@,
            schema: self.schema@,
            table: self.table@,
            is_unique: self.is_unique,
            is_primary: self.is_primary,
            column_names: self.column_names.deep_view(),
            method: self.method.deep_view(),
        }
    }
}

impl DeepView for IndexInfo {
    type V = IndexInfoView;

    open spec fn deep_view(&self) -> IndexInfoView {
        self.view()
    }
}

/// One table with everything known about it.
#[derive(Clone, Debug, PartialEq, Eq)]
pub struct TableInfo {
    pub name: String,
    pub schema: String,
    pub columns: Vec<ColumnInfo>,
    pub constraints: Vec<ConstraintInfo>,
    pub indices: Vec<IndexInfo>,
    pub primary_key_columns: Vec<String>,
    pub row_count_estimate: Option<u64>,
    pub size_bytes: Option<u64>,
    pub comment: Option<String>,
    pub last_modified: Option<String>,
}

/// The mathematical value of a [`TableInfo`].
pub struct TableInfoView {
    pub name: Seq<char>,
    pub schema: Seq<char>,
    pub columns: Seq<ColumnInfoView>,
    pub constraints: Seq<ConstraintInfoView>,
    pub indices: Seq<IndexInfoView>,
    pub primary_key_columns: Seq<Seq<char>>,
    pub row_count_estimate: Option<u64>,
    pub size_bytes: Option<u64>,
    pub comment: Option<Seq<char>>,
    pub last_modified: Option<Seq<char>>,
}

impl View for TableInfo {
    type V = TableInfoView;

    open spec fn view(&self) -> TableInfoView {
        TableInfoView {
            name: self.name@,
            schema: self.schema@,
            columns: self.columns.deep_view(),
            constraints: self.constraints.deep_view(),
            indices: self.indices.deep_view(),
            primary_key_columns: self.primary_key_columns.deep_view(),
            row_count_estimate: self.row_count_estimate,
            size_bytes: self.size_bytes,
            comment: self.comment.deep_view(),
            last_modified: self.last_modified.deep_view(),
        }
    }
}

impl DeepView for TableInfo {
    type V = TableInfoView;

    open spec fn deep_view(&self) -> TableInfoView {
        self.view()
    }
}

/// The names of the columns that are part of the primary key, in the order
/// of the columns.
pub open spec fn primary_key_names(columns: Seq<ColumnInfoView>) -> Seq<Seq<char>> {
    columns.filter(|c: ColumnInfoView| c.primary_key).map_values(|c: ColumnInfoView| c.name)
}

impl TableInfoView {
    /// A table is well formed when its list of primary-key columns is the one
    /// that its columns give.
    pub open spec fn well_formed(self) -> bool {
        self.primary_key_columns == primary_key_names(self.columns)
    }
}

/// One view of the database.
#[derive(Clone, Debug, PartialEq, Eq)]
pub struct ViewInfo {
    pub name: String,
    pub schema: String,
    pub columns: Vec<ColumnInfo>,
    pub definition: Option<String>,
}

/// The mathematical value of a [`ViewInfo`].
pub struct ViewInfoView {
    pub name: Seq<char>,
    pub schema: Seq<char>,
    pub columns: Seq<ColumnInfoView>,
    pub definition: Option<Seq<char>>,
}

impl View for ViewInfo {
    type V = ViewInfoView;

    open spec fn view(&self) -> ViewInfoView {
        ViewInfoView {
            name: self.name@,
            schema: self.schema@,
            columns: self.columns.deep_view(),
            definition: self.definition.deep_view(),
        }
    }
}

impl DeepView for ViewInfo {
    type V = ViewInfoView;

    open spec fn deep_view(&self) -> ViewInfoView {
        self.view()
    }
}

/// One function or procedure of the database.
#[derive(Clone, Debug, PartialEq, Eq)]
pub struct FunctionInfo {
    pub name: String,
    pub schema: String,
    pub arguments: Vec<String>,
    pub return_type: Option<String>,
    pub definition: Option<String>,
}

/// The mathematical value of a [`FunctionInfo`].
pub struct FunctionInfoView {
    pub name: Seq<char>,
    pub schema: Seq<char>,
    pub arguments: Seq<Seq<char>>,
    pub return_type: Option<Seq<char>>,
    pub definition: Option<Seq<char>>,
}

impl View for FunctionInfo {
    type V = FunctionInfoView;

    open spec fn view(&self) -> FunctionInfoView {
        FunctionInfoView {
            name: self.name@,
            schema: self.schema@,
            arguments: self.arguments.deep_view(),
            return_type: self.return_type.deep_view(),
            definition: self.definition.deep_view(),
        }
    }
}

impl DeepView for FunctionInfo {
    type V = FunctionInfoView;

    open spec fn deep_view(&self) -> FunctionInfoView {
        self.view()
    }
}

/// A snapshot of a whole schema.
#[derive(Clone, Debug, PartialEq, Eq)]
pub struct SchemaInfo {
    pub name: String,
    pub tables: Vec<TableInfo>,
    pub views: Vec<ViewInfo>,
    pub functions: Vec<FunctionInfo>,
    pub constraints: Vec<ConstraintInfo>,
}

/// The mathematical value of a [`SchemaInfo`].
pub struct SchemaInfoView {
    pub name: Seq<char>,
    pub tables: Seq<TableInfoView>,
    pub views: Seq<ViewInfoView>,
    pub functions: Seq<FunctionInfoView>,
    pub constraints: Seq<ConstraintInfoView>,
}

impl View for SchemaInfo {
    type V = SchemaInfoView;

    open spec fn view(&self) -> SchemaInfoView {
        SchemaInfoView {
            name: self.name@,
            tables: self.tables.deep_view(),
            views: self.views.deep_view(),
            functions: self.functions.deep_view(),
            constraints: self.constraints.deep_view(),
        }
    }
}

impl DeepView for SchemaInfo {
    type V = SchemaInfoView;

    open spec fn deep_view(&self) -> SchemaInfoView {
        self.view()
    }
}

} // verus!
