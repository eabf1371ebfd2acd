//! From the rows of the functions query to the functions of the database.

use vstd::prelude::*;
use crate::model::{FunctionInfo, FunctionInfoView};
use crate::text::{split_on, str_split, str_trim, trimmed};

verus! {

/// One row of the functions query.
#[derive(Clone, Debug, PartialEq, Eq)]
pub struct FunctionRow {
    pub name: String,
    pub schema: String,
    /// The signature of the arguments, joined by commas.
    pub arguments: String,
    pub return_type: String,
    pub definition: String,
}

/// The mathematical value of a [`FunctionRow`].
pub struct FunctionRowView {
    pub name: Seq<char>,
    pub schema: Seq<char>,
    pub arguments: Seq<char>,
    pub return_type: Seq<char>,
    pub definition: Seq<char>,
}

impl View for FunctionRow {
    type V = FunctionRowView;

    open spec fn view(&self) -> FunctionRowView {
        FunctionRowView {
            name: self.name@,
            schema: self.schema@,
            arguments: self.arguments@,
            return_type: self.return_type@,
            definition: self.definition@,
        }
    }
}

impl DeepView for FunctionRow {
    type V = FunctionRowView;

    open spec fn deep_view(&self) -> FunctionRowView {
        self.view()
    }
}

/// The arguments of a signature: its pieces between the commas, each without
/// the white space around it. A comma inside an argument's type cuts the
/// argument in two, and the empty signature has one empty argument.
pub open spec fn arguments_of(signature: Seq<char>) -> Seq<Seq<char>> {
    split_on(signature, ',').map_values(|piece: Seq<char>| trimmed(piece))
}

/// The function that a row describes.
pub open spec fn function_of(row: FunctionRowView) -> FunctionInfoView {
    FunctionInfoView {
        name: row.name,
        schema: row.schema,
        arguments: arguments_of(row.arguments),
        return_type: Some(row.return_type),
        definition: Some(row.definition),
    }
}

/// The functions that the rows describe, one for each row, in the order of
/// the rows.
pub open spec fn functions_of(rows: Seq<FunctionRowView>) -> Seq<FunctionInfoView> {
    rows.map_values(|row: FunctionRowView| function_of(row))
}

/// Trims each of the pieces of a signature.
pub fn trim_arguments(pieces: &Vec<String>) -> (arguments: Vec<String>)
    ensures
        arguments.deep_view() == pieces.deep_view().map_values(|piece: Seq<char>| trimmed(piece)),
{
    let mut arguments: Vec<String> = Vec::new();
    let mut i: usize = 0;
    while i < pieces.len()
        invariant
            i <= pieces.len(),
            arguments.len() == i,
            forall|j: int| 0 <= j < i ==> (#[trigger] arguments[j])@ == trimmed(pieces[j]@),
        decreases pieces.len() - i,
    {
        arguments.push(str_trim(pieces[i].as_str()));
        i += 1;
    }
    assert(arguments.deep_view() =~= pieces.deep_view().map_values(
        |piece: Seq<char>| trimmed(piece),
    ));
    arguments
}

/// Splits the signature of a function's arguments at its commas and trims
/// each piece.
pub fn split_arguments(signature: &str) -> (arguments: Vec<String>)
    ensures
        arguments.deep_view() == arguments_of(signature@),
{
    let pieces = str_split(signature, ',');
    trim_arguments(&pieces)
}

/// Builds the function that one row describes.
pub fn function_from_row(row: &FunctionRow) -> (function: FunctionInfo)
    ensures
        function@ == function_of(row@),
{
    FunctionInfo {
        name: row.name.clone(),
        schema: row.schema.clone(),
        arguments: split_arguments(row.arguments.as_str()),
        return_type: Some(row.return_type.clone()),
        definition: Some(row.definition.clone()),
    }
}

/// Builds the functions of the database from the rows of the functions
/// query, one function for each row, in their order.
pub fn get_functions(rows: &Vec<FunctionRow>) -> (functions: Vec<FunctionInfo>)
    ensures
        functions.deep_view() == functions_of(rows.deep_view()),
{
    let mut functions: Vec<FunctionInfo> = Vec::new();
    let mut i: usize = 0;
    while i < rows.len()
        invariant
            i <= rows.len(),
            functions.len() == i,
            forall|j: int| 0 <= j < i ==> (#[trigger] functions[j])@ == function_of(rows[j]@),
        decreases rows.len() - i,
    {
        functions.push(function_from_row(&rows[i]));
        i += 1;
    }
    assert(functions.deep_view() =~= functions_of(rows.deep_view()));
    functions
}

} // verus!
