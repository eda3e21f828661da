//! The columns of the architecture tree.

use vstd::prelude::*;

verus! {

/// The model column that holds the name of a block or the class of a layer.
pub const STRUCTURE_COLUMN: i32 = 0;

/// The model column that holds the number of parameters.
pub const PARAMS_COLUMN: i32 = 1;

/// The widest that a column of the tree is drawn, in pixels.
pub const COLUMN_MAX_WIDTH: i32 = 250;

/// The cell attribute that a column binds to its model column.
pub const COLUMN_ATTRIBUTE: &'static str = "text";

/// The title over the view column that shows model column `id`.
pub open spec fn title_of(id: i32) -> Seq<char> {
    if id == STRUCTURE_COLUMN {
        "Structure"@
    } else if id == PARAMS_COLUMN {
        "Params"@
    } else {
        ".."@
    }
}

/// The title over the view column that shows model column `id`. A column
/// that the model does not have is titled with two dots.
pub fn column_title(id: i32) -> (title: &'static str)
    ensures
        title@ == title_of(id),
{
    match id {
        0 => "Structure",
        1 => "Params",
        _ => "..",
    }
}

} // verus!
