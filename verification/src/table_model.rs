//! The fixed-shape table model behind the summaries view: five rows of three
//! columns.

use vstd::prelude::*;

verus! {

/// The summaries view's table model: an id and the cell triples.
#[derive(Debug, PartialEq, Eq)]
pub struct TableModel {
    pub id: u32,
    pub v: Vec<(i32, i32, i32)>,
}

impl TableModel {
    /// The model's fixed row count.
    pub fn row_count(&self) -> (r: i32)
        ensures
            r == 5,
    {
        5
    }

    /// The model's fixed column count.
    pub fn column_count(&self) -> (r: i32)
        ensures
            r == 3,
    {
        3
    }
}

} // verus!
