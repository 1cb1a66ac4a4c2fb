use vstd::prelude::*;

use crate::data_state::Row;

verus! {

/// A header column as the host describes it: a name and a pixel width.
pub struct Column {
    pub name: String,
    pub width: usize,
}

/// A first page of data: the header, the rows loaded so far and the number
/// of rows the whole table has.
pub struct InitialData {
    pub header: Vec<Column>,
    pub rows: Vec<Row>,
    pub total: usize,
}

/// What lies under a point of the surface: the row record (none on the
/// header row), the column, the row's render position, the column's position
/// in the shown range, and the top-left corner of the cell in pixels.
pub struct CellData {
    pub row: Option<Row>,
    pub col: Option<Column>,
    pub row_index: usize,
    pub col_index: usize,
    pub x: usize,
    pub y: usize,
}

} // verus!
