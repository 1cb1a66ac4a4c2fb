use vstd::prelude::*;

verus! {

/// A display string of the grid, tagged as header text or cell text.
#[derive(Clone)]
pub enum Cell {
    HEAD(String),
    ELM(String),
}

/// `c` is the display of `value`: header text where `head`, else cell
/// text, an empty cell text where there is no value.
pub open spec fn shows(c: Cell, head: bool, value: Option<Seq<char>>) -> bool {
    match c {
        Cell::HEAD(s) => head && value == Some(s@),
        Cell::ELM(s) => if head {
            value is None && s@ == Seq::<char>::empty()
        } else {
            match value {
                Some(v) => s@ == v,
                None => s@ == Seq::<char>::empty(),
            }
        },
    }
}

/// Display of a header name.
pub fn header_cell(value: Option<String>) -> (c: Cell)
    ensures
        shows(c, true, crate::data_state::opt_view(value)),
{
    match value {
        Some(s) => Cell::HEAD(s),
        None => Cell::ELM(String::new()),
    }
}

/// Display of a cell value.
pub fn data_cell(value: Option<String>) -> (c: Cell)
    ensures
        shows(c, false, crate::data_state::opt_view(value)),
{
    match value {
        Some(s) => Cell::ELM(s),
        None => Cell::ELM(String::new()),
    }
}

} // verus!
