use vstd::prelude::*;

use crate::adapter;
use crate::data_state::{Column, DataState, FieldType, Row};
use crate::renderer::{data_cell, header_cell, shows, Cell};
use crate::visibility_state::{seq_sum, vertical_bar, visible_row_count, ScrollBar, Viewport};

verus! {

/// Pixel widths of the shown columns `range`, out of all widths `ws`.
pub open spec fn shown_widths(ws: Seq<usize>, range: Seq<usize>) -> Seq<usize> {
    range.map_values(|i: usize| ws[i as int])
}

/// Walking the shown column widths `ws` from position `k`, `origin` pixels in:
/// the first position whose right edge lies past `x`, with its left edge.
pub open spec fn col_hit(ws: Seq<usize>, x: int, k: int, origin: int) -> Option<(int, int)>
    decreases ws.len() - k,
{
    if k < 0 || k >= ws.len() {
        None
    } else if origin + ws[k] > x {
        Some((k, origin))
    } else {
        col_hit(ws, x, k + 1, origin + ws[k])
    }
}

pub proof fn lemma_col_hit_bounds(ws: Seq<usize>, x: int, k: int, origin: int)
    requires
        0 <= k,
    ensures
        col_hit(ws, x, k, origin) matches Some(h) ==> k <= h.0 < ws.len(),
    decreases ws.len() - k,
{
    if k < ws.len() && origin + ws[k] <= x {
        lemma_col_hit_bounds(ws, x, k + 1, origin + ws[k]);
    }
}

pub proof fn lemma_col_hit_inside(ws: Seq<usize>, x: int, k: int, origin: int)
    requires
        0 <= k <= ws.len(),
        origin <= x,
        origin == seq_sum(ws.subrange(0, k)),
    ensures
        col_hit(ws, x, k, origin) matches Some(h) ==> 0 <= h.0 < ws.len() && h.1 == seq_sum(ws.subrange(0, h.0))
            && h.1 <= x < h.1 + ws[h.0],
    decreases ws.len() - k,
{
    if k < ws.len() && origin + ws[k] <= x {
        assert(ws.subrange(0, k + 1).drop_last() =~= ws.subrange(0, k));
        lemma_col_hit_inside(ws, x, k + 1, origin + ws[k]);
    }
}

/// Left edge of the last shown column, 0 where none is shown.
pub open spec fn miss_origin(ws: Seq<usize>) -> int {
    if ws.len() > 0 {
        seq_sum(ws.drop_last())
    } else {
        0
    }
}

/// Position, among the shown column widths `ws`, of the column under `x`, and
/// the left edge of the column found (or of the last column).
pub fn locate_column(ws: &Vec<usize>, x: usize) -> (r: (Option<usize>, usize))
    ensures
        match col_hit(ws@, x as int, 0, 0) {
            Some(hit) => r.0 == Some(hit.0 as usize) && r.1 == hit.1,
            None => r.0 is None && r.1 == miss_origin(ws@),
        },
{
    let mut origin: usize = 0;
    let mut prev: usize = 0;
    let mut k: usize = 0;
    assert(ws@.subrange(0, 0) =~= Seq::<usize>::empty());
    while k < ws.len()
        invariant
            k <= ws@.len(),
            origin <= x,
            origin == seq_sum(ws@.subrange(0, k as int)),
            prev == (if k == 0 { 0 } else { seq_sum(ws@.subrange(0, k - 1)) }),
            col_hit(ws@, x as int, k as int, origin as int) == col_hit(ws@, x as int, 0, 0),
        decreases ws@.len() - k,
    {
        let w = ws[k];
        prev = origin;
        if x - origin < w {
            return (Some(k), origin);
        }
        assert(ws@.subrange(0, k + 1).drop_last() =~= ws@.subrange(0, k as int));
        origin = origin + w;
        k += 1;
    }
    proof {
        if ws@.len() > 0 {
            assert(ws@.drop_last() =~= ws@.subrange(0, ws@.len() - 1));
        }
    }
    (None, prev)
}

/// What one frame shows: the column-major display grid, the widths of the
/// shown columns, the row height and the two scrollbar thumbs.
pub struct Frame {
    pub grid: Vec<Vec<Cell>>,
    pub col_widths: Vec<usize>,
    pub row_height: usize,
    pub vertical: Option<ScrollBar>,
    pub horizontal: Option<ScrollBar>,
}

/// The grid engine: the loaded table, the scroll position and the size of
/// the surface it is shown on, in pixels.
pub struct DataGrid {
    pub data_state: DataState,
    pub viewport: Viewport,
    pub width: usize,
    pub height: usize,
}

impl DataGrid {
    pub open spec fn wf(&self) -> bool {
        &&& self.data_state.wf()
        &&& self.viewport.wf()
        &&& self.viewport.row_height > 0
        &&& self.viewport.min_col() <= self.data_state.widths().len()
    }

    /// Shown rows, in display order.
    pub open spec fn row_range(&self) -> Seq<usize> {
        self.viewport.rows_range(self.height as int)
    }

    /// Shown columns, in display order.
    pub open spec fn col_range(&self) -> Seq<usize> {
        self.viewport.cols_range(self.data_state.widths(), self.width as int)
    }

    /// Buffer index of the row drawn at render position `row_index` (> 0).
    pub open spec fn buffer_row(&self, row_index: int) -> int {
        row_index + self.viewport.cur_row - 1
    }

    /// True when the shown window reaches past the buffered rows.
    pub open spec fn needs_more_data(&self) -> bool {
        self.viewport.cur_row + (self.height as int) / (self.viewport.row_height as int) > self.data_state.rows().len()
    }

    /// A point inside the drawn grid locates the cell that the frame draws
    /// there: the row at the point's render position is the buffer row that
    /// the locator resolves (the header sentinel on the first), and the
    /// column found is the shown column whose left and right edges, as the
    /// frame lays the shown widths side by side, enclose `x`.
    pub proof fn lemma_locate_matches_frame(&self, x: int, y: int)
        requires
            self.wf(),
            self.viewport.fixed_row == 0,
            self.viewport.cur_row >= 1,
            self.viewport.cur_row + visible_row_count(self.height as int, self.viewport.row_height as int)
                <= usize::MAX,
            0 <= x,
            0 <= y,
            y / (self.viewport.row_height as int) < self.row_range().len(),
            col_hit(shown_widths(self.data_state.widths(), self.col_range()), x, 0, 0) is Some,
        ensures
            ({
                let ri = y / (self.viewport.row_height as int);
                &&& ri == 0 ==> self.row_range()[ri] == 0
                &&& ri > 0 ==> self.row_range()[ri] == self.buffer_row(ri)
                &&& ri > 0 && self.buffer_row(ri) < self.data_state.rows().len() ==> self.located_row(y)
                    == Some(self.data_state.rows()[self.row_range()[ri] as int])
            }),
            ({
                let ws = shown_widths(self.data_state.widths(), self.col_range());
                let h = col_hit(ws, x, 0, 0).unwrap();
                &&& 0 <= h.0 < self.col_range().len()
                &&& h.1 == seq_sum(ws.subrange(0, h.0))
                &&& h.1 <= x < h.1 + ws[h.0]
                &&& ws[h.0] == self.data_state.widths()[self.col_range()[h.0] as int]
            }),
    {
        let ri = y / (self.viewport.row_height as int);
        let vc = visible_row_count(self.height as int, self.viewport.row_height as int);
        assert(ri >= 0) by (nonlinear_arith)
            requires
                ri == y / (self.viewport.row_height as int),
                y >= 0,
                self.viewport.row_height > 0,
        ;
        assert(self.row_range().len() <= vc);
        if ri > 0 {
            assert(self.row_range()[ri] == (self.viewport.cur_row + ri - 1) as usize);
        }
        let ws = shown_widths(self.data_state.widths(), self.col_range());
        assert(ws.subrange(0, 0) =~= Seq::<usize>::empty());
        lemma_col_hit_inside(ws, x, 0, 0);
    }

    /// A new grid with an empty buffer asks for rows; once the buffer covers
    /// the shown window it no longer does.
    pub proof fn lemma_needs_more_data(&self)
        requires
            self.viewport.row_height > 0,
        ensures
            self.viewport == Viewport::new_spec() && self.data_state.rows().len() == 0 ==> self.needs_more_data(),
            self.data_state.rows().len() >= self.viewport.cur_row + (self.height as int) / (
            self.viewport.row_height as int) ==> !self.needs_more_data(),
    {
        assert((self.height as int) / (self.viewport.row_height as int) >= 0) by (nonlinear_arith)
            requires
                self.viewport.row_height > 0,
        ;
    }

    pub fn new(width: usize, height: usize) -> (r: Self)
        ensures
            r.wf(),
            r.width == width,
            r.height == height,
            r.viewport == Viewport::new_spec(),
            r.data_state.header().len() == 0,
            r.data_state.rows().len() == 0,
            r.data_state.total() == 0,
    {
        DataGrid { data_state: DataState::new(), viewport: Viewport::new(), width, height }
    }

    /// Takes the header from the host's columns: names in order, each a
    /// string field, and their widths.
    pub fn set_header(&mut self, columns: Vec<adapter::Column>)
        requires
            old(self).wf(),
            old(self).viewport.min_col() <= columns@.len(),
        ensures
            final(self).wf(),
            final(self).data_state.header().len() == columns@.len(),
            forall|i: int| 0 <= i < columns@.len() ==> (#[trigger] final(self).data_state.header()[i]).name@ == columns@[i].name@
                && final(self).data_state.header()[i].field_type == FieldType::String,
            forall|i: int| 0 <= i < columns@.len() ==> #[trigger] final(self).data_state.widths()[i] == columns@[i].width,
            final(self).data_state.rows() == old(self).data_state.rows(),
            final(self).data_state.total() == old(self).data_state.total(),
            final(self).viewport == old(self).viewport,
            final(self).width == old(self).width,
            final(self).height == old(self).height,
    {
        let mut header: Vec<Column> = Vec::new();
        let mut col_widths: Vec<usize> = Vec::new();
        let mut i: usize = 0;
        while i < columns.len()
            invariant
                i <= columns@.len(),
                header@.len() == i,
                col_widths@.len() == i,
                forall|j: int| 0 <= j < i ==> (#[trigger] header@[j]).name@ == columns@[j].name@
                    && header@[j].field_type == FieldType::String,
                forall|j: int| 0 <= j < i ==> #[trigger] col_widths@[j] == columns@[j].width,
            decreases columns@.len() - i,
        {
            let name = columns[i].name.clone();
            header.push(Column { name, field_type: FieldType::String });
            col_widths.push(columns[i].width);
            i += 1;
        }
        let _ = self.data_state.set_header(header, col_widths);
    }

    /// Row record under the pixel row `y`; none on the header row.
    pub open spec fn located_row(&self, y: int) -> Option<Row> {
        let row_index = y / (self.viewport.row_height as int);
        if row_index == 0 {
            None
        } else if self.buffer_row(row_index) < self.data_state.rows().len() {
            Some(self.data_state.rows()[self.buffer_row(row_index)])
        } else {
            None
        }
    }

    /// Pixel widths of the columns in `range`.
    fn shown_col_widths(&self, range: &Vec<usize>) -> (r: Vec<usize>)
        requires
            forall|i: int| 0 <= i < range@.len() ==> #[trigger] range@[i] < self.data_state.widths().len(),
        ensures
            r@ == shown_widths(self.data_state.widths(), range@),
    {
        let col_widths = self.data_state.get_col_widths();
        let mut r: Vec<usize> = Vec::new();
        let mut i: usize = 0;
        while i < range.len()
            invariant
                i <= range@.len(),
                col_widths@ == self.data_state.widths(),
                forall|j: int| 0 <= j < range@.len() ==> #[trigger] range@[j] < self.data_state.widths().len(),
                r@ == shown_widths(self.data_state.widths(), range@.subrange(0, i as int)),
            decreases range@.len() - i,
        {
            r.push(col_widths[range[i]]);
            i += 1;
            assert(r@ =~= shown_widths(self.data_state.widths(), range@.subrange(0, i as int)));
        }
        assert(range@.subrange(0, range@.len() as int) =~= range@);
        r
    }

    /// What lies under the point (`x`, `y`) of the surface.
    pub fn get_cell_by_position(&self, x: usize, y: usize) -> (r: adapter::CellData)
        requires
            self.wf(),
        ensures
            r.row_index == y / self.viewport.row_height,
            r.y == r.row_index * self.viewport.row_height,
            r.row is Some <==> self.located_row(y as int) is Some,
            r.row matches Some(rw) ==> self.located_row(y as int) matches Some(s) && rw@ == s@,
            match col_hit(shown_widths(self.data_state.widths(), self.col_range()), x as int, 0, 0) {
                Some(hit) => r.col_index == hit.0 && r.x == hit.1 && (r.col matches Some(c)
                    && c.name@ == self.data_state.header()[self.col_range()[hit.0] as int].name@
                    && c.width == self.data_state.widths()[self.col_range()[hit.0] as int]),
                None => r.col is None && r.col_index == 0
                    && r.x == miss_origin(shown_widths(self.data_state.widths(), self.col_range())),
            },
    {
        let row_height = self.viewport.row_height;
        let row_index = y / row_height;
        let mut row: Option<Row> = None;
        if row_index != 0 {
            let b: u128 = row_index as u128 + self.viewport.cur_row as u128 - 1;
            if b < self.data_state.get_rows_len() as u128 {
                match self.data_state.get_row_by_idx(b as usize) {
                    Some(rw) => {
                        row = Some(rw.duplicate());
                    },
                    None => {},
                }
            }
        }
        let cols = self.viewport.get_cols_visibility_state(self.width, self.data_state.get_col_widths());
        proof {
            self.viewport.lemma_cols_range_in_bounds(self.data_state.widths(), self.width as int);
        }
        let widths = self.shown_col_widths(&cols.range);
        let (hit, origin) = locate_column(&widths, x);
        proof {
            lemma_col_hit_bounds(widths@, x as int, 0, 0);
        }
        let mut col: Option<adapter::Column> = None;
        let mut col_index: usize = 0;
        match hit {
            Some(k) => {
                col_index = k;
                match self.data_state.get_column_by_idx(cols.range[k]) {
                    Some(c) => {
                        col = Some(adapter::Column { name: c.name.clone(), width: widths[k] });
                    },
                    None => {},
                }
            },
            None => {},
        }
        proof {
            assert(row_index * row_height <= y) by (nonlinear_arith)
                requires
                    row_index == y / row_height,
                    row_height > 0,
            ;
        }
        adapter::CellData { row, col, row_index, col_index, x: origin, y: row_index * row_height }
    }

    /// Everything the renderer needs for one frame: the display grid of the
    /// shown rows and columns, the shown columns' widths and both thumbs.
    pub fn compute_frame(&self) -> (r: Frame)
        requires
            self.wf(),
            self.viewport.cur_row + visible_row_count(self.height as int, self.viewport.row_height as int)
                <= usize::MAX,
        ensures
            r.grid@.len() == self.col_range().len(),
            forall|c: int| 0 <= c < r.grid@.len() ==> (#[trigger] r.grid@[c])@.len() == self.row_range().len(),
            forall|c: int, k: int|
                0 <= c < self.col_range().len() && 0 <= k < self.row_range().len() ==> shows(
                    #[trigger] r.grid@[c]@[k],
                    self.row_range()[k] == 0,
                    self.data_state.display_value(self.row_range()[k] as int, self.col_range()[c] as int),
                ),
            r.col_widths@ == shown_widths(self.data_state.widths(), self.col_range()),
            r.row_height == self.viewport.row_height,
            r.vertical == vertical_bar(
                self.viewport.cur_row as int,
                self.viewport.fixed_row + 1,
                self.viewport.row_height as int,
                self.height as int,
                self.data_state.total() as int,
                visible_row_count(self.height as int, self.viewport.row_height as int),
            ),
            r.horizontal == self.viewport.cols_bar(self.data_state.widths(), self.width as int),
    {
        let col_widths = self.data_state.get_col_widths();
        let total_row = self.data_state.get_total();
        let rows = self.viewport.get_rows_visibility_state(self.height, total_row);
        let cols = self.viewport.get_cols_visibility_state(self.width, col_widths);
        let map_header = |v: Option<String>| -> (c: Cell)
            ensures
                shows(c, true, crate::data_state::opt_view(v)),
            { header_cell(v) };
        let map_data = |v: Option<String>| -> (c: Cell)
            ensures
                shows(c, false, crate::data_state::opt_view(v)),
            { data_cell(v) };
        let grid = self.data_state.get_columns_data(&rows.range, &cols.range, map_header, map_data);
        proof {
            assert forall|c: int, k: int|
                0 <= c < self.col_range().len() && 0 <= k < self.row_range().len() implies shows(
                    #[trigger] grid@[c]@[k],
                    self.row_range()[k] == 0,
                    self.data_state.display_value(self.row_range()[k] as int, self.col_range()[c] as int),
                ) by {
                assert(self.data_state.produced(&map_header, &map_data, rows.range@[k] as int, cols.range@[c] as int, grid@[c]@[k]));
            }
            self.viewport.lemma_cols_range_in_bounds(self.data_state.widths(), self.width as int);
        }
        let widths = self.shown_col_widths(&cols.range);
        Frame {
            grid,
            col_widths: widths,
            row_height: self.viewport.row_height,
            vertical: rows.bar,
            horizontal: cols.bar,
        }
    }

    /// Pagination check: whether the caller should fetch and append more rows.
    pub fn is_out_of_rows_range(&self) -> (r: bool)
        requires
            self.viewport.row_height > 0,
        ensures
            r == self.needs_more_data(),
    {
        let reach: u128 = self.viewport.cur_row as u128 + (self.height / self.viewport.row_height) as u128;
        reach > self.data_state.get_rows_len() as u128
    }

    /// Appends a page of rows and records the table's new row count.
    pub fn append_rows(&mut self, rows: Vec<Row>, total_count: usize)
        requires
            old(self).wf(),
        ensures
            final(self).wf(),
            final(self).data_state.rows() == old(self).data_state.rows() + rows@,
            final(self).data_state.total() == total_count,
            final(self).data_state.header() == old(self).data_state.header(),
            final(self).data_state.widths() == old(self).data_state.widths(),
            final(self).viewport == old(self).viewport,
            final(self).width == old(self).width,
            final(self).height == old(self).height,
    {
        self.data_state.set_total(total_count);
        self.data_state.append_rows(rows);
    }

    /// Scrolls by whole rows and columns; a zero step leaves its axis alone.
    pub fn move_viewport(&mut self, vertical_step: isize, horizontal_step: isize)
        requires
            old(self).wf(),
        ensures
            final(self).wf(),
            final(self).viewport.cur_row == (if vertical_step != 0 {
                crate::visibility_state::clamp_index(
                    old(self).viewport.cur_row + vertical_step,
                    old(self).viewport.fixed_row + 1,
                    old(self).data_state.total() as int,
                )
            } else {
                old(self).viewport.cur_row as int
            }),
            final(self).viewport.cur_col == (if horizontal_step != 0 {
                crate::visibility_state::clamp_index(
                    old(self).viewport.cur_col + horizontal_step,
                    old(self).viewport.min_col(),
                    old(self).data_state.widths().len() as int,
                )
            } else {
                old(self).viewport.cur_col as int
            }),
            final(self).viewport.fixed_row == old(self).viewport.fixed_row,
            final(self).viewport.fixed_col == old(self).viewport.fixed_col,
            final(self).viewport.row_height == old(self).viewport.row_height,
            final(self).data_state == old(self).data_state,
            final(self).width == old(self).width,
            final(self).height == old(self).height,
    {
        if vertical_step != 0 {
            let max = self.data_state.get_total();
            self.viewport.vertical_move(vertical_step, max);
        }
        if horizontal_step != 0 {
            let max = self.data_state.get_col_widths().len();
            self.viewport.horizontal_move(horizontal_step, max);
        }
    }
}

} // verus!
