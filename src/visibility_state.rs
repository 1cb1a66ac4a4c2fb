use vstd::prelude::*;

verus! {

/// Scroll position of the grid: the pinned leading block, the first scrolling
/// row and column, and the pixel height of one row.
pub struct Viewport {
    pub fixed_row: usize,
    pub fixed_col: Option<usize>,
    pub cur_row: usize,
    pub cur_col: usize,
    pub row_height: usize,
}

/// Thumb geometry of one scrollbar as exact fractions: the thumb starts at
/// `offset_num / denom` pixels and is `length_num / denom` pixels long.
pub struct ScrollBar {
    pub offset_num: i128,
    pub length_num: i128,
    pub denom: i128,
}

/// Indices to render on one axis, in display order, and the thumb of that axis
/// (`None` where no thumb can be drawn).
pub struct VisibilityState {
    pub range: Vec<usize>,
    pub bar: Option<ScrollBar>,
}

/// Default pixel height of one row.
pub const ROW_HEIGHT: usize = 26;

/// Index just past the scrolling block of columns: walking from `idx` with
/// `acc` pixels already taken, columns are added while fewer than `width`
/// pixels are taken, the column that reaches `width` included.
pub open spec fn cols_end(ws: Seq<usize>, idx: int, acc: int, width: int) -> int
    decreases ws.len() - idx,
{
    if idx < 0 || idx >= ws.len() || acc >= width {
        idx
    } else {
        cols_end(ws, idx + 1, acc + ws[idx], width)
    }
}

/// Pixels taken by the shown columns when the walk of `cols_end` stops.
pub open spec fn cols_content(ws: Seq<usize>, idx: int, acc: int, width: int) -> int
    decreases ws.len() - idx,
{
    if idx < 0 || idx >= ws.len() || acc >= width {
        acc
    } else {
        cols_content(ws, idx + 1, acc + ws[idx], width)
    }
}

/// Sum of `ws[from..to]`, empty when the bounds do not describe a slice.
pub open spec fn span_sum(ws: Seq<usize>, from: int, to: int) -> int {
    if 0 <= from <= to <= ws.len() {
        seq_sum(ws.subrange(from, to))
    } else {
        0
    }
}

/// Thumb of the horizontal scrollbar: the shown width less the last shown
/// column, and the width scrolled past, scaled by `width / total`.
pub open spec fn horizontal_bar(width: int, shown: int, passed: int, total: int) -> Option<ScrollBar> {
    if total > 0 && fits_i128(shown) && fits_i128(passed) && fits_i128(width * shown) && fits_i128(width * passed) && fits_i128(total) {
        Some(ScrollBar { offset_num: (width * passed) as i128, length_num: (width * shown) as i128, denom: total as i128 })
    } else {
        None
    }
}

pub proof fn lemma_cols_end_bounds(ws: Seq<usize>, idx: int, acc: int, width: int)
    requires
        0 <= idx,
    ensures
        idx <= cols_end(ws, idx, acc, width),
        idx <= ws.len() ==> cols_end(ws, idx, acc, width) <= ws.len(),
        idx >= ws.len() ==> cols_end(ws, idx, acc, width) == idx,
    decreases ws.len() - idx,
{
    if idx < ws.len() && acc < width {
        lemma_cols_end_bounds(ws, idx + 1, acc + ws[idx], width);
    }
}

pub proof fn lemma_seq_sum_bound(s: Seq<usize>)
    ensures
        0 <= seq_sum(s) <= s.len() * usize::MAX,
    decreases s.len(),
{
    if s.len() > 0 {
        lemma_seq_sum_bound(s.drop_last());
        assert(s.len() * usize::MAX == (s.len() - 1) * usize::MAX + usize::MAX) by (nonlinear_arith);
    }
}

/// `len` consecutive indices starting at `start`.
pub open spec fn index_run(start: int, len: int) -> Seq<usize> {
    Seq::new(len as nat, |i: int| (start + i) as usize)
}

/// `v` brought into `[lo, hi]`; `lo` wins when the interval is empty.
pub open spec fn clamp_index(v: int, lo: int, hi: int) -> int {
    if v < lo || hi < lo {
        lo
    } else if v > hi {
        hi
    } else {
        v
    }
}

/// Sum of the widths in `s`.
pub open spec fn seq_sum(s: Seq<usize>) -> int
    decreases s.len(),
{
    if s.len() == 0 {
        0
    } else {
        seq_sum(s.drop_last()) + s.last()
    }
}

/// `x` is a value of `i128`.
pub open spec fn fits_i128(x: int) -> bool {
    i128::MIN <= x <= i128::MAX
}

/// Number of rows that a surface of `height` pixels shows, counting a partly
/// shown last row.
pub open spec fn visible_row_count(height: int, row_height: int) -> int {
    height / row_height + 1
}

/// Thumb of the vertical scrollbar: the track below the pinned rows, scaled by
/// the share of all `total` rows that is shown and has been scrolled past.
pub open spec fn vertical_bar(
    cur_row: int,
    fixed_len: int,
    row_height: int,
    height: int,
    total: int,
    visible: int,
) -> Option<ScrollBar> {
    let head = fixed_len * row_height;
    let track = height - head;
    let passed = (cur_row - fixed_len) * track;
    let spread = head * total;
    let len = visible * track;
    if total > 0 && fits_i128(head) && fits_i128(track) && fits_i128(passed) && fits_i128(spread)
        && fits_i128(len) && fits_i128(passed + spread) && fits_i128(total) {
        Some(ScrollBar { offset_num: (passed + spread) as i128, length_num: len as i128, denom: total as i128 })
    } else {
        None
    }
}

/// `len` consecutive indices starting at `start`.
fn gen_vec(start: usize, length: usize) -> (r: Vec<usize>)
    requires
        start + length <= usize::MAX,
    ensures
        r@ == index_run(start as int, length as int),
{
    let mut r: Vec<usize> = Vec::new();
    let mut i: usize = 0;
    while i < length
        invariant
            i <= length,
            start + length <= usize::MAX,
            r@ == index_run(start as int, i as int),
        decreases length - i,
    {
        r.push(start + i);
        i += 1;
        assert(r@ =~= index_run(start as int, i as int));
    }
    r
}

impl Viewport {
    /// Scroll position as seen by the verified methods: the pinned blocks can be
    /// widened by one without leaving `usize`.
    pub open spec fn wf(&self) -> bool {
        &&& self.fixed_row < usize::MAX
        &&& (self.fixed_col matches Some(f) ==> f < usize::MAX)
    }

    /// Smallest legal value of `cur_col`.
    pub open spec fn min_col(&self) -> int {
        match self.fixed_col {
            Some(f) => f + 1,
            None => 0,
        }
    }

    /// Indices always shown on the row axis: the header sentinel and the pinned rows.
    pub open spec fn leading_rows(&self) -> Seq<usize> {
        index_run(0, self.fixed_row + 1)
    }

    /// What `get_rows_visibility_state` returns for a surface `height` pixels high.
    pub open spec fn rows_range(&self, height: int) -> Seq<usize> {
        let visible = visible_row_count(height, self.row_height as int);
        let lead = self.fixed_row + 1;
        let rest = if visible > lead { visible - lead } else { 0 };
        self.leading_rows() + index_run(self.cur_row as int, rest)
    }

    /// The scroll position a new grid starts at.
    pub open spec fn new_spec() -> Viewport {
        Viewport { fixed_row: 0, fixed_col: None, cur_row: 1, cur_col: 0, row_height: ROW_HEIGHT }
    }

    pub fn new() -> (r: Self)
        ensures
            r == Viewport::new_spec(),
            r.wf(),
    {
        Viewport { fixed_row: 0, fixed_col: None, cur_row: 1, cur_col: 0, row_height: ROW_HEIGHT }
    }

    /// Moves the first scrolling row by `step`, saturating at the pinned rows
    /// and at `max`.
    pub fn vertical_move(&mut self, step: isize, max: usize)
        requires
            old(self).wf(),
        ensures
            final(self).cur_row == clamp_index(
                old(self).cur_row + step,
                old(self).fixed_row + 1,
                max as int,
            ),
            old(self).fixed_row + 1 <= final(self).cur_row,
            final(self).cur_row <= max || final(self).cur_row == old(self).fixed_row + 1,
            final(self).fixed_row == old(self).fixed_row,
            final(self).fixed_col == old(self).fixed_col,
            final(self).cur_col == old(self).cur_col,
            final(self).row_height == old(self).row_height,
            final(self).wf(),
    {
        let target: i128 = self.cur_row as i128 + step as i128;
        self.cur_row = clamp_usize(target, self.fixed_row + 1, max);
    }

    /// Moves the first scrolling column by `step`, saturating at the pinned
    /// columns and at `max`.
    pub fn horizontal_move(&mut self, step: isize, max: usize)
        requires
            old(self).wf(),
        ensures
            final(self).cur_col == clamp_index(old(self).cur_col + step, old(self).min_col(), max as int),
            final(self).fixed_row == old(self).fixed_row,
            final(self).fixed_col == old(self).fixed_col,
            final(self).cur_row == old(self).cur_row,
            final(self).row_height == old(self).row_height,
            final(self).wf(),
    {
        let min: usize = match self.fixed_col {
            Some(idx) => idx + 1,
            None => 0,
        };
        let target: i128 = self.cur_col as i128 + step as i128;
        self.cur_col = clamp_usize(target, min, max);
    }

    /// Rows to render on a surface `height` pixels high, followed by the
    /// vertical thumb for `total_row` rows in all.
    pub fn get_rows_visibility_state(&self, height: usize, total_row: usize) -> (r: VisibilityState)
        requires
            self.wf(),
            self.row_height > 0,
            self.cur_row + visible_row_count(height as int, self.row_height as int) <= usize::MAX,
        ensures
            r.range@ == self.rows_range(height as int),
            r.bar == vertical_bar(
                self.cur_row as int,
                self.fixed_row + 1,
                self.row_height as int,
                height as int,
                total_row as int,
                visible_row_count(height as int, self.row_height as int),
            ),
    {
        let visible_row_count: usize = height / self.row_height + 1;
        let lead: usize = self.fixed_row + 1;
        let mut range = gen_vec(0, lead);
        let rest_len: usize = if visible_row_count > lead { visible_row_count - lead } else { 0 };
        let rest_idx = gen_vec(self.cur_row, rest_len);
        let mut rest_idx = rest_idx;
        range.append(&mut rest_idx);
        let bar = self.get_vertical_bar_state(total_row, visible_row_count, height);
        VisibilityState { range, bar }
    }


    /// Indices always shown on the column axis: the pinned columns.
    pub open spec fn leading_cols(&self) -> Seq<usize> {
        index_run(0, self.min_col())
    }

    /// Index just past the scrolling block of columns for column widths `ws`
    /// on a surface `width` pixels wide.
    pub open spec fn cols_stop(&self, ws: Seq<usize>, width: int) -> int {
        cols_end(ws, self.cur_col as int, span_sum(ws, 0, self.min_col()), width)
    }

    /// What `get_cols_visibility_state` returns for column widths `ws` on a
    /// surface `width` pixels wide.
    pub open spec fn cols_range(&self, ws: Seq<usize>, width: int) -> Seq<usize> {
        self.leading_cols() + index_run(self.cur_col as int, self.cols_stop(ws, width) - self.cur_col)
    }

    /// The header sentinel, row index 0, comes first in every row range.
    pub proof fn lemma_rows_range_has_sentinel(&self, height: int)
        ensures
            self.rows_range(height).len() > 0,
            self.rows_range(height)[0] == 0,
    {
    }

    /// A row range holds no more rows than the surface shows, once the
    /// pinned rows fit on the surface.
    pub proof fn lemma_rows_range_len(&self, height: int)
        requires
            self.row_height > 0,
            height >= 0,
            self.fixed_row + 1 <= visible_row_count(height, self.row_height as int),
        ensures
            self.rows_range(height).len() <= visible_row_count(height, self.row_height as int),
    {
    }

    /// A column range lists its indices in increasing order, and shows at
    /// least one column while the first scrolling column exists and the
    /// surface has width.
    pub proof fn lemma_cols_range_increasing(&self, ws: Seq<usize>, width: int)
        requires
            self.min_col() <= self.cur_col,
            ws.len() <= usize::MAX,
        ensures
            forall|i: int, j: int|
                0 <= i < j < self.cols_range(ws, width).len() ==> #[trigger] self.cols_range(ws, width)[i]
                    < #[trigger] self.cols_range(ws, width)[j],
            self.cur_col < ws.len() && width > 0 ==> self.cols_range(ws, width).len() > 0,
    {
        let m = self.min_col();
        let cur = self.cur_col as int;
        let acc = span_sum(ws, 0, m);
        lemma_cols_end_bounds(ws, cur, acc, width);
        let stop = self.cols_stop(ws, width);
        let r = self.cols_range(ws, width);
        assert(stop <= ws.len() || stop == cur);
        assert forall|i: int, j: int| 0 <= i < j < r.len() implies #[trigger] r[i] < #[trigger] r[j] by {
            if j < m {
                assert(r[i] == i && r[j] == j);
            } else if i < m {
                assert(r[i] == i && r[j] == cur + (j - m));
            } else {
                assert(r[i] == cur + (i - m) && r[j] == cur + (j - m));
            }
        }
        if cur < ws.len() && width > 0 && m == 0 {
            assert(ws.subrange(0, 0) =~= Seq::<usize>::empty());
            assert(acc == 0);
            lemma_cols_end_bounds(ws, cur + 1, acc + ws[cur], width);
            assert(stop >= cur + 1);
        }
    }

    /// Every shown column exists.
    pub proof fn lemma_cols_range_in_bounds(&self, ws: Seq<usize>, width: int)
        requires
            self.min_col() <= ws.len(),
        ensures
            forall|i: int| 0 <= i < self.cols_range(ws, width).len() ==> #[trigger] self.cols_range(ws, width)[i] < ws.len(),
    {
        lemma_cols_end_bounds(ws, self.cur_col as int, span_sum(ws, 0, self.min_col()), width);
    }

    /// Width of the last shown column, 0 where none is shown.
    pub open spec fn last_col_width(&self, ws: Seq<usize>, width: int) -> int {
        let stop = self.cols_stop(ws, width);
        if stop > self.cur_col {
            ws[stop - 1] as int
        } else if self.min_col() > 0 {
            ws[self.min_col() - 1] as int
        } else {
            0
        }
    }

    /// Horizontal thumb for column widths `ws` on a surface `width` pixels wide.
    pub open spec fn cols_bar(&self, ws: Seq<usize>, width: int) -> Option<ScrollBar> {
        let content = cols_content(ws, self.cur_col as int, span_sum(ws, 0, self.min_col()), width);
        let upto = if self.cur_col < ws.len() { self.cur_col as int } else { ws.len() as int };
        horizontal_bar(
            width,
            content - self.last_col_width(ws, width),
            span_sum(ws, self.min_col(), upto),
            seq_sum(ws),
        )
    }

    /// Columns to render on a surface `width` pixels wide, and the horizontal
    /// thumb.
    pub fn get_cols_visibility_state(&self, width: usize, col_widths: &Vec<usize>) -> (r: VisibilityState)
        requires
            self.wf(),
            self.min_col() <= col_widths.len(),
        ensures
            r.range@ == self.cols_range(col_widths@, width as int),
            r.bar == self.cols_bar(col_widths@, width as int),
    {
        let ghost ws = col_widths@;
        let lead: usize = match self.fixed_col {
            Some(idx) => idx + 1,
            None => 0,
        };
        let mut visible_col_idx = gen_vec(0, lead);
        let mut content_width: u128 = width_sum(col_widths, 0, lead);
        let mut col_idx: usize = self.cur_col;
        proof {
            if lead > 0 {
                let s = ws.subrange(0, lead as int);
                lemma_seq_sum_bound(s.drop_last());
            }
        }
        while col_idx < col_widths.len() && content_width < width as u128
            invariant
                self.cur_col <= col_idx,
                self.cur_col < col_widths.len() ==> col_idx <= col_widths.len(),
                self.cur_col >= col_widths.len() ==> col_idx == self.cur_col,
                ws == col_widths@,
                lead == self.min_col(),
                cols_end(ws, col_idx as int, content_width as int, width as int) == self.cols_stop(ws, width as int),
                cols_content(ws, col_idx as int, content_width as int, width as int) == cols_content(
                    ws,
                    self.cur_col as int,
                    span_sum(ws, 0, lead as int),
                    width as int,
                ),
                visible_col_idx@ == self.leading_cols() + index_run(self.cur_col as int, col_idx - self.cur_col),
                content_width >= (if col_idx > self.cur_col {
                    ws[col_idx - 1] as int
                } else if lead > 0 {
                    ws[lead - 1] as int
                } else {
                    0
                }),
            decreases col_widths.len() - col_idx,
        {
            content_width = content_width + col_widths[col_idx] as u128;
            visible_col_idx.push(col_idx);
            col_idx += 1;
            assert(visible_col_idx@ =~= self.leading_cols() + index_run(self.cur_col as int, col_idx - self.cur_col));
        }
        let last: usize = if col_idx > self.cur_col {
            col_widths[col_idx - 1]
        } else if lead > 0 {
            col_widths[lead - 1]
        } else {
            0
        };
        let upto: usize = if self.cur_col < col_widths.len() { self.cur_col } else { col_widths.len() };
        let passed: u128 = if lead <= upto { width_sum(col_widths, lead, upto) } else { 0 };
        let total_width: u128 = width_sum(col_widths, 0, col_widths.len());
        proof {
            assert(ws.subrange(0, ws.len() as int) =~= ws);
        }
        let bar = get_horizontal_bar_state(width, content_width - last as u128, passed, total_width);
        VisibilityState { range: visible_col_idx, bar }
    }

    fn get_vertical_bar_state(&self, total_row: usize, visible_row_count: usize, height: usize) -> (r:
        Option<ScrollBar>)
        requires
            self.wf(),
        ensures
            r == vertical_bar(
                self.cur_row as int,
                self.fixed_row + 1,
                self.row_height as int,
                height as int,
                total_row as int,
                visible_row_count as int,
            ),
    {
        if total_row == 0 {
            return None;
        }
        let fixed_len: i128 = self.fixed_row as i128 + 1;
        let head = fixed_len.checked_mul(self.row_height as i128)?;
        let track = (height as i128).checked_sub(head)?;
        let passed = (self.cur_row as i128 - fixed_len).checked_mul(track)?;
        let spread = head.checked_mul(total_row as i128)?;
        let length = (visible_row_count as i128).checked_mul(track)?;
        let offset = passed.checked_add(spread)?;
        Some(ScrollBar { offset_num: offset, length_num: length, denom: total_row as i128 })
    }
}

/// `v` brought into `[lo, hi]`; `lo` wins when the interval is empty.
fn clamp_usize(v: i128, lo: usize, hi: usize) -> (r: usize)
    ensures
        r == clamp_index(v as int, lo as int, hi as int),
{
    if v < lo as i128 || hi < lo {
        lo
    } else if v > hi as i128 {
        hi
    } else {
        v as usize
    }
}

/// Sum of `ws[from..to]`.
fn width_sum(ws: &Vec<usize>, from: usize, to: usize) -> (r: u128)
    requires
        from <= to <= ws.len(),
    ensures
        r == span_sum(ws@, from as int, to as int),
{
    let mut acc: u128 = 0;
    let mut i: usize = from;
    while i < to
        invariant
            from <= i <= to <= ws.len(),
            acc == seq_sum(ws@.subrange(from as int, i as int)),
        decreases to - i,
    {
        proof {
            lemma_seq_sum_bound(ws@.subrange(from as int, i as int));
            let n = i - from;
            assert(n <= usize::MAX);
            assert(n * usize::MAX <= usize::MAX * usize::MAX) by (nonlinear_arith)
                requires
                    n <= usize::MAX,
            ;
            assert(ws@.subrange(from as int, i + 1).drop_last() =~= ws@.subrange(from as int, i as int));
        }
        acc = acc + ws[i] as u128;
        i += 1;
    }
    acc
}

/// Thumb of the horizontal scrollbar from the shown width less the last
/// shown column, the width scrolled past and the width of all columns.
fn get_horizontal_bar_state(width: usize, shown: u128, passed: u128, total: u128) -> (r: Option<ScrollBar>)
    ensures
        r == horizontal_bar(width as int, shown as int, passed as int, total as int),
{
    if total == 0 || total > i128::MAX as u128 || shown > i128::MAX as u128 || passed > i128::MAX as u128 {
        return None;
    }
    let length = (width as i128).checked_mul(shown as i128)?;
    let offset = (width as i128).checked_mul(passed as i128)?;
    Some(ScrollBar { offset_num: offset, length_num: length, denom: total as i128 })
}

} // verus!
