use data_grid::adapter;
use data_grid::data_state::{Column, DataState, FieldType, Row};
use data_grid::grid::{locate_column, DataGrid};
use data_grid::renderer::Cell;
use data_grid::visibility_state::Viewport;

fn col(name: &str, width: usize) -> adapter::Column {
    adapter::Column { name: name.to_string(), width }
}

fn row(pairs: &[(&str, &str)]) -> Row {
    Row { fields: pairs.iter().map(|(k, v)| (k.to_string(), v.to_string())).collect() }
}

fn numbered_rows(n: usize) -> Vec<Row> {
    (0..n).map(|i| row(&[("A", &format!("a{}", i)), ("B", &format!("b{}", i))])).collect()
}

fn text(c: &Cell) -> (bool, String) {
    match c {
        Cell::HEAD(s) => (true, s.clone()),
        Cell::ELM(s) => (false, s.clone()),
    }
}

#[test]
fn frame_two_columns_small_surface() {
    let mut g = DataGrid::new(100, 52);
    g.set_header(vec![col("A", 50), col("B", 50)]);
    g.append_rows(numbered_rows(5), 5);
    let rows = g.viewport.get_rows_visibility_state(52, 5);
    assert_eq!(rows.range, vec![0, 1, 2]);
    let cols = g.viewport.get_cols_visibility_state(100, g.data_state.get_col_widths());
    assert_eq!(cols.range, vec![0, 1]);
    let frame = g.compute_frame();
    assert_eq!(frame.grid.len(), 2);
    assert_eq!(frame.grid[0].len(), 3);
    assert_eq!(text(&frame.grid[0][0]), (true, "A".to_string()));
    assert_eq!(text(&frame.grid[1][0]), (true, "B".to_string()));
    assert_eq!(text(&frame.grid[0][1]), (false, "a1".to_string()));
    assert_eq!(text(&frame.grid[1][2]), (false, "b2".to_string()));
    assert_eq!(frame.col_widths, vec![50, 50]);
    assert_eq!(frame.row_height, 26);
}

#[test]
fn ten_narrow_columns_stop_after_fourth() {
    let v = Viewport::new();
    let widths = vec![30usize; 10];
    let s = v.get_cols_visibility_state(100, &widths);
    assert_eq!(s.range, vec![0, 1, 2, 3]);
}

#[test]
fn needs_more_data_past_buffer() {
    let mut g = DataGrid::new(100, 9 * 26);
    g.set_header(vec![col("A", 50), col("B", 50)]);
    g.append_rows(numbered_rows(50), 1000);
    g.move_viewport(44, 0);
    assert_eq!(g.viewport.cur_row, 45);
    let rows = g.viewport.get_rows_visibility_state(9 * 26, 1000);
    assert_eq!(rows.range.len(), 10);
    assert!(g.is_out_of_rows_range());
}

#[test]
fn needs_more_data_until_buffer_covers_window() {
    let mut g = DataGrid::new(100, 52);
    g.append_rows(vec![], 10);
    assert!(g.is_out_of_rows_range());
    g.append_rows(numbered_rows(3), 10);
    assert!(g.is_out_of_rows_range() == false);
}

#[test]
fn vertical_move_saturates() {
    let mut v = Viewport::new();
    v.vertical_move(-5, 100);
    assert_eq!(v.cur_row, 1);
    v.vertical_move(500, 100);
    assert_eq!(v.cur_row, 100);
    v.vertical_move(-30, 100);
    assert_eq!(v.cur_row, 70);
    v.vertical_move(isize::MIN, 100);
    assert_eq!(v.cur_row, 1);
}

#[test]
fn vertical_move_with_no_rows_stays_at_first() {
    let mut v = Viewport::new();
    v.vertical_move(3, 0);
    assert_eq!(v.cur_row, 1);
}

#[test]
fn horizontal_move_saturates() {
    let mut v = Viewport::new();
    v.horizontal_move(-2, 10);
    assert_eq!(v.cur_col, 0);
    v.horizontal_move(4, 10);
    assert_eq!(v.cur_col, 4);
    v.horizontal_move(40, 10);
    assert_eq!(v.cur_col, 10);
    v.fixed_col = Some(1);
    v.horizontal_move(-40, 10);
    assert_eq!(v.cur_col, 2);
}

#[test]
fn row_range_starts_with_sentinel() {
    let mut v = Viewport::new();
    v.cur_row = 40;
    let s = v.get_rows_visibility_state(100, 500);
    assert_eq!(s.range, vec![0, 40, 41, 42]);
}

#[test]
fn row_range_length_is_visible_count() {
    let v = Viewport::new();
    let s = v.get_rows_visibility_state(260, 500);
    assert_eq!(s.range.len(), 11);
    let s = v.get_rows_visibility_state(0, 500);
    assert_eq!(s.range, vec![0]);
}

#[test]
fn col_range_last_column_only() {
    let mut v = Viewport::new();
    v.cur_col = 9;
    let widths = vec![30usize; 10];
    let s = v.get_cols_visibility_state(100, &widths);
    assert_eq!(s.range, vec![9]);
    v.cur_col = 10;
    let s = v.get_cols_visibility_state(100, &widths);
    assert!(s.range.is_empty());
}

#[test]
fn col_range_with_fixed_block() {
    let mut v = Viewport::new();
    v.fixed_col = Some(0);
    v.cur_col = 5;
    let widths = vec![30usize; 10];
    let s = v.get_cols_visibility_state(100, &widths);
    assert_eq!(s.range, vec![0, 5, 6, 7]);
}

#[test]
fn vertical_thumb_exact() {
    let v = Viewport::new();
    let s = v.get_rows_visibility_state(52, 100);
    let bar = s.bar.unwrap();
    assert_eq!(bar.offset_num, 2600);
    assert_eq!(bar.length_num, 78);
    assert_eq!(bar.denom, 100);
    let mut v = Viewport::new();
    v.cur_row = 11;
    let bar = v.get_rows_visibility_state(52, 100).bar.unwrap();
    assert_eq!(bar.offset_num, 10 * 26 + 2600);
}

#[test]
fn vertical_thumb_absent_without_rows() {
    let v = Viewport::new();
    assert!(v.get_rows_visibility_state(52, 0).bar.is_none());
}

#[test]
fn horizontal_thumb_exact() {
    let mut v = Viewport::new();
    let widths = vec![30usize; 10];
    let bar = v.get_cols_visibility_state(100, &widths).bar.unwrap();
    assert_eq!(bar.length_num, 100 * 90);
    assert_eq!(bar.offset_num, 0);
    assert_eq!(bar.denom, 300);
    v.cur_col = 2;
    let bar = v.get_cols_visibility_state(100, &widths).bar.unwrap();
    assert_eq!(bar.offset_num, 100 * 60);
    assert!(v.get_cols_visibility_state(100, &vec![]).bar.is_none());
}

#[test]
fn locate_cell_matches_frame() {
    let mut g = DataGrid::new(150, 104);
    g.set_header(vec![col("A", 50), col("B", 60), col("C", 70)]);
    g.append_rows(numbered_rows(6), 6);
    let cell = g.get_cell_by_position(55, 30);
    assert_eq!(cell.row_index, 1);
    assert_eq!(cell.col_index, 1);
    assert_eq!(cell.x, 50);
    assert_eq!(cell.y, 26);
    let c = cell.col.unwrap();
    assert_eq!(c.name, "B");
    assert_eq!(c.width, 60);
    let r = cell.row.unwrap();
    assert_eq!(r.get(&"B".to_string()), Some("b1".to_string()));
    let frame = g.compute_frame();
    assert_eq!(text(&frame.grid[1][1]), (false, "b1".to_string()));
}

#[test]
fn locate_cell_after_scroll() {
    let mut g = DataGrid::new(150, 104);
    g.set_header(vec![col("A", 50), col("B", 60), col("C", 70)]);
    g.append_rows(numbered_rows(6), 6);
    g.move_viewport(2, 0);
    let cell = g.get_cell_by_position(10, 60);
    assert_eq!(cell.row_index, 2);
    assert_eq!(cell.row.unwrap().get(&"A".to_string()), Some("a4".to_string()));
    let frame = g.compute_frame();
    assert_eq!(text(&frame.grid[0][2]), (false, "a4".to_string()));
}

#[test]
fn locate_cell_on_header_row() {
    let mut g = DataGrid::new(150, 104);
    g.set_header(vec![col("A", 50), col("B", 60), col("C", 70)]);
    g.append_rows(numbered_rows(6), 6);
    let cell = g.get_cell_by_position(120, 10);
    assert_eq!(cell.row_index, 0);
    assert!(cell.row.is_none());
    assert_eq!(cell.col_index, 2);
    assert_eq!(cell.x, 110);
    assert_eq!(cell.col.unwrap().name, "C");
}

#[test]
fn locate_cell_past_columns_and_rows() {
    let mut g = DataGrid::new(150, 104);
    g.set_header(vec![col("A", 50), col("B", 60), col("C", 70)]);
    g.append_rows(numbered_rows(2), 2);
    let cell = g.get_cell_by_position(1000, 100);
    assert!(cell.col.is_none());
    assert_eq!(cell.col_index, 0);
    assert_eq!(cell.x, 110);
    assert_eq!(cell.row_index, 3);
    assert!(cell.row.is_none());
}

#[test]
fn locate_column_positions() {
    assert_eq!(locate_column(&vec![10, 20, 30], 0), (Some(0), 0));
    assert_eq!(locate_column(&vec![10, 20, 30], 10), (Some(1), 10));
    assert_eq!(locate_column(&vec![10, 20, 30], 59), (Some(2), 30));
    assert_eq!(locate_column(&vec![10, 20, 30], 60), (None, 30));
    assert_eq!(locate_column(&vec![], 5), (None, 0));
}

#[test]
fn set_header_refuses_mismatched_widths() {
    let mut d = DataState::new();
    let header = vec![Column { name: "A".to_string(), field_type: FieldType::String }];
    let r = d.set_header(header, vec![]);
    let e = r.err().unwrap();
    assert_eq!(e.columns, 1);
    assert_eq!(e.widths, 0);
    assert!(d.get_column_by_idx(0).is_none());
    assert!(d.get_col_widths().is_empty());
}

#[test]
fn set_header_and_lookups() {
    let mut d = DataState::new();
    let header = vec![
        Column { name: "A".to_string(), field_type: FieldType::String },
        Column { name: "B".to_string(), field_type: FieldType::Int },
    ];
    assert!(d.set_header(header, vec![40, 80]).is_ok());
    assert_eq!(d.get_col_widths(), &vec![40, 80]);
    assert_eq!(d.get_column_by_idx(1).unwrap().name, "B");
    assert!(d.get_column_by_idx(2).is_none());
    assert!(d.get_row_by_idx(0).is_none());
    d.append_rows(numbered_rows(2));
    d.append_rows(numbered_rows(1));
    assert_eq!(d.get_rows_len(), 3);
    assert_eq!(d.get_row_by_idx(2).unwrap().get(&"A".to_string()), Some("a0".to_string()));
    assert!(d.get_row_by_idx(3).is_none());
    assert_eq!(d.get_total(), 0);
    d.set_total(70);
    assert_eq!(d.get_total(), 70);
}

#[test]
fn columns_data_maps_header_and_cells() {
    let mut d = DataState::new();
    let header = vec![
        Column { name: "A".to_string(), field_type: FieldType::String },
        Column { name: "B".to_string(), field_type: FieldType::String },
    ];
    assert!(d.set_header(header, vec![10, 10]).is_ok());
    d.append_rows(vec![row(&[("A", "x")]), row(&[("A", "y"), ("B", "z")])]);
    let grid = d.get_columns_data(
        &vec![0, 1, 7],
        &vec![1, 0, 5],
        |h: Option<String>| format!("H:{}", h.unwrap_or_default()),
        |v: Option<String>| format!("D:{}", v.unwrap_or_else(|| "-".to_string())),
    );
    assert_eq!(grid, vec![
        vec!["H:B".to_string(), "D:z".to_string(), "D:-".to_string()],
        vec!["H:A".to_string(), "D:y".to_string(), "D:-".to_string()],
        vec!["H:".to_string(), "D:-".to_string(), "D:-".to_string()],
    ]);
}

#[test]
fn row_lookup_takes_first_pair() {
    let r = row(&[("A", "1"), ("B", "2"), ("A", "3")]);
    assert_eq!(r.get(&"A".to_string()), Some("1".to_string()));
    assert_eq!(r.get(&"B".to_string()), Some("2".to_string()));
    assert_eq!(r.get(&"C".to_string()), None);
    let d = r.duplicate();
    assert_eq!(d.fields, r.fields);
}
