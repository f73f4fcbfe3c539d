use welosa::receiver::receiver_grid::{
    create_grid, DragTarget, GridCell, LayoutMode, MouseButton, ReceiverGrid, SelectionMode,
};
use welosa::rgba::Rgba8;

fn positions(grid: &ReceiverGrid<(i32, i32)>) -> Vec<(u32, u32, u32)> {
    grid.cells.iter().map(|c| (c.pos, c.row, c.col)).collect()
}

#[test]
fn follow_row_numbers_along_rows() {
    let grid = ReceiverGrid::new(4, 2, false, LayoutMode::FollowRow, (0, 0));
    assert_eq!(grid.led_count, 8);
    assert_eq!(grid.cols, 4);
    assert_eq!(grid.rows, 2);
    // 0 1 2 3 / 4 5 6 7
    assert_eq!(
        positions(&grid),
        vec![(0, 0, 0), (1, 0, 1), (2, 0, 2), (3, 0, 3), (4, 1, 0), (5, 1, 1), (6, 1, 2), (7, 1, 3)]
    );
}

#[test]
fn follow_column_numbers_down_columns() {
    let grid = ReceiverGrid::new(4, 2, false, LayoutMode::FollowColum, (0, 0));
    // 0 2 4 6 / 1 3 5 7
    assert_eq!(
        positions(&grid),
        vec![(0, 0, 0), (1, 1, 0), (2, 0, 1), (3, 1, 1), (4, 0, 2), (5, 1, 2), (6, 0, 3), (7, 1, 3)]
    );
}

#[test]
fn cell_index_finds_every_cell() {
    for layout in [LayoutMode::FollowRow, LayoutMode::FollowColum] {
        let grid = ReceiverGrid::new(5, 3, false, layout, (0, 0));
        for (i, cell) in grid.cells.iter().enumerate() {
            assert_eq!(grid.get_cell_index(cell.row, cell.col), i);
        }
    }
}

#[test]
fn new_grid_defaults() {
    let grid = ReceiverGrid::new(20, 20, true, LayoutMode::FollowColum, (0, 0));
    assert_eq!(grid.led_count, 400);
    assert_eq!(grid.cells.len(), 400);
    assert_eq!(grid.led_buffer.len(), 1200);
    assert!(grid.led_buffer.iter().all(|b| *b == 0));
    assert_eq!(grid.row_offsets.len(), 20);
    assert_eq!(grid.column_offsets.len(), 20);
    assert!(grid.show_debug_info);
    assert!(!grid.show_grid);
    assert!(!grid.edit_mode);
    assert_eq!(grid.selection_mode, SelectionMode::Rows);
    assert_eq!(grid.drag_target, None);
    assert_eq!(grid.device.ip, "192.168.178.102");
    assert_eq!(grid.device.name, "Default");
    assert_eq!(grid.device.max_len, 400);
    assert!(!grid.device.establish_conn);
}

#[test]
fn empty_grid_still_has_one_led() {
    let grid = ReceiverGrid::new(0, 0, false, LayoutMode::FollowRow, (0, 0));
    assert_eq!(grid.rows, 1);
    assert_eq!(grid.led_count, 1);
    assert_eq!(grid.cols, 1);
    assert_eq!(grid.cells.len(), 1);
    assert_eq!(grid.led_buffer.len(), 3);
}

#[test]
fn columns_are_rounded_up() {
    assert_eq!(ReceiverGrid::<(i32, i32)>::required_cols(10, 3), 4);
    assert_eq!(ReceiverGrid::<(i32, i32)>::required_cols(9, 3), 3);
    assert_eq!(ReceiverGrid::<(i32, i32)>::required_cols(0, 0), 1);
    assert_eq!(ReceiverGrid::<(i32, i32)>::required_cols(7, 0), 7);
}

#[test]
fn partial_last_column() {
    let mut grid = ReceiverGrid::new(4, 3, false, LayoutMode::FollowColum, (0, 0));
    grid.led_count = 10;
    grid.update_cells();
    assert_eq!(grid.cols, 4);
    assert_eq!(grid.cells.len(), 10);
    assert_eq!(grid.led_buffer.len(), 30);
    let last = &grid.cells[9];
    assert_eq!((last.pos, last.row, last.col), (9, 0, 3));
    assert_eq!(grid.column_offsets.len(), 4);
    assert_eq!(grid.row_offsets.len(), 3);
}

#[test]
fn create_grid_stops_at_led_count_or_grid_size() {
    assert_eq!(create_grid(2, 2, 3, LayoutMode::FollowRow).len(), 3);
    assert_eq!(create_grid(2, 2, 9, LayoutMode::FollowRow).len(), 4);
    assert_eq!(create_grid(0, 2, 9, LayoutMode::FollowRow).len(), 0);
    assert_eq!(create_grid(2, 2, 0, LayoutMode::FollowColum).len(), 0);
}

#[test]
fn cell_labels_are_decimal_positions() {
    let grid = ReceiverGrid::new(11, 1, false, LayoutMode::FollowRow, (0, 0));
    assert_eq!(grid.cells[0].pos_string(), "0");
    assert_eq!(grid.cells[10].pos_string(), "10");
    let cell = GridCell::new_from_rect(4294967295, 1, 2);
    assert_eq!(cell.pos_string(), "4294967295");
}

#[test]
fn cell_colors() {
    let mut cell = GridCell::new_from_rect(3, 0, 3);
    assert_eq!(cell.get_send_color(), Rgba8::new(0, 0, 0, 0));
    assert_eq!(cell.get_display_color(), Rgba8::new(10, 10, 10, 10));
    cell.is_active = true;
    cell.display_color = Rgba8::new(1, 2, 3, 4);
    assert_eq!(cell.get_send_color(), Rgba8::new(1, 2, 3, 4));
    assert_eq!(cell.get_display_color(), Rgba8::new(1, 2, 3, 4));
    cell.reset();
    assert!(!cell.is_active);
    assert_eq!(cell.display_color, Rgba8::new(10, 10, 10, 10));
    assert_eq!(cell.pos, 3);
}

#[test]
fn led_buffer_holds_rgb_of_lit_cells() {
    let mut grid = ReceiverGrid::new(2, 2, false, LayoutMode::FollowRow, (0, 0));
    grid.activate_cell(1, Rgba8::new(9, 8, 7, 6));
    assert!(!grid.update_led_buffer());
    assert!(grid.led_buffer.iter().all(|b| *b == 0));
    grid.device.establish_conn = true;
    assert!(grid.update_led_buffer());
    assert_eq!(grid.led_buffer, vec![0, 0, 0, 9, 8, 7, 0, 0, 0, 0, 0, 0]);
    grid.reset_cells();
    assert!(grid.update_led_buffer());
    assert!(grid.led_buffer.iter().all(|b| *b == 0));
}

#[test]
fn first_object_colours_a_cell() {
    let mut grid = ReceiverGrid::new(3, 2, false, LayoutMode::FollowRow, (0, 0));
    grid.activate_cell(0, Rgba8::new(5, 5, 5, 5));
    let red = Rgba8::new(255, 0, 0, 255);
    let blue = Rgba8::new(0, 0, 255, 255);
    let covers = vec![(vec![1, 2, 99], red), (vec![2, 3, 3], blue), (vec![], red)];
    grid.paint_cells(&covers);
    let states: Vec<(bool, Rgba8)> = grid.cells.iter().map(|c| (c.is_active, c.display_color)).collect();
    let idle = Rgba8::new(10, 10, 10, 10);
    assert_eq!(
        states,
        vec![(false, idle), (true, red), (true, red), (true, blue), (false, idle), (false, idle)]
    );
    assert_eq!(grid.cells.iter().map(|c| c.pos).collect::<Vec<u32>>(), vec![0, 1, 2, 3, 4, 5]);
    grid.paint_cells(&vec![]);
    assert!(grid.cells.iter().all(|c| !c.is_active && c.display_color == idle));
}

#[test]
fn cell_range_is_clamped() {
    let grid = ReceiverGrid::new(4, 3, false, LayoutMode::FollowRow, (0, 0));
    assert_eq!(grid.get_cell_range(false, Some((1, 9, 0, 7))), (1, 3, 0, 2));
    assert_eq!(grid.get_cell_range(true, Some((1, 1, 1, 1))), (0, 3, 0, 2));
    assert_eq!(grid.get_cell_range(false, None), (0, 0, 0, 0));
}

#[test]
fn dragging_rows_moves_their_offset() {
    let mut grid = ReceiverGrid::new(3, 3, false, LayoutMode::FollowRow, (0, 0));
    // Not in edit mode: nothing happens.
    grid.mouse_pressed(MouseButton::Left, Some(4));
    assert_eq!(grid.drag_target, None);
    grid.edit_mode = true;
    grid.mouse_pressed(MouseButton::Right, Some(4));
    assert_eq!(grid.drag_target, None);
    grid.mouse_pressed(MouseButton::Left, Some(4));
    assert_eq!(grid.drag_target, Some(DragTarget::Row(1)));
    assert_eq!(grid.drag_anchor_offset, (0, 0));
    grid.mouse_moved((5, -2));
    assert_eq!(grid.row_offsets, vec![(0, 0), (5, -2), (0, 0)]);
    grid.mouse_released(MouseButton::Left);
    assert_eq!(grid.drag_target, None);
    grid.mouse_moved((7, 7));
    assert_eq!(grid.row_offsets, vec![(0, 0), (5, -2), (0, 0)]);

    grid.selection_mode = SelectionMode::Columns;
    grid.mouse_pressed(MouseButton::Left, Some(5));
    assert_eq!(grid.drag_target, Some(DragTarget::Column(2)));
    grid.mouse_moved((1, 1));
    assert_eq!(grid.column_offsets, vec![(0, 0), (0, 0), (1, 1)]);

    grid.reset_offsets();
    assert!(grid.row_offsets.iter().all(|o| *o == (0, 0)));
    assert!(grid.column_offsets.iter().all(|o| *o == (0, 0)));
}

#[test]
fn shrinking_drops_a_drag_target_outside_the_grid() {
    let mut grid = ReceiverGrid::new(3, 3, false, LayoutMode::FollowRow, (0, 0));
    grid.edit_mode = true;
    grid.mouse_pressed(MouseButton::Left, Some(8));
    assert_eq!(grid.drag_target, Some(DragTarget::Row(2)));
    grid.mouse_moved((1, 2));
    grid.rows = 2;
    grid.update_cells();
    assert_eq!(grid.drag_target, None);
    assert_eq!(grid.row_offsets, vec![(0, 0), (0, 0)]);
    grid.rows = 4;
    grid.update_cells();
    assert_eq!(grid.row_offsets.len(), 4);
}

#[test]
fn save_names_and_labels() {
    let mut grid = ReceiverGrid::new(10, 10, false, LayoutMode::FollowRow, (0, 0));
    assert_eq!(grid.debug_font_size(), 10);
    grid.device.name = "  Wall left \n".to_string();
    assert_eq!(grid.save_file_name(), "Wall left");
    grid.device.name = " \t ".to_string();
    assert_eq!(grid.save_file_name(), "device");
    grid.device.name = "\u{3000}\u{a0}Bar\u{2009}one\u{85}\u{2028}".to_string();
    assert_eq!(grid.save_file_name(), "Bar\u{2009}one");
    grid.device.name = "\u{200b}Zero width\u{200b}".to_string();
    assert_eq!(grid.save_file_name(), "\u{200b}Zero width\u{200b}");
    for name in ["", " x ", "\u{1680}y\u{205f}", "\r\n z\u{c}\u{b}", "\u{202f}\u{2000}\u{200a}"] {
        grid.device.name = name.to_string();
        let expected = if name.trim().is_empty() { "device" } else { name.trim() };
        assert_eq!(grid.save_file_name(), expected);
    }
    let small = ReceiverGrid::new(3, 3, false, LayoutMode::FollowRow, (0, 0));
    assert_eq!(small.debug_font_size(), 12);
}

#[test]
fn required_cols_matches_float_quotient_up_to_2_pow_24() {
    let float_cols = |l: u32, r: u32| ((l.max(1) as f32) / (r.max(1) as f32)).ceil() as u32;
    for l in 0..=2_000u32 {
        for r in 0..=60u32 {
            assert_eq!(ReceiverGrid::<(i32, i32)>::required_cols(l, r), float_cols(l, r));
        }
    }
    for l in [10_000u32, 65_535, 1_000_003, 16_777_215, 16_777_216] {
        for r in [1u32, 3, 7, 1_000, 4_095, 65_536, 16_777_216, u32::MAX] {
            assert_eq!(ReceiverGrid::<(i32, i32)>::required_cols(l, r), float_cols(l, r));
        }
    }
    assert_eq!(ReceiverGrid::<(i32, i32)>::required_cols(16_777_217, 1), 16_777_217);
    assert_eq!(ReceiverGrid::<(i32, i32)>::required_cols(7, 2), 4);
}
