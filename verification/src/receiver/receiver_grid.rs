use vstd::prelude::*;
use crate::rgba::{Rgba8, rgba};
use crate::text::{decimal, decimal_string, trim, trimmed};
use crate::receiver::receiver_device::ReceiverDevice;

verus! {

/// The order in which LED positions run through the grid.
#[derive(Clone, Copy, Debug, PartialEq, Eq, Structural)]
pub enum LayoutMode {
    /// Along each row in turn: `0 1 2 3 / 4 5 6 7`.
    FollowRow,
    /// Down each column in turn: `0 4 / 1 5 / 2 6 / 3 7`.
    FollowColum,
}

/// Whether dragging in edit mode moves rows or columns.
#[derive(Clone, Copy, Debug, PartialEq, Eq, Structural)]
pub enum SelectionMode {
    Rows,
    Columns,
}

impl Default for SelectionMode {
    fn default() -> (m: Self)
        ensures
            m == SelectionMode::Rows,
    {
        SelectionMode::Rows
    }
}

/// The row or column being dragged.
#[derive(Clone, Copy, Debug, PartialEq, Eq, Structural)]
pub enum DragTarget {
    Row(usize),
    Column(usize),
}

/// The mouse buttons the grid tells apart.
#[derive(Clone, Copy, Debug, PartialEq, Eq, Structural)]
pub enum MouseButton {
    Left,
    Right,
    Middle,
    Other,
}

/// The colour a cell shows while nothing lights it.
pub open spec fn idle_color() -> Rgba8 {
    rgba(10, 10, 10, 10)
}

/// The colour an unlit cell sends to the LEDs.
pub open spec fn dark_color() -> Rgba8 {
    rgba(0, 0, 0, 0)
}

/// One LED of the grid: its position in the LED strip, its row and
/// column, and the colour an effect gave it in the current frame. Its
/// place on screen is kept by the application.
#[derive(Clone, Debug)]
pub struct GridCell {
    pub pos: u32,
    pub row: u32,
    pub col: u32,
    pub display_color: Rgba8,
    pub is_active: bool,
    pub pos_string: String,
}

impl GridCell {
    /// The cached decimal text of the cell's position.
    pub open spec fn label(self) -> Seq<char> {
        self.pos_string@
    }

    /// A fresh, unlit cell at strip position `pos`, row `row`, column `col`.
    pub open spec fn is_fresh(self, pos: int, row: int, col: int) -> bool {
        &&& self.pos == pos
        &&& self.row == row
        &&& self.col == col
        &&& self.display_color == idle_color()
        &&& !self.is_active
        &&& self.label() == decimal(pos as nat)
    }

    /// A fresh, unlit cell. Its screen rectangle is computed by the
    /// application from its row and column.
    pub fn new_from_rect(pos: u32, row: u32, col: u32) -> (c: Self)
        ensures
            c.is_fresh(pos as int, row as int, col as int),
    {
        GridCell {
            is_active: false,
            display_color: Rgba8::new(10, 10, 10, 10),
            pos,
            row,
            col,
            pos_string: decimal_string(pos as u64),
        }
    }

    /// The cached decimal text of the cell's position.
    pub fn pos_string(&self) -> (s: &str)
        ensures
            s@ == self.label(),
    {
        self.pos_string.as_str()
    }

    /// Turns the cell off and gives it the idle colour.
    pub fn reset(&mut self)
        ensures
            !final(self).is_active,
            final(self).display_color == idle_color(),
            final(self).pos == old(self).pos,
            final(self).row == old(self).row,
            final(self).col == old(self).col,
            final(self).label() == old(self).label(),
    {
        self.is_active = false;
        self.display_color = Rgba8::new(10, 10, 10, 10);
    }

    /// The colour sent to the LED: the cell's colour while lit, dark otherwise.
    pub fn get_send_color(&self) -> (c: Rgba8)
        ensures
            c == (if self.is_active { self.display_color } else { dark_color() }),
    {
        if self.is_active {
            return self.display_color;
        }
        Rgba8::new(0, 0, 0, 0)
    }

    /// The colour drawn on screen: the cell's colour while lit, the idle
    /// colour otherwise.
    pub fn get_display_color(&self) -> (c: Rgba8)
        ensures
            c == (if self.is_active { self.display_color } else { idle_color() }),
    {
        if self.is_active {
            return self.display_color;
        }
        Rgba8::new(10, 10, 10, 10)
    }
}

/// The row of LED position `p` in a grid of `rows` by `cols` cells.
pub open spec fn layout_row(layout: LayoutMode, rows: int, cols: int, p: int) -> int {
    match layout {
        LayoutMode::FollowRow => p / cols,
        LayoutMode::FollowColum => p % rows,
    }
}

/// The column of LED position `p` in a grid of `rows` by `cols` cells.
pub open spec fn layout_col(layout: LayoutMode, rows: int, cols: int, p: int) -> int {
    match layout {
        LayoutMode::FollowRow => p % cols,
        LayoutMode::FollowColum => p / rows,
    }
}

/// The LED position of the cell in row `row` and column `col`.
pub open spec fn cell_index(layout: LayoutMode, rows: int, cols: int, row: int, col: int) -> int {
    match layout {
        LayoutMode::FollowRow => row * cols + col,
        LayoutMode::FollowColum => col * rows + row,
    }
}

/// The number of columns needed for `led_count` LEDs in `rows` rows
/// (each taken at least one): the quotient rounded up.
pub open spec fn spec_required_cols(led_count: int, rows: int) -> int {
    let l = if led_count >= 1 { led_count } else { 1 };
    let r = if rows >= 1 { rows } else { 1 };
    (l + r - 1) / r
}

/// `cells` is the layout of the first `count` LED positions: cell `i`
/// is a fresh cell at position `i`, in the row and column the layout
/// gives that position.
pub open spec fn is_layout(cells: Seq<GridCell>, layout: LayoutMode, rows: int, cols: int, count: int) -> bool {
    &&& cells.len() == count
    &&& forall|i: int|
        0 <= i < count ==> #[trigger] cells[i].is_fresh(
            i,
            layout_row(layout, rows, cols, i),
            layout_col(layout, rows, cols, i),
        )
}

/// `cells` holds one cell per LED position `0..count`, each in the row
/// and column the layout gives that position; colours may differ.
pub open spec fn cells_placed(cells: Seq<GridCell>, layout: LayoutMode, rows: int, cols: int, count: int) -> bool {
    &&& cells.len() == count
    &&& forall|i: int|
        0 <= i < count ==> {
            &&& (#[trigger] cells[i]).pos == i
            &&& cells[i].row == layout_row(layout, rows, cols, i)
            &&& cells[i].col == layout_col(layout, rows, cols, i)
            &&& cells[i].label() == decimal(i as nat)
        }
}

proof fn lemma_row_major(p: int, r: int, c: int, cols: int)
    requires
        0 <= c < cols,
        p == r * cols + c,
    ensures
        p / cols == r,
        p % cols == c,
{
    vstd::arithmetic::div_mod::lemma_fundamental_div_mod_converse(p, cols, r, c);
}

proof fn lemma_required_cols_cover(l: int, r: int)
    requires
        l >= 1,
        r >= 1,
    ensures
        r * ((l + r - 1) / r) >= l,
        r * ((l + r - 1) / r) < l + r,
        (l + r - 1) / r >= 1,
{
    let q = (l + r - 1) / r;
    let m = (l + r - 1) % r;
    vstd::arithmetic::div_mod::lemma_fundamental_div_mod(l + r - 1, r);
    assert(l + r - 1 == r * q + m);
    assert(0 <= m < r);
    assert(r * q >= l);
    assert(r * q < l + r);
    if q < 1 {
        assert(r * q <= 0) by (nonlinear_arith)
            requires
                q < 1,
                r >= 1,
                q >= 0 || q < 0,
        {
        }
    }
}

/// The smaller of two integers.
pub open spec fn min_int(a: int, b: int) -> int {
    if a <= b { a } else { b }
}

/// The cells of a grid of `rows` by `cols` holding `led_count` LEDs: one
/// fresh cell per LED position, up to the number of places the grid has,
/// in the order of the layout. A grid without rows, columns or LEDs has
/// no cells.
pub fn create_grid(rows: u32, cols: u32, led_count: u32, layout_mode: LayoutMode) -> (grid: Vec<GridCell>)
    ensures
        (rows == 0 || cols == 0 || led_count == 0) ==> grid@.len() == 0,
        (rows > 0 && cols > 0 && led_count > 0) ==> is_layout(
            grid@,
            layout_mode,
            rows as int,
            cols as int,
            min_int(led_count as int, rows as int * cols as int),
        ),
{
    let mut grid: Vec<GridCell> = Vec::new();
    if cols == 0 || rows == 0 || led_count == 0 {
        return grid;
    }
    let ghost total = min_int(led_count as int, rows as int * cols as int);
    let mut pos: u32 = 0;
    match layout_mode {
        LayoutMode::FollowRow => {
            let mut r: u32 = 0;
            while r < rows
                invariant
                    rows > 0,
                    cols > 0,
                    layout_mode == LayoutMode::FollowRow,
                    r <= rows,
                    pos as int == r as int * cols as int,
                    pos <= led_count,
                    total == min_int(led_count as int, rows as int * cols as int),
                    is_layout(grid@, layout_mode, rows as int, cols as int, pos as int),
                decreases rows - r,
            {
                let mut c: u32 = 0;
                while c < cols
                    invariant
                        rows > 0,
                        cols > 0,
                        layout_mode == LayoutMode::FollowRow,
                        r < rows,
                        c <= cols,
                        pos as int == r as int * cols as int + c as int,
                        pos <= led_count,
                        total == min_int(led_count as int, rows as int * cols as int),
                        is_layout(grid@, layout_mode, rows as int, cols as int, pos as int),
                    decreases cols - c,
                {
                    if pos >= led_count {
                        proof {
                            assert(r as int * cols as int + c as int <= rows as int * cols as int) by (nonlinear_arith)
                                requires
                                    r < rows,
                                    c < cols,
                            {
                            }
                            assert(total == pos as int);
                        }
                        return grid;
                    }
                    proof {
                        lemma_row_major(pos as int, r as int, c as int, cols as int);
                    }
                    grid.push(GridCell::new_from_rect(pos, r, c));
                    pos = pos + 1;
                    c = c + 1;
                }
                proof {
                    assert(r as int * cols as int + cols as int == (r as int + 1) * cols as int) by (nonlinear_arith);
                }
                r = r + 1;
            }
            proof {
                assert(pos as int == rows as int * cols as int);
            }
        }
        LayoutMode::FollowColum => {
            let mut c: u32 = 0;
            while c < cols
                invariant
                    rows > 0,
                    cols > 0,
                    layout_mode == LayoutMode::FollowColum,
                    c <= cols,
                    pos as int == c as int * rows as int,
                    pos <= led_count,
                    total == min_int(led_count as int, rows as int * cols as int),
                    is_layout(grid@, layout_mode, rows as int, cols as int, pos as int),
                decreases cols - c,
            {
                let mut r: u32 = 0;
                while r < rows
                    invariant
                        rows > 0,
                        cols > 0,
                        layout_mode == LayoutMode::FollowColum,
                        c < cols,
                        r <= rows,
                        pos as int == c as int * rows as int + r as int,
                        pos <= led_count,
                        total == min_int(led_count as int, rows as int * cols as int),
                        is_layout(grid@, layout_mode, rows as int, cols as int, pos as int),
                    decreases rows - r,
                {
                    if pos >= led_count {
                        proof {
                            assert(c as int * rows as int + r as int <= rows as int * cols as int) by (nonlinear_arith)
                                requires
                                    r < rows,
                                    c < cols,
                            {
                            }
                            assert(total == pos as int);
                        }
                        return grid;
                    }
                    proof {
                        lemma_row_major(pos as int, c as int, r as int, rows as int);
                    }
                    grid.push(GridCell::new_from_rect(pos, r, c));
                    pos = pos + 1;
                    r = r + 1;
                }
                proof {
                    assert(c as int * rows as int + rows as int == (c as int + 1) * rows as int) by (nonlinear_arith);
                }
                c = c + 1;
            }
            proof {
                assert(pos as int == cols as int * rows as int);
                assert(cols as int * rows as int == rows as int * cols as int) by (nonlinear_arith);
            }
        }
    }
    grid
}

proof fn lemma_fresh_cells_placed(cells: Seq<GridCell>, layout: LayoutMode, rows: int, cols: int, count: int)
    requires
        is_layout(cells, layout, rows, cols, count),
    ensures
        cells_placed(cells, layout, rows, cols, count),
{
    assert forall|i: int| 0 <= i < count implies {
        &&& (#[trigger] cells[i]).pos == i
        &&& cells[i].row == layout_row(layout, rows, cols, i)
        &&& cells[i].col == layout_col(layout, rows, cols, i)
        &&& cells[i].label() == decimal(i as nat)
    } by {
        assert(cells[i].is_fresh(i, layout_row(layout, rows, cols, i), layout_col(layout, rows, cols, i)));
    }
}

/// `new` is `old` brought to length `n`: the first entries kept, new
/// places filled with `fill`.
pub open spec fn resized<T>(old: Seq<T>, new: Seq<T>, n: int, fill: T) -> bool {
    &&& new.len() == n
    &&& forall|i: int| 0 <= i < n ==> #[trigger] new[i] == if i < old.len() { old[i] } else { fill }
}

/// Brings `v` to length `n`, keeping its first entries and filling new
/// places with `fill`.
fn resize_filled<T: Copy>(v: &mut Vec<T>, n: usize, fill: T)
    ensures
        resized(old(v)@, final(v)@, n as int, fill),
{
    if v.len() > n {
        v.truncate(n);
        return;
    }
    let ghost start = v@;
    while v.len() < n
        invariant
            start.len() <= v@.len() <= n,
            forall|i: int| 0 <= i < v@.len() ==> #[trigger] v@[i] == if i < start.len() { start[i] } else { fill },
        decreases n - v@.len(),
    {
        v.push(fill);
    }
}

/// Three bytes per LED fit in memory (always so on 64-bit targets).
pub open spec fn buffer_fits(led_count: int) -> bool {
    3 * led_count <= usize::MAX
}

/// The drag target after the grid shrank to `rows` rows and `cols`
/// columns: dropped when its row or column is gone.
pub open spec fn pruned_target(t: Option<DragTarget>, rows: int, cols: int) -> Option<DragTarget> {
    match t {
        Some(DragTarget::Row(r)) => if r >= rows { None } else { t },
        Some(DragTarget::Column(c)) => if c >= cols { None } else { t },
        None => None,
    }
}

/// The drag target names a row or column the grid has.
pub open spec fn target_in_range(t: Option<DragTarget>, rows: int, cols: int) -> bool {
    match t {
        Some(DragTarget::Row(r)) => r < rows,
        Some(DragTarget::Column(c)) => c < cols,
        None => true,
    }
}

/// The LED grid an animation is mapped onto: how many LEDs it holds, in
/// how many rows and columns, in which order the LED strip runs through
/// it, the per-row and per-column offsets the user dragged in, the
/// device it streams to and the buffer of bytes streamed. Offsets are of
/// the application's vector type `O`; the geometry on screen is computed
/// by the application from rows, columns and offsets.
pub struct ReceiverGrid<O> {
    pub cells: Vec<GridCell>,
    pub led_count: u32,
    pub cols: u32,
    pub rows: u32,
    pub device: ReceiverDevice,
    pub show_debug_info: bool,
    pub show_grid: bool,
    pub led_buffer: Vec<u8>,
    pub layout_mode: LayoutMode,
    pub selection_mode: SelectionMode,
    pub edit_mode: bool,
    pub row_offsets: Vec<O>,
    pub column_offsets: Vec<O>,
    pub drag_target: Option<DragTarget>,
    pub drag_anchor_offset: O,
    pub zero_offset: O,
}

impl<O: Copy> ReceiverGrid<O> {
    /// A consistent grid: at least one row and one LED, just enough
    /// columns for the LEDs, one cell per LED in layout order, one offset
    /// per row and per column, three buffer bytes per cell, and a drag
    /// target inside the grid.
    pub open spec fn wf(&self) -> bool {
        &&& self.rows >= 1
        &&& self.led_count >= 1
        &&& self.cols == spec_required_cols(self.led_count as int, self.rows as int)
        &&& cells_placed(self.cells@, self.layout_mode, self.rows as int, self.cols as int, self.led_count as int)
        &&& self.row_offsets@.len() == self.rows
        &&& self.column_offsets@.len() == self.cols
        &&& self.led_buffer@.len() == 3 * self.cells@.len()
        &&& target_in_range(self.drag_target, self.rows as int, self.cols as int)
    }

    /// A consistent grid's LED buffer already holds three bytes per LED,
    /// so rebuilding it needs no more memory than it has.
    proof fn lemma_wf_buffer_fits(&self)
        requires
            self.wf(),
        ensures
            buffer_fits(self.led_count as int),
    {
        assert(self.led_buffer@.len() == self.led_buffer.len());
    }

    /// The settings that regenerating the cells leaves as they are.
    pub open spec fn same_settings(&self, other: &Self) -> bool {
        &&& self.device == other.device
        &&& self.show_debug_info == other.show_debug_info
        &&& self.show_grid == other.show_grid
        &&& self.layout_mode == other.layout_mode
        &&& self.selection_mode == other.selection_mode
        &&& self.edit_mode == other.edit_mode
        &&& self.drag_anchor_offset == other.drag_anchor_offset
        &&& self.zero_offset == other.zero_offset
    }

    /// The number of columns needed for `led_count` LEDs in `rows` rows
    /// (both taken at least one): the quotient rounded up. The quotient
    /// is exact; a single-precision float quotient gives the same count
    /// up to 2^24 LEDs and can fall short beyond.
    pub fn required_cols(led_count: u32, rows: u32) -> (c: u32)
        ensures
            c as int == spec_required_cols(led_count as int, rows as int),
            c >= 1,
    {
        let l: u64 = if led_count >= 1 { led_count as u64 } else { 1 };
        let r: u64 = if rows >= 1 { rows as u64 } else { 1 };
        let q = (l + r - 1) / r;
        proof {
            lemma_required_cols_cover(l as int, r as int);
            assert(q <= l) by (nonlinear_arith)
                requires
                    r * q < l + r,
                    r >= 1,
                    l >= 1,
                    q >= 0,
            {
            }
        }
        q as u32
    }

    /// Brings the offset lists to one entry per row and per column (new
    /// entries zero) and drops a drag target that left the grid.
    fn ensure_offset_counts(&mut self)
        ensures
            resized(old(self).row_offsets@, final(self).row_offsets@, old(self).rows as int, old(self).zero_offset),
            resized(old(self).column_offsets@, final(self).column_offsets@, old(self).cols as int, old(self).zero_offset),
            final(self).drag_target == pruned_target(old(self).drag_target, old(self).rows as int, old(self).cols as int),
            final(self).cells == old(self).cells,
            final(self).led_count == old(self).led_count,
            final(self).rows == old(self).rows,
            final(self).cols == old(self).cols,
            final(self).led_buffer == old(self).led_buffer,
            final(self).same_settings(old(self)),
    {
        let required_rows = self.rows as usize;
        let zero = self.zero_offset;
        resize_filled(&mut self.row_offsets, required_rows, zero);
        let required_cols = self.cols as usize;
        resize_filled(&mut self.column_offsets, required_cols, zero);
        match self.drag_target {
            Some(DragTarget::Row(row)) => {
                if row >= required_rows {
                    self.drag_target = None;
                }
            }
            Some(DragTarget::Column(col)) => {
                if col >= required_cols {
                    self.drag_target = None;
                }
            }
            None => {}
        }
    }

    /// Rebuilds the cells after a change of LED count, rows or layout:
    /// rows and LED count are taken at least one, the columns recomputed,
    /// the offset lists and the LED buffer brought to size, and every
    /// cell made fresh in layout order.
    pub fn update_cells(&mut self)
        requires
            buffer_fits(old(self).led_count as int),
        ensures
            final(self).wf(),
            final(self).rows == (if old(self).rows >= 1 { old(self).rows } else { 1 }),
            final(self).led_count == (if old(self).led_count >= 1 { old(self).led_count } else { 1 }),
            is_layout(
                final(self).cells@,
                final(self).layout_mode,
                final(self).rows as int,
                final(self).cols as int,
                final(self).led_count as int,
            ),
            resized(old(self).row_offsets@, final(self).row_offsets@, final(self).rows as int, old(self).zero_offset),
            resized(old(self).column_offsets@, final(self).column_offsets@, final(self).cols as int, old(self).zero_offset),
            resized(old(self).led_buffer@, final(self).led_buffer@, 3 * final(self).led_count, 0u8),
            final(self).drag_target == pruned_target(
                old(self).drag_target,
                final(self).rows as int,
                final(self).cols as int,
            ),
            final(self).same_settings(old(self)),
    {
        if self.rows < 1 {
            self.rows = 1;
        }
        if self.led_count < 1 {
            self.led_count = 1;
        }
        self.cols = Self::required_cols(self.led_count, self.rows);
        self.ensure_offset_counts();
        proof {
            lemma_required_cols_cover(self.led_count as int, self.rows as int);
        }
        self.cells = create_grid(self.rows, self.cols, self.led_count, self.layout_mode);
        proof {
            assert(min_int(self.led_count as int, self.rows as int * self.cols as int) == self.led_count as int);
            lemma_fresh_cells_placed(self.cells@, self.layout_mode, self.rows as int, self.cols as int, self.led_count as int);
        }
        let buffer_len = self.cells.len() * 3;
        resize_filled(&mut self.led_buffer, buffer_len, 0u8);
    }
}

impl<O: Copy> ReceiverGrid<O> {
    /// A grid of `rows` by `cols` cells holding one LED per place (at
    /// least one), laid out in the given order, all offsets `zero`, not in
    /// edit mode, with the grid and debug overlay hidden as given and the
    /// default device.
    pub fn new(cols: u32, rows: u32, debug: bool, layout_mode: LayoutMode, zero: O) -> (grid: Self)
        requires
            rows as int * cols as int <= u32::MAX,
            buffer_fits(if rows as int * cols as int >= 1 { rows as int * cols as int } else { 1 }),
        ensures
            grid.wf(),
            grid.rows == (if rows >= 1 { rows } else { 1 }),
            grid.led_count == (if rows as int * cols as int >= 1 { rows as int * cols as int } else { 1 }),
            is_layout(grid.cells@, layout_mode, grid.rows as int, grid.cols as int, grid.led_count as int),
            forall|i: int| 0 <= i < grid.row_offsets@.len() ==> grid.row_offsets@[i] == zero,
            forall|i: int| 0 <= i < grid.column_offsets@.len() ==> grid.column_offsets@[i] == zero,
            forall|i: int| 0 <= i < grid.led_buffer@.len() ==> grid.led_buffer@[i] == 0u8,
            grid.layout_mode == layout_mode,
            grid.show_debug_info == debug,
            !grid.show_grid,
            !grid.edit_mode,
            grid.selection_mode == SelectionMode::Rows,
            grid.drag_target == None::<DragTarget>,
            grid.drag_anchor_offset == zero,
            grid.zero_offset == zero,
            grid.device.ip@ == "192.168.178.102"@,
            grid.device.name@ == "Default"@,
            grid.device.max_len == 400,
            !grid.device.establish_conn,
    {
        let product = rows * cols;
        let led_count = if product >= 1 { product } else { 1 };
        let cols = Self::required_cols(led_count, rows);
        let cell_count = led_count as usize;
        let mut led_buffer: Vec<u8> = Vec::new();
        resize_filled(&mut led_buffer, cell_count * 3, 0u8);
        let mut row_offsets: Vec<O> = Vec::new();
        resize_filled(&mut row_offsets, rows as usize, zero);
        let mut column_offsets: Vec<O> = Vec::new();
        resize_filled(&mut column_offsets, cols as usize, zero);
        let mut grid = ReceiverGrid {
            cells: Vec::new(),
            led_count,
            cols,
            rows,
            device: ReceiverDevice::default(),
            show_debug_info: debug,
            show_grid: false,
            led_buffer,
            layout_mode,
            selection_mode: SelectionMode::Rows,
            edit_mode: false,
            row_offsets,
            column_offsets,
            drag_target: None,
            drag_anchor_offset: zero,
            zero_offset: zero,
        };
        grid.update_cells();
        grid
    }

    /// The LED position of the cell in row `row` and column `col`, for
    /// the grid's layout.
    pub fn get_cell_index(&self, row: u32, col: u32) -> (idx: usize)
        requires
            0 <= cell_index(self.layout_mode, self.rows as int, self.cols as int, row as int, col as int) <= u32::MAX,
        ensures
            idx as int == cell_index(self.layout_mode, self.rows as int, self.cols as int, row as int, col as int),
    {
        match self.layout_mode {
            LayoutMode::FollowRow => (row * self.cols + col) as usize,
            LayoutMode::FollowColum => (col * self.rows + row) as usize,
        }
    }

    /// Turns every cell off and gives it the idle colour.
    pub fn reset_cells(&mut self)
        ensures
            final(self).cells@.len() == old(self).cells@.len(),
            forall|i: int|
                0 <= i < final(self).cells@.len() ==> {
                    &&& !(#[trigger] final(self).cells@[i]).is_active
                    &&& final(self).cells@[i].display_color == idle_color()
                    &&& final(self).cells@[i].pos == old(self).cells@[i].pos
                    &&& final(self).cells@[i].row == old(self).cells@[i].row
                    &&& final(self).cells@[i].col == old(self).cells@[i].col
                    &&& final(self).cells@[i].label() == old(self).cells@[i].label()
                },
            final(self).led_count == old(self).led_count,
            final(self).rows == old(self).rows,
            final(self).cols == old(self).cols,
            final(self).row_offsets == old(self).row_offsets,
            final(self).column_offsets == old(self).column_offsets,
            final(self).led_buffer == old(self).led_buffer,
            final(self).drag_target == old(self).drag_target,
            final(self).same_settings(old(self)),
    {
        let n = self.cells.len();
        let mut i: usize = 0;
        while i < n
            invariant
                n == old(self).cells@.len(),
                self.cells@.len() == n,
                i <= n,
                forall|j: int|
                    0 <= j < i ==> {
                        &&& !(#[trigger] self.cells@[j]).is_active
                        &&& self.cells@[j].display_color == idle_color()
                        &&& self.cells@[j].pos == old(self).cells@[j].pos
                        &&& self.cells@[j].row == old(self).cells@[j].row
                        &&& self.cells@[j].col == old(self).cells@[j].col
                        &&& self.cells@[j].label() == old(self).cells@[j].label()
                    },
                forall|j: int| i <= j < n ==> #[trigger] self.cells@[j] == old(self).cells@[j],
                self.led_count == old(self).led_count,
                self.rows == old(self).rows,
                self.cols == old(self).cols,
                self.row_offsets == old(self).row_offsets,
                self.column_offsets == old(self).column_offsets,
                self.led_buffer == old(self).led_buffer,
                self.drag_target == old(self).drag_target,
                self.same_settings(old(self)),
            decreases n - i,
        {
            self.cells[i].reset();
            i = i + 1;
        }
    }
}

/// `buf` holds, for each cell in order, the red, green and blue bytes of
/// the colour it sends.
pub open spec fn buffer_matches(buf: Seq<u8>, cells: Seq<GridCell>) -> bool {
    &&& buf.len() == 3 * cells.len()
    &&& forall|i: int|
        0 <= i < cells.len() ==> {
            &&& buf[3 * i] == (#[trigger] cells[i]).send_color().red
            &&& buf[3 * i + 1] == cells[i].send_color().green
            &&& buf[3 * i + 2] == cells[i].send_color().blue
        }
}

impl GridCell {
    /// The colour sent to the LED: the cell's colour while lit, dark otherwise.
    pub open spec fn send_color(self) -> Rgba8 {
        if self.is_active { self.display_color } else { dark_color() }
    }
}

/// A cell range with every bound clamped to the last column or row.
pub open spec fn clamped_range(raw: (u32, u32, u32, u32), cols: u32, rows: u32) -> (u32, u32, u32, u32) {
    let (min_col, max_col, min_row, max_row) = raw;
    (
        min_u32(min_col, (cols - 1) as u32),
        min_u32(max_col, (cols - 1) as u32),
        min_u32(min_row, (rows - 1) as u32),
        min_u32(max_row, (rows - 1) as u32),
    )
}

/// The smaller of two counts.
pub open spec fn min_u32(a: u32, b: u32) -> u32 {
    if a <= b { a } else { b }
}

impl<O: Copy> ReceiverGrid<O> {
    /// The range `(min_col, max_col, min_row, max_row)` of cells an object
    /// may touch. `has_offsets` tells whether any row or column was moved;
    /// `raw` is the range the object's bounds give on the unmoved grid, or
    /// `None` when the grid's cells have no area. An empty grid gives the
    /// single first cell, a moved grid all cells, and a raw range is
    /// clamped to the grid.
    pub fn get_cell_range(&self, has_offsets: bool, raw: Option<(u32, u32, u32, u32)>) -> (r: (u32, u32, u32, u32))
        ensures
            (self.cols == 0 || self.rows == 0) ==> r == (0u32, 0u32, 0u32, 0u32),
            (self.cols > 0 && self.rows > 0 && has_offsets) ==> r == (0u32, (self.cols - 1) as u32, 0u32, (self.rows - 1) as u32),
            (self.cols > 0 && self.rows > 0 && !has_offsets && raw is None) ==> r == (0u32, 0u32, 0u32, 0u32),
            (self.cols > 0 && self.rows > 0 && !has_offsets && raw is Some) ==> r == clamped_range(
                raw->0,
                self.cols,
                self.rows,
            ),
            (self.cols > 0 && self.rows > 0 && !has_offsets && raw is Some) ==> ({
                let (min_col, max_col, min_row, max_row) = raw->0;
                &&& r.0 < self.cols && r.1 < self.cols && r.2 < self.rows && r.3 < self.rows
                &&& (min_col < self.cols ==> r.0 == min_col)
                &&& (max_col < self.cols ==> r.1 == max_col)
                &&& (min_row < self.rows ==> r.2 == min_row)
                &&& (max_row < self.rows ==> r.3 == max_row)
                &&& (min_col >= self.cols ==> r.0 == self.cols - 1)
                &&& (max_col >= self.cols ==> r.1 == self.cols - 1)
                &&& (min_row >= self.rows ==> r.2 == self.rows - 1)
                &&& (max_row >= self.rows ==> r.3 == self.rows - 1)
            }),
    {
        if self.cols == 0 || self.rows == 0 {
            return (0, 0, 0, 0);
        }
        if has_offsets {
            return (0, self.cols - 1, 0, self.rows - 1);
        }
        match raw {
            None => (0, 0, 0, 0),
            Some((min_col, max_col, min_row, max_row)) => {
                let last_col = self.cols - 1;
                let last_row = self.rows - 1;
                (
                    if min_col <= last_col { min_col } else { last_col },
                    if max_col <= last_col { max_col } else { last_col },
                    if min_row <= last_row { min_row } else { last_row },
                    if max_row <= last_row { max_row } else { last_row },
                )
            }
        }
    }

    /// Fills the LED buffer with the colours the cells send, when the
    /// device is connected; returns whether the buffer is to be sent.
    pub fn update_led_buffer(&mut self) -> (send: bool)
        requires
            3 * old(self).cells@.len() <= usize::MAX,
        ensures
            send == old(self).device.establish_conn,
            send ==> buffer_matches(final(self).led_buffer@, final(self).cells@),
            !send ==> final(self).led_buffer == old(self).led_buffer,
            final(self).cells == old(self).cells,
            final(self).led_count == old(self).led_count,
            final(self).rows == old(self).rows,
            final(self).cols == old(self).cols,
            final(self).row_offsets == old(self).row_offsets,
            final(self).column_offsets == old(self).column_offsets,
            final(self).drag_target == old(self).drag_target,
            final(self).same_settings(old(self)),
    {
        if !self.device.establish_conn {
            return false;
        }
        let n = self.cells.len();
        let buffer_len = n * 3;
        resize_filled(&mut self.led_buffer, buffer_len, 0u8);
        let mut idx: usize = 0;
        while idx < n
            invariant
                n == self.cells@.len(),
                buffer_len == 3 * n,
                idx <= n,
                self.led_buffer@.len() == buffer_len,
                self.cells == old(self).cells,
                self.led_count == old(self).led_count,
                self.rows == old(self).rows,
                self.cols == old(self).cols,
                self.row_offsets == old(self).row_offsets,
                self.column_offsets == old(self).column_offsets,
                self.drag_target == old(self).drag_target,
                self.same_settings(old(self)),
                forall|i: int|
                    0 <= i < idx ==> {
                        &&& self.led_buffer@[3 * i] == (#[trigger] self.cells@[i]).send_color().red
                        &&& self.led_buffer@[3 * i + 1] == self.cells@[i].send_color().green
                        &&& self.led_buffer@[3 * i + 2] == self.cells@[i].send_color().blue
                    },
            decreases n - idx,
        {
            let cell_send_col = self.cells[idx].get_send_color();
            let base_idx = idx * 3;
            self.led_buffer.set(base_idx, cell_send_col.red);
            self.led_buffer.set(base_idx + 1, cell_send_col.green);
            self.led_buffer.set(base_idx + 2, cell_send_col.blue);
            idx = idx + 1;
        }
        true
    }

    /// Lights cell `idx` in `color`.
    pub fn activate_cell(&mut self, idx: usize, color: Rgba8)
        requires
            idx < old(self).cells@.len(),
        ensures
            final(self).cells@ == old(self).cells@.update(
                idx as int,
                GridCell { is_active: true, display_color: color, ..old(self).cells@[idx as int] },
            ),
            final(self).led_count == old(self).led_count,
            final(self).rows == old(self).rows,
            final(self).cols == old(self).cols,
            final(self).row_offsets == old(self).row_offsets,
            final(self).column_offsets == old(self).column_offsets,
            final(self).led_buffer == old(self).led_buffer,
            final(self).drag_target == old(self).drag_target,
            final(self).same_settings(old(self)),
    {
        self.cells[idx].is_active = true;
        self.cells[idx].display_color = color;
    }

    /// Paints one frame: every cell is turned off, then each object in
    /// turn lights the cells of its cover list that are still off, in its
    /// colour. So a cell shows the colour of the first object whose list
    /// holds it, and stays off when no list does; indices past the last
    /// cell are ignored.
    pub fn paint_cells(&mut self, covers: &Vec<(Vec<usize>, Rgba8)>)
        ensures
            final(self).cells@.len() == old(self).cells@.len(),
            forall|i: int|
                0 <= i < final(self).cells@.len() ==> {
                    &&& shows(#[trigger] final(self).cells@[i], painted_color(covers@, i))
                    &&& final(self).cells@[i].pos == old(self).cells@[i].pos
                    &&& final(self).cells@[i].row == old(self).cells@[i].row
                    &&& final(self).cells@[i].col == old(self).cells@[i].col
                    &&& final(self).cells@[i].label() == old(self).cells@[i].label()
                },
            final(self).led_count == old(self).led_count,
            final(self).rows == old(self).rows,
            final(self).cols == old(self).cols,
            final(self).row_offsets == old(self).row_offsets,
            final(self).column_offsets == old(self).column_offsets,
            final(self).led_buffer == old(self).led_buffer,
            final(self).drag_target == old(self).drag_target,
            final(self).same_settings(old(self)),
    {
        self.reset_cells();
        let n = self.cells.len();
        let mut k: usize = 0;
        assert(covers@.take(0) =~= Seq::<(Vec<usize>, Rgba8)>::empty());
        while k < covers.len()
            invariant
                n == self.cells@.len(),
                n == old(self).cells@.len(),
                k <= covers@.len(),
                forall|i: int|
                    0 <= i < n ==> {
                        &&& shows(#[trigger] self.cells@[i], painted_color(covers@.take(k as int), i))
                        &&& self.cells@[i].pos == old(self).cells@[i].pos
                        &&& self.cells@[i].row == old(self).cells@[i].row
                        &&& self.cells@[i].col == old(self).cells@[i].col
                        &&& self.cells@[i].label() == old(self).cells@[i].label()
                    },
                self.led_count == old(self).led_count,
                self.rows == old(self).rows,
                self.cols == old(self).cols,
                self.row_offsets == old(self).row_offsets,
                self.column_offsets == old(self).column_offsets,
                self.led_buffer == old(self).led_buffer,
                self.drag_target == old(self).drag_target,
                self.same_settings(old(self)),
            decreases covers@.len() - k,
        {
            let list = &covers[k].0;
            let color = covers[k].1;
            let ghost before = covers@.take(k as int);
            let mut m: usize = 0;
            while m < list.len()
                invariant
                    n == self.cells@.len(),
                    n == old(self).cells@.len(),
                    k < covers@.len(),
                    before == covers@.take(k as int),
                    *list == covers@[k as int].0,
                    color == covers@[k as int].1,
                    m <= list@.len(),
                    forall|i: int|
                        0 <= i < n ==> {
                            &&& shows(
                                #[trigger] self.cells@[i],
                                if painted_color(before, i) is Some {
                                    painted_color(before, i)
                                } else if list@.take(m as int).contains(i as usize) {
                                    Some(color)
                                } else {
                                    None
                                },
                            )
                            &&& self.cells@[i].pos == old(self).cells@[i].pos
                            &&& self.cells@[i].row == old(self).cells@[i].row
                            &&& self.cells@[i].col == old(self).cells@[i].col
                            &&& self.cells@[i].label() == old(self).cells@[i].label()
                        },
                    self.led_count == old(self).led_count,
                    self.rows == old(self).rows,
                    self.cols == old(self).cols,
                    self.row_offsets == old(self).row_offsets,
                    self.column_offsets == old(self).column_offsets,
                    self.led_buffer == old(self).led_buffer,
                    self.drag_target == old(self).drag_target,
                    self.same_settings(old(self)),
                decreases list@.len() - m,
            {
                let idx = list[m];
                let ghost cells_before = self.cells@;
                if idx < n && !self.cells[idx].is_active {
                    self.activate_cell(idx, color);
                }
                proof {
                    let taken = list@.take(m as int);
                    assert(list@.take(m + 1) =~= taken.push(idx));
                    assert forall|x: usize| x != idx implies (#[trigger] list@.take(m + 1).contains(x)
                        <==> taken.contains(x)) by {
                        if taken.contains(x) {
                            let j = choose|j: int| 0 <= j < taken.len() && #[trigger] taken[j] == x;
                            assert(list@.take(m + 1)[j] == x);
                        }
                        if list@.take(m + 1).contains(x) {
                            let j = choose|j: int| 0 <= j < m + 1 && #[trigger] list@.take(m + 1)[j] == x;
                            assert(taken[j] == x);
                        }
                    }
                    assert(list@.take(m + 1)[m as int] == idx);
                    assert forall|i: int| 0 <= i < n implies {
                        &&& shows(
                            #[trigger] self.cells@[i],
                            if painted_color(before, i) is Some {
                                painted_color(before, i)
                            } else if list@.take(m + 1).contains(i as usize) {
                                Some(color)
                            } else {
                                None
                            },
                        )
                        &&& self.cells@[i].pos == old(self).cells@[i].pos
                        &&& self.cells@[i].row == old(self).cells@[i].row
                        &&& self.cells@[i].col == old(self).cells@[i].col
                        &&& self.cells@[i].label() == old(self).cells@[i].label()
                    } by {
                        assert(shows(
                            cells_before[i],
                            if painted_color(before, i) is Some {
                                painted_color(before, i)
                            } else if taken.contains(i as usize) {
                                Some(color)
                            } else {
                                None
                            },
                        ));
                        if i != idx as int {
                            assert((i as usize) != idx);
                        }
                    }
                }
                m = m + 1;
            }
            proof {
                assert(list@.take(m as int) =~= list@);
                assert(covers@.take(k + 1).drop_last() =~= before);
                assert(covers@.take(k + 1).last() == covers@[k as int]);
            }
            k = k + 1;
        }
        assert(covers@.take(k as int) =~= covers@);
    }
}

/// Cell `cell` shows `c`: lit in that colour, or off in the idle colour
/// when there is none.
pub open spec fn shows(cell: GridCell, c: Option<Rgba8>) -> bool {
    match c {
        Some(color) => cell.is_active && cell.display_color == color,
        None => !cell.is_active && cell.display_color == idle_color(),
    }
}

/// The colour the cover lists give cell `i`: that of the first object
/// whose list holds `i`, or none when no list does.
pub open spec fn painted_color(covers: Seq<(Vec<usize>, Rgba8)>, i: int) -> Option<Rgba8>
    decreases covers.len(),
{
    if covers.len() == 0 {
        None
    } else {
        let earlier = painted_color(covers.drop_last(), i);
        if earlier is Some {
            earlier
        } else if covers.last().0@.contains(i as usize) {
            Some(covers.last().1)
        } else {
            None
        }
    }
}

/// The row or column a press on cell `hit` picks, by selection mode.
pub open spec fn press_target(mode: SelectionMode, hit: Option<usize>, cells: Seq<GridCell>) -> Option<DragTarget> {
    match hit {
        None => None,
        Some(h) => match mode {
            SelectionMode::Rows => Some(DragTarget::Row(cells[h as int].row as usize)),
            SelectionMode::Columns => Some(DragTarget::Column(cells[h as int].col as usize)),
        },
    }
}

impl<O: Copy> ReceiverGrid<O> {
    /// The offset of the dragged row or column (`zero` when it has none).
    pub open spec fn target_offset(&self, t: DragTarget) -> O {
        match t {
            DragTarget::Row(i) => if i < self.row_offsets@.len() { self.row_offsets@[i as int] } else { self.zero_offset },
            DragTarget::Column(i) => if i < self.column_offsets@.len() { self.column_offsets@[i as int] } else { self.zero_offset },
        }
    }

    /// `self` is `old` with the cells rebuilt fresh and the offset lists
    /// set to `rows` and `cols`; everything else is kept.
    pub open spec fn rebuilt_from(&self, old: &Self, rows: Seq<O>, cols: Seq<O>) -> bool {
        &&& self.wf()
        &&& self.rows == old.rows
        &&& self.cols == old.cols
        &&& self.led_count == old.led_count
        &&& is_layout(self.cells@, self.layout_mode, self.rows as int, self.cols as int, self.led_count as int)
        &&& self.row_offsets@ == rows
        &&& self.column_offsets@ == cols
        &&& self.led_buffer@ == old.led_buffer@
        &&& self.drag_target == old.drag_target
        &&& self.same_settings(old)
    }

    /// A left click in edit mode on cell `hit` (the first cell under the
    /// mouse, if any) starts dragging that cell's row or column, as the
    /// selection mode says, and remembers that row's or column's offset.
    /// Anything else leaves the grid as it is.
    pub fn mouse_pressed(&mut self, button: MouseButton, hit: Option<usize>)
        requires
            hit is Some ==> hit->0 < old(self).cells@.len(),
        ensures
            (!old(self).edit_mode || button != MouseButton::Left) ==> *final(self) == *old(self),
            (old(self).edit_mode && button == MouseButton::Left) ==> {
                &&& final(self).drag_target == press_target(old(self).selection_mode, hit, old(self).cells@)
                &&& final(self).drag_anchor_offset == match final(self).drag_target {
                    Some(t) => old(self).target_offset(t),
                    None => old(self).drag_anchor_offset,
                }
                &&& (hit is Some && old(self).selection_mode == SelectionMode::Rows
                    && old(self).cells@[hit->0 as int].row < old(self).row_offsets@.len())
                    ==> final(self).drag_anchor_offset == old(self).row_offsets@[old(self).cells@[hit->0 as int].row as int]
                &&& (hit is Some && old(self).selection_mode == SelectionMode::Columns
                    && old(self).cells@[hit->0 as int].col < old(self).column_offsets@.len())
                    ==> final(self).drag_anchor_offset == old(self).column_offsets@[old(self).cells@[hit->0 as int].col as int]
                &&& final(self).cells == old(self).cells
                &&& final(self).led_count == old(self).led_count
                &&& final(self).rows == old(self).rows
                &&& final(self).cols == old(self).cols
                &&& final(self).row_offsets == old(self).row_offsets
                &&& final(self).column_offsets == old(self).column_offsets
                &&& final(self).led_buffer == old(self).led_buffer
                &&& final(self).device == old(self).device
                &&& final(self).show_debug_info == old(self).show_debug_info
                &&& final(self).show_grid == old(self).show_grid
                &&& final(self).layout_mode == old(self).layout_mode
                &&& final(self).selection_mode == old(self).selection_mode
                &&& final(self).edit_mode == old(self).edit_mode
                &&& final(self).zero_offset == old(self).zero_offset
            },
    {
        if !self.edit_mode || button != MouseButton::Left {
            return;
        }
        self.drag_target = match hit {
            None => None,
            Some(h) => match self.selection_mode {
                SelectionMode::Rows => Some(DragTarget::Row(self.cells[h].row as usize)),
                SelectionMode::Columns => Some(DragTarget::Column(self.cells[h].col as usize)),
            },
        };
        match self.drag_target {
            Some(DragTarget::Row(row_idx)) => {
                self.drag_anchor_offset = if row_idx < self.row_offsets.len() {
                    self.row_offsets[row_idx]
                } else {
                    self.zero_offset
                };
            }
            Some(DragTarget::Column(col_idx)) => {
                self.drag_anchor_offset = if col_idx < self.column_offsets.len() {
                    self.column_offsets[col_idx]
                } else {
                    self.zero_offset
                };
            }
            None => {}
        }
    }

    /// While dragging in edit mode, moves the dragged row or column to
    /// `new_offset` (the anchor offset plus the mouse's travel) and
    /// rebuilds the cells. Without edit mode or a drag target nothing
    /// changes.
    pub fn mouse_moved(&mut self, new_offset: O)
        requires
            old(self).wf(),
        ensures
            (!old(self).edit_mode || old(self).drag_target is None) ==> *final(self) == *old(self),
            (old(self).edit_mode && old(self).drag_target is Some) ==> match old(self).drag_target->0 {
                DragTarget::Row(i) => final(self).rebuilt_from(
                    old(self),
                    old(self).row_offsets@.update(i as int, new_offset),
                    old(self).column_offsets@,
                ),
                DragTarget::Column(i) => final(self).rebuilt_from(
                    old(self),
                    old(self).row_offsets@,
                    old(self).column_offsets@.update(i as int, new_offset),
                ),
            },
    {
        proof {
            self.lemma_wf_buffer_fits();
        }
        if !self.edit_mode {
            return;
        }
        let target = match self.drag_target {
            Some(t) => t,
            None => { return; },
        };
        let ghost rows_before = self.row_offsets@;
        let ghost cols_before = self.column_offsets@;
        let mut updated = false;
        match target {
            DragTarget::Row(row_idx) => {
                if row_idx < self.row_offsets.len() {
                    self.row_offsets.set(row_idx, new_offset);
                    updated = true;
                }
            }
            DragTarget::Column(col_idx) => {
                if col_idx < self.column_offsets.len() {
                    self.column_offsets.set(col_idx, new_offset);
                    updated = true;
                }
            }
        }
        if updated {
            let ghost rows_set = self.row_offsets@;
            let ghost cols_set = self.column_offsets@;
            let ghost buf = self.led_buffer@;
            self.update_cells();
            assert(self.row_offsets@ =~= rows_set);
            assert(self.column_offsets@ =~= cols_set);
            assert(self.led_buffer@ =~= buf);
        }
    }

    /// Releasing the left button ends any drag.
    pub fn mouse_released(&mut self, button: MouseButton)
        ensures
            button == MouseButton::Left ==> *final(self) == (ReceiverGrid { drag_target: None, ..*old(self) }),
            button != MouseButton::Left ==> *final(self) == *old(self),
    {
        if button == MouseButton::Left {
            self.drag_target = None;
        }
    }

    /// Moves every row and column back to its place and rebuilds the cells.
    pub fn reset_offsets(&mut self)
        requires
            old(self).wf(),
        ensures
            final(self).rebuilt_from(
                old(self),
                Seq::new(old(self).rows as nat, |i: int| old(self).zero_offset),
                Seq::new(old(self).cols as nat, |i: int| old(self).zero_offset),
            ),
    {
        proof {
            self.lemma_wf_buffer_fits();
        }
        let zero = self.zero_offset;
        let nr = self.row_offsets.len();
        let mut i: usize = 0;
        while i < nr
            invariant
                nr == self.row_offsets@.len(),
                nr == old(self).rows,
                i <= nr,
                zero == old(self).zero_offset,
                forall|j: int| 0 <= j < i ==> self.row_offsets@[j] == zero,
                self.column_offsets == old(self).column_offsets,
                self.cells == old(self).cells,
                self.rows == old(self).rows,
                self.cols == old(self).cols,
                self.led_count == old(self).led_count,
                self.led_buffer == old(self).led_buffer,
                self.drag_target == old(self).drag_target,
                self.same_settings(old(self)),
            decreases nr - i,
        {
            self.row_offsets.set(i, zero);
            i = i + 1;
        }
        let nc = self.column_offsets.len();
        let mut k: usize = 0;
        while k < nc
            invariant
                nc == self.column_offsets@.len(),
                nc == old(self).cols,
                nr == self.row_offsets@.len(),
                nr == old(self).rows,
                k <= nc,
                zero == old(self).zero_offset,
                forall|j: int| 0 <= j < nr ==> self.row_offsets@[j] == zero,
                forall|j: int| 0 <= j < k ==> self.column_offsets@[j] == zero,
                self.cells == old(self).cells,
                self.rows == old(self).rows,
                self.cols == old(self).cols,
                self.led_count == old(self).led_count,
                self.led_buffer == old(self).led_buffer,
                self.drag_target == old(self).drag_target,
                self.same_settings(old(self)),
            decreases nc - k,
        {
            self.column_offsets.set(k, zero);
            k = k + 1;
        }
        let ghost rows_set = self.row_offsets@;
        let ghost cols_set = self.column_offsets@;
        let ghost buf = self.led_buffer@;
        self.update_cells();
        assert(self.led_buffer@ =~= buf);
        assert(self.row_offsets@ =~= Seq::new(old(self).rows as nat, |i: int| old(self).zero_offset));
        assert(self.column_offsets@ =~= Seq::new(old(self).cols as nat, |i: int| old(self).zero_offset));
    }
}

/// In a consistent grid every cell lies inside the grid, and looking a
/// cell up by its row and column (`get_cell_index`) finds that very
/// cell: the LED position of cell `i` is `i`.
pub proof fn lemma_cell_index_finds_cell<O: Copy>(grid: ReceiverGrid<O>, i: int)
    requires
        grid.wf(),
        0 <= i < grid.cells@.len(),
    ensures
        grid.cells@[i].row < grid.rows,
        grid.cells@[i].col < grid.cols,
        cell_index(
            grid.layout_mode,
            grid.rows as int,
            grid.cols as int,
            grid.cells@[i].row as int,
            grid.cells@[i].col as int,
        ) == i,
        grid.cells@[i].pos == i,
{
    let rows = grid.rows as int;
    let cols = grid.cols as int;
    let l = grid.led_count as int;
    lemma_required_cols_cover(l, rows);
    assert(rows * cols >= l);
    let c = grid.cells@[i];
    match grid.layout_mode {
        LayoutMode::FollowRow => {
            vstd::arithmetic::div_mod::lemma_fundamental_div_mod(i, cols);
            assert(i == cols * (i / cols) + i % cols);
            assert((i / cols) * cols == cols * (i / cols)) by (nonlinear_arith);
            assert(i / cols < rows) by (nonlinear_arith)
                requires
                    i < rows * cols,
                    cols >= 1,
                    i >= 0,
                    i == cols * (i / cols) + i % cols,
                    0 <= i % cols < cols,
            {
            }
        },
        LayoutMode::FollowColum => {
            vstd::arithmetic::div_mod::lemma_fundamental_div_mod(i, rows);
            assert(i == rows * (i / rows) + i % rows);
            assert((i / rows) * rows == rows * (i / rows)) by (nonlinear_arith);
            assert(i / rows < cols) by (nonlinear_arith)
                requires
                    i < rows * cols,
                    rows >= 1,
                    i >= 0,
                    i == rows * (i / rows) + i % rows,
                    0 <= i % rows < rows,
            {
            }
        },
    }
}

/// In a consistent grid, every row and column whose LED position is
/// below the LED count holds the cell at that position: the layout and
/// `get_cell_index` are inverse to each other.
pub proof fn lemma_cell_at_index<O: Copy>(grid: ReceiverGrid<O>, row: int, col: int)
    requires
        grid.wf(),
        0 <= row < grid.rows,
        0 <= col < grid.cols,
        cell_index(grid.layout_mode, grid.rows as int, grid.cols as int, row, col) < grid.led_count,
    ensures
        ({
            let idx = cell_index(grid.layout_mode, grid.rows as int, grid.cols as int, row, col);
            &&& 0 <= idx < grid.cells@.len()
            &&& grid.cells@[idx].row == row
            &&& grid.cells@[idx].col == col
        }),
{
    let rows = grid.rows as int;
    let cols = grid.cols as int;
    match grid.layout_mode {
        LayoutMode::FollowRow => {
            assert(row * cols + col >= 0) by (nonlinear_arith)
                requires
                    row >= 0,
                    cols >= 0,
                    col >= 0,
            {
            }
            lemma_row_major(row * cols + col, row, col, cols);
        },
        LayoutMode::FollowColum => {
            assert(col * rows + row >= 0) by (nonlinear_arith)
                requires
                    col >= 0,
                    rows >= 0,
                    row >= 0,
            {
            }
            lemma_row_major(col * rows + row, col, row, rows);
        },
    }
}

/// A consistent grid has exactly as many cells as LEDs, and just enough
/// columns for them: all LEDs fit in `rows * cols` places, and one
/// column fewer would not hold them.
pub proof fn lemma_grid_dimensions<O: Copy>(grid: ReceiverGrid<O>)
    requires
        grid.wf(),
    ensures
        grid.cells@.len() == grid.led_count,
        grid.rows as int * grid.cols as int >= grid.led_count,
        grid.rows as int * (grid.cols as int - 1) < grid.led_count,
{
    let rows = grid.rows as int;
    let cols = grid.cols as int;
    lemma_required_cols_cover(grid.led_count as int, rows);
    assert(rows * (cols - 1) == rows * cols - rows) by (nonlinear_arith);
}

/// Once every cell is turned off, the LED buffer sends nothing but dark:
/// after `reset_cells`, `update_led_buffer` writes zero bytes only.
pub proof fn lemma_reset_grid_sends_dark(buf: Seq<u8>, cells: Seq<GridCell>)
    requires
        forall|i: int| 0 <= i < cells.len() ==> !(#[trigger] cells[i]).is_active,
        buffer_matches(buf, cells),
    ensures
        forall|j: int| 0 <= j < buf.len() ==> buf[j] == 0u8,
{
    assert forall|j: int| 0 <= j < buf.len() implies buf[j] == 0u8 by {
        let i = j / 3;
        vstd::arithmetic::div_mod::lemma_fundamental_div_mod(j, 3);
        assert(0 <= i < cells.len());
        assert(!cells[i].is_active);
        assert(j == 3 * i || j == 3 * i + 1 || j == 3 * i + 2);
    }
}

impl<O: Copy> ReceiverGrid<O> {
    /// The font size of the position labels drawn on the cells: smaller
    /// from a hundred cells on.
    pub fn debug_font_size(&self) -> (size: u32)
        ensures
            size == (if self.cells@.len() >= 100 { 10u32 } else { 12u32 }),
    {
        if self.cells.len() >= 100 {
            10
        } else {
            12
        }
    }

    /// The name the grid's settings are saved under: the device name
    /// without surrounding whitespace, or "device" when nothing is left.
    pub fn save_file_name(&self) -> (s: String)
        ensures
            trimmed(self.device.name@).len() == 0 ==> s@ == "device"@,
            trimmed(self.device.name@).len() > 0 ==> s@ == trimmed(self.device.name@),
    {
        let name = trim(self.device.name.as_str());
        if name.unicode_len() == 0 {
            String::from_str("device")
        } else {
            String::from_str(name)
        }
    }
}

/// A drag continues from where the row or column already is: a left
/// press in edit mode on cell `h` of a consistent grid picks the cell's
/// row (or column, by selection mode), and the offset the drag starts
/// from is that row's (column's) current offset; a picked row or column
/// of a consistent grid always has one.
pub proof fn lemma_press_anchors_at_current_offset<O: Copy>(grid: ReceiverGrid<O>, h: usize)
    requires
        grid.wf(),
        h < grid.cells@.len(),
    ensures
        grid.selection_mode == SelectionMode::Rows ==> {
            &&& press_target(grid.selection_mode, Some(h), grid.cells@) == Some(DragTarget::Row(grid.cells@[h as int].row as usize))
            &&& grid.cells@[h as int].row < grid.row_offsets@.len()
            &&& grid.target_offset(DragTarget::Row(grid.cells@[h as int].row as usize))
                == grid.row_offsets@[grid.cells@[h as int].row as int]
        },
        grid.selection_mode == SelectionMode::Columns ==> {
            &&& press_target(grid.selection_mode, Some(h), grid.cells@) == Some(DragTarget::Column(grid.cells@[h as int].col as usize))
            &&& grid.cells@[h as int].col < grid.column_offsets@.len()
            &&& grid.target_offset(DragTarget::Column(grid.cells@[h as int].col as usize))
                == grid.column_offsets@[grid.cells@[h as int].col as int]
        },
        forall|i: usize| i < grid.row_offsets@.len() ==> #[trigger] grid.target_offset(DragTarget::Row(i)) == grid.row_offsets@[i as int],
        forall|i: usize| i < grid.column_offsets@.len() ==> #[trigger] grid.target_offset(DragTarget::Column(i)) == grid.column_offsets@[i as int],
{
    lemma_cell_index_finds_cell(grid, h as int);
}

/// Clamping a raw cell range to a grid of `cols` columns and `rows` rows
/// keeps every bound that already lies in the grid and moves any other
/// to the last column (for the column bounds) or the last row (for the
/// row bounds); so a range inside the grid comes back unchanged, and each
/// bound ends up in the grid, never above the raw one.
pub proof fn lemma_clamp_keeps_bounds_inside(raw: (u32, u32, u32, u32), cols: u32, rows: u32)
    requires
        cols > 0,
        rows > 0,
    ensures
        ({
            let r = clamped_range(raw, cols, rows);
            &&& r.0 < cols && r.1 < cols && r.2 < rows && r.3 < rows
            &&& r.0 <= raw.0 && r.1 <= raw.1 && r.2 <= raw.2 && r.3 <= raw.3
            &&& (raw.0 < cols ==> r.0 == raw.0)
            &&& (raw.1 < cols ==> r.1 == raw.1)
            &&& (raw.2 < rows ==> r.2 == raw.2)
            &&& (raw.3 < rows ==> r.3 == raw.3)
            &&& (raw.0 >= cols ==> r.0 == cols - 1)
            &&& (raw.1 >= cols ==> r.1 == cols - 1)
            &&& (raw.2 >= rows ==> r.2 == rows - 1)
            &&& (raw.3 >= rows ==> r.3 == rows - 1)
            &&& ((raw.0 <= raw.1 < cols && raw.2 <= raw.3 < rows) ==> r == raw)
        }),
{
}

} // verus!
