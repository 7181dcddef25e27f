use vstd::prelude::*;
use crate::geometry::{div_trunc, fits_i16, i32_div_trunc, Insets, Offset, Rect};

verus! {

/// Width of one button of the grid.
pub const BUTTON_WIDTH: i16 = 121;

/// Height of one button of the grid.
pub const BUTTON_HEIGHT: i16 = 70;

/// Half of the vertical gap between rows.
pub open spec fn spec_ud_half_spacing(height: int, rows: int) -> int {
    div_trunc(div_trunc(height - rows * BUTTON_HEIGHT, rows + 1), 2)
}

/// Half of the amount by which the buttons exceed the area horizontally.
pub open spec fn spec_lr_half_overlap(width: int, cols: int) -> int {
    div_trunc(width - cols * BUTTON_WIDTH, 2)
}

/// Vertical distance between the tops of two consecutive rows.
pub open spec fn row_step(ud: int) -> int {
    BUTTON_HEIGHT + 2 * ud
}

/// The border of the button in `row` and `col`, given the spacing values.
pub open spec fn cell_border(area: Rect, ud: int, lr: int, row: int, col: int) -> Rect {
    Rect {
        x0: (area.x0 + col * BUTTON_WIDTH) as i16,
        y0: (area.y0 + row * row_step(ud)) as i16,
        x1: (area.x0 + col * BUTTON_WIDTH + BUTTON_WIDTH + 2 * lr) as i16,
        y1: (area.y0 + row * row_step(ud) + BUTTON_HEIGHT + 4 * ud) as i16,
    }
}

/// The touch insets of the button in `row` and `col`: the touch area grows by
/// the spacing on every side but the outer edges of the grid.
pub open spec fn cell_insets(ud: int, lr: int, rows: int, cols: int, row: int, col: int) -> Insets {
    Insets {
        top: (-ud) as i16,
        right: if col != 0 && col == cols - 1 { 0 } else { (-lr) as i16 },
        bottom: if row == rows - 1 { 0 } else { (-ud) as i16 },
        left: if col == 0 { 0 } else { (-lr) as i16 },
    }
}

/// The area and the grid dimensions keep every coordinate the grid computes
/// within `i16`.
pub open spec fn grid_fits(area: Rect, rows: int, cols: int) -> bool {
    let ud = spec_ud_half_spacing(area.spec_height(), rows);
    let lr = spec_lr_half_overlap(area.spec_width(), cols);
    &&& fits_i16(area.spec_width())
    &&& fits_i16(area.spec_height())
    &&& 1 <= rows && rows * BUTTON_HEIGHT <= i16::MAX
    &&& 1 <= cols && cols * BUTTON_WIDTH <= i16::MAX
    &&& fits_i16(2 * ud)
    &&& fits_i16(4 * ud)
    &&& fits_i16(2 * lr)
    &&& fits_i16(row_step(ud))
    &&& fits_i16(BUTTON_HEIGHT + 4 * ud)
    &&& fits_i16(BUTTON_WIDTH + 2 * lr)
    &&& fits_i16((rows - 1) * row_step(ud))
    &&& fits_i16(area.x0 + (cols - 1) * BUTTON_WIDTH)
    &&& fits_i16(area.x0 + BUTTON_WIDTH + 2 * lr)
    &&& fits_i16(area.x0 + (cols - 1) * BUTTON_WIDTH + BUTTON_WIDTH + 2 * lr)
    &&& fits_i16(area.y0 + (rows - 1) * row_step(ud))
    &&& fits_i16(area.y0 + BUTTON_HEIGHT + 4 * ud)
    &&& fits_i16(area.y0 + (rows - 1) * row_step(ud) + BUTTON_HEIGHT + 4 * ud)
}

proof fn lemma_mul_between(k: int, n: int, s: int)
    requires
        0 <= k <= n,
    ensures
        (s >= 0 ==> 0 <= k * s <= n * s),
        (s < 0 ==> n * s <= k * s <= 0),
{
    assert(s >= 0 ==> 0 <= k * s <= n * s) by (nonlinear_arith)
        requires
            0 <= k <= n,
    ;
    assert(s < 0 ==> n * s <= k * s <= 0) by (nonlinear_arith)
        requires
            0 <= k <= n,
    ;
}

proof fn lemma_div_trunc_bound(a: int, b: int)
    requires
        b >= 1,
    ensures
        a >= 0 ==> 0 <= div_trunc(a, b) <= a,
        a < 0 ==> a <= div_trunc(a, b) <= 0,
{
    if a >= 0 {
        assert(0 <= a / b <= a) by (nonlinear_arith)
            requires
                a >= 0,
                b >= 1,
        ;
    } else {
        assert(0 <= (-a) / b <= -a) by (nonlinear_arith)
            requires
                a < 0,
                b >= 1,
        ;
    }
}

proof fn lemma_row_major(row: int, col: int, rows: int, cols: int)
    requires
        0 <= row < rows,
        0 <= col < cols,
    ensures
        0 <= row * cols + col < rows * cols,
        (row * cols + col) / cols == row,
        (row * cols + col) % cols == col,
{
    assert(0 <= row * cols + col < rows * cols) by (nonlinear_arith)
        requires
            0 <= row < rows,
            0 <= col < cols,
    ;
    vstd::arithmetic::div_mod::lemma_fundamental_div_mod_converse(row * cols + col, cols, row, col);
}

proof fn lemma_cell_row_in_range(index: int, rows: int, cols: int)
    requires
        0 <= index < rows * cols,
        cols >= 1,
    ensures
        index / cols < rows,
{
    vstd::arithmetic::div_mod::lemma_fundamental_div_mod(index, cols);
    let q = index / cols;
    let r = index % cols;
    assert(q < rows) by (nonlinear_arith)
        requires
            q * cols + r == index,
            0 <= r < cols,
            index < rows * cols,
            cols >= 1,
    ;
}

/// The touch area of every button of a grid (its border grown by its touch
/// insets, as `Rect::outset` grows it) meets its neighbours edge to edge: the
/// right edge of a button's touch area is the left edge of the next one in its
/// row, its bottom edge the top edge of the next one in its column, and the
/// touch areas of the first column start at the left edge of the area.
pub proof fn lemma_touch_areas_tile(area: Rect, rows: int, cols: int)
    requires
        grid_fits(area, rows, cols),
    ensures
        ({
            let ud = spec_ud_half_spacing(area.spec_height(), rows);
            let lr = spec_lr_half_overlap(area.spec_width(), cols);
            &&& forall|row: int, col: int|
                0 <= row < rows && 0 <= col && col + 1 < cols ==> #[trigger] cell_border(area, ud, lr, row, col).x1
                    + cell_insets(ud, lr, rows, cols, row, col).right == cell_border(area, ud, lr, row, col + 1).x0
                    - cell_insets(ud, lr, rows, cols, row, col + 1).left
            &&& forall|row: int, col: int|
                0 <= row && row + 1 < rows && 0 <= col < cols ==> #[trigger] cell_border(area, ud, lr, row, col).y1
                    + cell_insets(ud, lr, rows, cols, row, col).bottom == cell_border(area, ud, lr, row + 1, col).y0
                    - cell_insets(ud, lr, rows, cols, row + 1, col).top
            &&& forall|row: int|
                0 <= row < rows ==> #[trigger] cell_border(area, ud, lr, row, 0).x0 - cell_insets(
                    ud,
                    lr,
                    rows,
                    cols,
                    row,
                    0,
                ).left == area.x0
        }),
{
    let ud = spec_ud_half_spacing(area.spec_height(), rows);
    let lr = spec_lr_half_overlap(area.spec_width(), cols);
    assert forall|row: int, col: int| 0 <= row < rows && 0 <= col && col + 1 < cols implies #[trigger] cell_border(
        area,
        ud,
        lr,
        row,
        col,
    ).x1 + cell_insets(ud, lr, rows, cols, row, col).right == cell_border(area, ud, lr, row, col + 1).x0
        - cell_insets(ud, lr, rows, cols, row, col + 1).left by {
        lemma_mul_between(col, cols - 1, BUTTON_WIDTH as int);
        lemma_mul_between(col + 1, cols - 1, BUTTON_WIDTH as int);
        lemma_mul_between(row, rows - 1, row_step(ud));
    }
    assert forall|row: int, col: int| 0 <= row && row + 1 < rows && 0 <= col < cols implies #[trigger] cell_border(
        area,
        ud,
        lr,
        row,
        col,
    ).y1 + cell_insets(ud, lr, rows, cols, row, col).bottom == cell_border(area, ud, lr, row + 1, col).y0
        - cell_insets(ud, lr, rows, cols, row + 1, col).top by {
        lemma_mul_between(col, cols - 1, BUTTON_WIDTH as int);
        lemma_mul_between(row, rows - 1, row_step(ud));
        lemma_mul_between(row + 1, rows - 1, row_step(ud));
        assert((row + 1) * row_step(ud) == row * row_step(ud) + row_step(ud)) by (nonlinear_arith);
    }
    assert forall|row: int| 0 <= row < rows implies #[trigger] cell_border(area, ud, lr, row, 0).x0 - cell_insets(
        ud,
        lr,
        rows,
        cols,
        row,
        0,
    ).left == area.x0 by {
        lemma_mul_between(row, rows - 1, row_step(ud));
    }
}

/// Buttons laid out in `ROWS` rows and `COLS` columns over an area; each
/// button's border and touch area reach into the gaps around it.
pub struct OverlapGrid<const ROWS: usize, const COLS: usize> {
    pub visible_area: Rect,
    pub border_rects: Vec<Rect>,
    pub touch_insets: Vec<Insets>,
    pub lr_half_overlap: i16,
    pub ud_half_spacing: i16,
}

impl<const ROWS: usize, const COLS: usize> OverlapGrid<ROWS, COLS> {
    /// The stored cells are those of the visible area, row by row.
    pub open spec fn wf(self) -> bool {
        &&& ROWS >= 1
        &&& COLS >= 1
        &&& self.border_rects@.len() == ROWS * COLS
        &&& self.touch_insets@.len() == ROWS * COLS
        &&& forall|row: int, col: int|
            #![trigger self.border_rects@[row * COLS + col]]
            #![trigger self.touch_insets@[row * COLS + col]]
            0 <= row < ROWS && 0 <= col < COLS ==> {
                &&& self.border_rects@[row * COLS + col] == cell_border(
                    self.visible_area,
                    self.ud_half_spacing as int,
                    self.lr_half_overlap as int,
                    row,
                    col,
                )
                &&& self.touch_insets@[row * COLS + col] == cell_insets(
                    self.ud_half_spacing as int,
                    self.lr_half_overlap as int,
                    ROWS as int,
                    COLS as int,
                    row,
                    col,
                )
            }
    }

    /// Lays the grid out over `visible_area`.
    pub fn new(visible_area: Rect) -> (r: Self)
        requires
            grid_fits(visible_area, ROWS as int, COLS as int),
        ensures
            r.wf(),
            r.visible_area == visible_area,
            r.ud_half_spacing == spec_ud_half_spacing(visible_area.spec_height(), ROWS as int),
            r.lr_half_overlap == spec_lr_half_overlap(visible_area.spec_width(), COLS as int),
    {
        let rows: i32 = ROWS as i32;
        let cols: i32 = COLS as i32;
        let height: i32 = visible_area.height() as i32;
        let width: i32 = visible_area.width() as i32;
        let bh: i32 = BUTTON_HEIGHT as i32;
        let bw: i32 = BUTTON_WIDTH as i32;
        let ud32 = i32_div_trunc(i32_div_trunc(height - rows * bh, rows + 1), 2);
        let lr32 = i32_div_trunc(width - cols * bw, 2);
        proof {
            assert(ud32 == spec_ud_half_spacing(visible_area.spec_height(), ROWS as int));
            assert(lr32 == spec_lr_half_overlap(visible_area.spec_width(), COLS as int));
            lemma_div_trunc_bound(height - rows * bh, rows + 1);
            lemma_div_trunc_bound(div_trunc(height - rows * bh, rows + 1), 2);
            lemma_div_trunc_bound(width - cols * bw, 2);
            assert(-32767 <= ud32 <= 32767);
            assert(-32767 <= lr32 <= 32767);
        }
        let ud_half_spacing: i16 = ud32 as i16;
        let lr_half_overlap: i16 = lr32 as i16;
        let ghost ud = ud_half_spacing as int;
        let ghost lr = lr_half_overlap as int;

        let mut border_rects: Vec<Rect> = Vec::new();
        let mut touch_insets: Vec<Insets> = Vec::new();
        let mut row: usize = 0;
        while row < ROWS
            invariant
                row <= ROWS,
                grid_fits(visible_area, ROWS as int, COLS as int),
                ud == spec_ud_half_spacing(visible_area.spec_height(), ROWS as int),
                lr == spec_lr_half_overlap(visible_area.spec_width(), COLS as int),
                ud == ud_half_spacing as int,
                lr == lr_half_overlap as int,
                -32767 <= ud <= 32767,
                -32767 <= lr <= 32767,
                border_rects@.len() == row * COLS,
                touch_insets@.len() == row * COLS,
                forall|r: int, c: int|
                    0 <= r < row && 0 <= c < COLS ==> {
                        &&& #[trigger] border_rects@[r * COLS + c] == cell_border(visible_area, ud, lr, r, c)
                        &&& touch_insets@[r * COLS + c] == cell_insets(ud, lr, ROWS as int, COLS as int, r, c)
                    },
            decreases ROWS - row,
        {
            let mut col: usize = 0;
            while col < COLS
                invariant
                    row < ROWS,
                    col <= COLS,
                    grid_fits(visible_area, ROWS as int, COLS as int),
                    ud == spec_ud_half_spacing(visible_area.spec_height(), ROWS as int),
                    lr == spec_lr_half_overlap(visible_area.spec_width(), COLS as int),
                    ud == ud_half_spacing as int,
                    lr == lr_half_overlap as int,
                    -32767 <= ud <= 32767,
                    -32767 <= lr <= 32767,
                    border_rects@.len() == row * COLS + col,
                    touch_insets@.len() == row * COLS + col,
                    forall|r: int, c: int|
                        0 <= r < row && 0 <= c < COLS ==> {
                            &&& #[trigger] border_rects@[r * COLS + c] == cell_border(visible_area, ud, lr, r, c)
                            &&& touch_insets@[r * COLS + c] == cell_insets(ud, lr, ROWS as int, COLS as int, r, c)
                        },
                    forall|c: int|
                        0 <= c < col ==> {
                            &&& #[trigger] border_rects@[row * COLS + c] == cell_border(visible_area, ud, lr, row as int, c)
                            &&& touch_insets@[row * COLS + c] == cell_insets(ud, lr, ROWS as int, COLS as int, row as int, c)
                        },
                decreases COLS - col,
            {
                let neg_ud: i16 = -ud_half_spacing;
                let neg_lr: i16 = -lr_half_overlap;
                let mut insets = Insets::new(neg_ud, neg_lr, neg_ud, neg_lr);
                if row == ROWS - 1 {
                    insets.bottom = 0;
                }
                if col == 0 {
                    insets.left = 0;
                } else if col == COLS - 1 {
                    insets.right = 0;
                }
                proof {
                    lemma_mul_between(col as int, COLS as int - 1, BUTTON_WIDTH as int);
                    lemma_mul_between(row as int, ROWS as int - 1, row_step(ud));
                }
                let step: i16 = BUTTON_HEIGHT + 2 * ud_half_spacing;
                let dx: i16 = (col as i16) * BUTTON_WIDTH;
                let dy: i16 = (row as i16) * step;
                let top_left = visible_area.top_left().ofs(Offset::new(dx, dy));
                let rect = Rect::from_top_left_and_size(
                    top_left,
                    Offset::new(BUTTON_WIDTH + 2 * lr_half_overlap, BUTTON_HEIGHT + 4 * ud_half_spacing),
                );
                proof {
                    assert(rect == cell_border(visible_area, ud, lr, row as int, col as int));
                    assert(insets == cell_insets(ud, lr, ROWS as int, COLS as int, row as int, col as int));
                }
                let ghost old_rects = border_rects@;
                let ghost old_insets = touch_insets@;
                border_rects.push(rect);
                touch_insets.push(insets);
                proof {
                    assert(border_rects@ == old_rects.push(rect));
                    assert(touch_insets@ == old_insets.push(insets));
                    assert forall|r: int, c: int|
                        0 <= r < row && 0 <= c < COLS implies {
                            &&& #[trigger] border_rects@[r * COLS + c] == cell_border(visible_area, ud, lr, r, c)
                            &&& touch_insets@[r * COLS + c] == cell_insets(ud, lr, ROWS as int, COLS as int, r, c)
                        } by {
                        assert(0 <= r * COLS + c < row * COLS) by (nonlinear_arith)
                            requires
                                0 <= r < row,
                                0 <= c < COLS,
                        ;
                        assert(border_rects@[r * COLS + c] == old_rects[r * COLS + c]);
                        assert(touch_insets@[r * COLS + c] == old_insets[r * COLS + c]);
                    }
                    assert forall|c: int|
                        0 <= c < col + 1 implies {
                            &&& #[trigger] border_rects@[row * COLS + c] == cell_border(visible_area, ud, lr, row as int, c)
                            &&& touch_insets@[row * COLS + c] == cell_insets(ud, lr, ROWS as int, COLS as int, row as int, c)
                        } by {
                        if c < col {
                            assert(border_rects@[row * COLS + c] == old_rects[row * COLS + c]);
                            assert(touch_insets@[row * COLS + c] == old_insets[row * COLS + c]);
                        }
                    }
                }
                col = col + 1;
            }
            proof {
                assert((row + 1) * COLS == row * COLS + COLS) by (nonlinear_arith);
                assert forall|r: int, c: int|
                    0 <= r < row + 1 && 0 <= c < COLS implies {
                        &&& #[trigger] border_rects@[r * COLS + c] == cell_border(visible_area, ud, lr, r, c)
                        &&& touch_insets@[r * COLS + c] == cell_insets(ud, lr, ROWS as int, COLS as int, r, c)
                    } by {
                    if r == row {
                        assert(border_rects@[row * COLS + c] == cell_border(visible_area, ud, lr, row as int, c));
                    }
                }
            }
            row = row + 1;
        }
        OverlapGrid { visible_area, border_rects, touch_insets, lr_half_overlap, ud_half_spacing }
    }

    /// The row and column of the cell with the given row-major index.
    fn cell2row_col(&self, index: usize) -> (r: (usize, usize))
        requires
            COLS >= 1,
        ensures
            r.0 == index / COLS,
            r.1 == index % COLS,
    {
        (index / COLS, index % COLS)
    }

    /// The border of the button in `row` and `col`.
    pub fn border_of_row_col(&self, row: usize, col: usize) -> (r: Rect)
        requires
            self.wf(),
            row < ROWS,
            col < COLS,
        ensures
            r == cell_border(self.visible_area, self.ud_half_spacing as int, self.lr_half_overlap as int, row as int, col as int),
    {
        proof {
            lemma_row_major(row as int, col as int, ROWS as int, COLS as int);
            assert(self.border_rects@.len() == self.border_rects.len());
        }
        self.border_rects[row * COLS + col]
    }

    /// The touch insets of the button in `row` and `col`.
    pub fn insets_of_row_col(&self, row: usize, col: usize) -> (r: Insets)
        requires
            self.wf(),
            row < ROWS,
            col < COLS,
        ensures
            r == cell_insets(self.ud_half_spacing as int, self.lr_half_overlap as int, ROWS as int, COLS as int, row as int, col as int),
    {
        proof {
            lemma_row_major(row as int, col as int, ROWS as int, COLS as int);
            assert(self.touch_insets@.len() == self.touch_insets.len());
        }
        self.touch_insets[row * COLS + col]
    }

    /// The border of the button with the given row-major index.
    pub fn border_of_cell(&self, index: usize) -> (r: Rect)
        requires
            self.wf(),
            index < ROWS * COLS,
        ensures
            r == cell_border(
                self.visible_area,
                self.ud_half_spacing as int,
                self.lr_half_overlap as int,
                (index / COLS) as int,
                (index % COLS) as int,
            ),
    {
        let (row, col) = self.cell2row_col(index);
        proof {
            lemma_cell_row_in_range(index as int, ROWS as int, COLS as int);
        }
        self.border_of_row_col(row, col)
    }

    /// The touch insets of the button with the given row-major index.
    pub fn insets_of_cell(&self, index: usize) -> (r: Insets)
        requires
            self.wf(),
            index < ROWS * COLS,
        ensures
            r == cell_insets(
                self.ud_half_spacing as int,
                self.lr_half_overlap as int,
                ROWS as int,
                COLS as int,
                (index / COLS) as int,
                (index % COLS) as int,
            ),
    {
        let (row, col) = self.cell2row_col(index);
        proof {
            lemma_cell_row_in_range(index as int, ROWS as int, COLS as int);
        }
        self.insets_of_row_col(row, col)
    }
}

} // verus!
