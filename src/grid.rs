use vstd::prelude::*;
use vstd::arithmetic::div_mod::lemma_fundamental_div_mod;
use crate::raster::{LumaImage, Rect, Raster, crop_spec};

verus! {

/// Columns of cells on the supported template.
pub const TEMPLATE_COLUMNS: u32 = 12;

/// Rows of cells on the supported template.
pub const TEMPLATE_ROWS: u32 = 9;

/// The layout of a grid of equal cells.
#[derive(Clone, Copy, Debug, PartialEq, Eq, Structural)]
pub struct GridSpec {
    pub columns: u32,
    pub rows: u32,
}

impl GridSpec {
    /// The grid printed on the supported template.
    pub fn template() -> (r: GridSpec)
        ensures
            r.columns == TEMPLATE_COLUMNS,
            r.rows == TEMPLATE_ROWS,
    {
        GridSpec { columns: TEMPLATE_COLUMNS, rows: TEMPLATE_ROWS }
    }
}

/// The rectangle of the cell in column `col` and row `row` when an image of
/// `width` by `height` pixels is cut into `columns` by `rows` equal cells;
/// the remainder of each division is left out on the right and at the bottom.
pub open spec fn cell_rect(width: int, height: int, columns: int, rows: int, col: int, row: int) -> Rect {
    Rect {
        x: (col * (width / columns)) as u32,
        y: (row * (height / rows)) as u32,
        width: (width / columns) as u32,
        height: (height / rows) as u32,
    }
}

/// The sum of the widths of the first `n` cells of row `row`.
pub open spec fn row_width_sum(width: int, height: int, columns: int, rows: int, row: int, n: nat) -> int
    decreases n,
{
    if n == 0 {
        0
    } else {
        row_width_sum(width, height, columns, rows, row, (n - 1) as nat)
            + cell_rect(width, height, columns, rows, n - 1, row).width
    }
}

/// `k` cells of width `size / parts` fit in `size` pixels when `k <= parts`.
proof fn lemma_cells_fit(size: int, parts: int, k: int)
    requires
        size >= 0,
        parts >= 1,
        0 <= k <= parts,
    ensures
        0 <= size / parts <= size,
        0 <= k * (size / parts) <= size,
        (k * (size / parts)) + size / parts <= size || k == parts,
{
    lemma_fundamental_div_mod(size, parts);
    let q = size / parts;
    assert(q >= 0) by (nonlinear_arith)
        requires size >= 0, parts >= 1, q == size / parts;
    assert(q <= size) by (nonlinear_arith)
        requires size >= 0, parts >= 1, size == parts * q + size % parts, size % parts >= 0, q >= 0;
    assert(0 <= k * q <= parts * q) by (nonlinear_arith)
        requires 0 <= k <= parts, q >= 0;
    assert(k < parts ==> k * q + q <= parts * q) by (nonlinear_arith)
        requires 0 <= k <= parts, q >= 0;
}

/// Each cell of the grid lies inside the image.
pub proof fn lemma_cell_within(width: u32, height: u32, columns: u32, rows: u32, col: int, row: int)
    requires
        columns >= 1,
        rows >= 1,
        0 <= col < columns,
        0 <= row < rows,
    ensures
        cell_rect(width as int, height as int, columns as int, rows as int, col, row).within(
            width as int,
            height as int,
        ),
        cell_rect(width as int, height as int, columns as int, rows as int, col, row).x
            == col * (width / columns) as int,
        cell_rect(width as int, height as int, columns as int, rows as int, col, row).y
            == row * (height / rows) as int,
        cell_rect(width as int, height as int, columns as int, rows as int, col, row).width
            == (width / columns) as int,
        cell_rect(width as int, height as int, columns as int, rows as int, col, row).height
            == (height / rows) as int,
{
    lemma_cells_fit(width as int, columns as int, col);
    lemma_cells_fit(height as int, rows as int, row);
}

/// The first `n` cells of a row are together `n` cell widths wide.
proof fn lemma_row_width_sum_linear(w: int, h: int, c: int, r: int, row: int, n: nat)
    requires
        0 <= w <= u32::MAX,
        c >= 1,
        n <= c,
    ensures
        row_width_sum(w, h, c, r, row, n) == n * (w / c),
    decreases n,
{
    if n > 0 {
        lemma_row_width_sum_linear(w, h, c, r, row, (n - 1) as nat);
        lemma_cells_fit(w, c, n - 1);
        assert(cell_rect(w, h, c, r, n - 1, row).width == w / c);
        assert(row_width_sum(w, h, c, r, row, n) == row_width_sum(w, h, c, r, row, (n - 1) as nat)
            + w / c);
        assert(n * (w / c) == (n - 1) * (w / c) + w / c) by (nonlinear_arith);
    } else {
        assert(n * (w / c) == 0) by (nonlinear_arith)
            requires n == 0;
    }
}

/// Cutting a grid drops at most the remainder: the widths of the cells of
/// one row add up to no more than the width of the image.
pub proof fn lemma_row_widths_fit(width: u32, height: u32, columns: u32, rows: u32, row: int)
    requires
        columns >= 1,
        rows >= 1,
        0 <= row < rows,
    ensures
        row_width_sum(width as int, height as int, columns as int, rows as int, row, columns as nat)
            <= width,
{
    let w = width as int;
    let c = columns as int;
    lemma_row_width_sum_linear(w, height as int, c, rows as int, row, columns as nat);
    lemma_cells_fit(w, c, c);
}

/// No pixel belongs to two different cells of the grid.
pub proof fn lemma_cells_disjoint(
    width: u32,
    height: u32,
    columns: u32,
    rows: u32,
    col1: int,
    row1: int,
    col2: int,
    row2: int,
    px: int,
    py: int,
)
    requires
        columns >= 1,
        rows >= 1,
        0 <= col1 < columns,
        0 <= row1 < rows,
        0 <= col2 < columns,
        0 <= row2 < rows,
        col1 != col2 || row1 != row2,
    ensures
        !(cell_rect(width as int, height as int, columns as int, rows as int, col1, row1).contains(px, py)
            && cell_rect(width as int, height as int, columns as int, rows as int, col2, row2).contains(px, py)),
{
    lemma_cell_within(width, height, columns, rows, col1, row1);
    lemma_cell_within(width, height, columns, rows, col2, row2);
    let cw = (width / columns) as int;
    let ch = (height / rows) as int;
    assert(cw >= 0 && ch >= 0);
    if col1 < col2 {
        assert(col1 * cw + cw <= col2 * cw) by (nonlinear_arith)
            requires col1 < col2, cw >= 0;
    } else if col2 < col1 {
        assert(col2 * cw + cw <= col1 * cw) by (nonlinear_arith)
            requires col2 < col1, cw >= 0;
    } else if row1 < row2 {
        assert(row1 * ch + ch <= row2 * ch) by (nonlinear_arith)
            requires row1 < row2, ch >= 0;
    } else {
        assert(row2 * ch + ch <= row1 * ch) by (nonlinear_arith)
            requires row2 < row1, ch >= 0;
    }
}

/// The rectangles of all cells in reading order: row 0 from left to right,
/// then row 1, and so on.
pub fn cell_rects(width: u32, height: u32, columns: u32, rows: u32) -> (r: Vec<Rect>)
    requires
        columns >= 1,
        rows >= 1,
        columns as int * rows as int <= usize::MAX,
    ensures
        r@.len() == columns as int * rows as int,
        forall|row: int, col: int|
            0 <= row < rows && 0 <= col < columns ==> #[trigger] r@[row * columns + col]
                == cell_rect(width as int, height as int, columns as int, rows as int, col, row),
        forall|i: int| 0 <= i < r@.len() ==> (#[trigger] r@[i]).within(width as int, height as int),
{
    let cell_width = width / columns;
    let cell_height = height / rows;
    let mut out: Vec<Rect> = Vec::new();
    let mut row: u32 = 0;
    while row < rows
        invariant
            columns >= 1,
            rows >= 1,
            columns as int * rows as int <= usize::MAX,
            cell_width == width / columns,
            cell_height == height / rows,
            row <= rows,
            out@.len() == row * columns,
            forall|rr: int, cc: int|
                0 <= rr < row && 0 <= cc < columns ==> #[trigger] out@[rr * columns + cc]
                    == cell_rect(width as int, height as int, columns as int, rows as int, cc, rr),
            forall|i: int| 0 <= i < out@.len() ==> (#[trigger] out@[i]).within(width as int, height as int),
        decreases rows - row,
    {
        let mut col: u32 = 0;
        while col < columns
            invariant
                columns >= 1,
                rows >= 1,
                columns as int * rows as int <= usize::MAX,
                cell_width == width / columns,
                cell_height == height / rows,
                row < rows,
                col <= columns,
                out@.len() == row * columns + col,
                forall|rr: int, cc: int|
                    (0 <= rr < row && 0 <= cc < columns) || (rr == row && 0 <= cc < col)
                        ==> #[trigger] out@[rr * columns + cc]
                        == cell_rect(width as int, height as int, columns as int, rows as int, cc, rr),
                forall|i: int| 0 <= i < out@.len() ==> (#[trigger] out@[i]).within(width as int, height as int),
            decreases columns - col,
        {
            proof {
                lemma_cell_within(width, height, columns, rows, col as int, row as int);
            }
            let rect = Rect {
                x: col * cell_width,
                y: row * cell_height,
                width: cell_width,
                height: cell_height,
            };
            let ghost before = out@;
            out.push(rect);
            proof {
                assert forall|rr: int, cc: int|
                    (0 <= rr < row && 0 <= cc < columns) || (rr == row && 0 <= cc < col + 1)
                        implies #[trigger] out@[rr * columns + cc]
                        == cell_rect(width as int, height as int, columns as int, rows as int, cc, rr) by {
                    if rr < row {
                        assert(rr * columns + cc < row * columns) by (nonlinear_arith)
                            requires rr < row, 0 <= cc < columns;
                        assert(out@[rr * columns + cc] == before[rr * columns + cc]);
                    } else if cc < col {
                        assert(out@[rr * columns + cc] == before[rr * columns + cc]);
                    }
                }
            }
            col += 1;
        }
        assert((row + 1) * columns == row * columns + columns) by (nonlinear_arith);
        row += 1;
    }
    assert(rows * columns == columns * rows) by (nonlinear_arith);
    out
}

/// A read-only window onto a part of an image; it borrows the image and so
/// cannot outlive it.
pub struct CellView<'a> {
    pub image: &'a LumaImage,
    pub rect: Rect,
}

impl<'a> CellView<'a> {
    /// The window lies inside a well-formed image.
    pub open spec fn wf(&self) -> bool {
        self.image.wf() && self.rect.within(self.image.width as int, self.image.height as int)
    }

    /// What the window shows.
    pub open spec fn content(&self) -> Raster {
        crop_spec(self.image@, self.rect)
    }

    pub fn rect(&self) -> (r: Rect)
        ensures
            r == self.rect,
    {
        self.rect
    }

    /// An owned copy of the pixels the window shows.
    pub fn to_image(&self) -> (r: LumaImage)
        requires
            self.wf(),
        ensures
            r.wf(),
            r@ == self.content(),
    {
        self.image.crop_to(self.rect)
    }
}

/// Cuts `image` into `columns` by `rows` equal cells and returns a view of
/// each, in reading order.
pub fn grid_cut_image<'a>(image: &'a LumaImage, columns: u32, rows: u32) -> (r: Vec<CellView<'a>>)
    requires
        image.wf(),
        columns >= 1,
        rows >= 1,
        columns as int * rows as int <= usize::MAX,
    ensures
        r@.len() == columns as int * rows as int,
        forall|i: int| 0 <= i < r@.len() ==> (#[trigger] r@[i]).image == image && r@[i].wf(),
        forall|row: int, col: int|
            0 <= row < rows && 0 <= col < columns ==> (#[trigger] r@[row * columns + col]).rect
                == cell_rect(image.width as int, image.height as int, columns as int, rows as int, col, row),
{
    let rects = cell_rects(image.width, image.height, columns, rows);
    let mut views: Vec<CellView<'a>> = Vec::new();
    let mut i: usize = 0;
    while i < rects.len()
        invariant
            image.wf(),
            i <= rects@.len(),
            views@.len() == i,
            forall|k: int| 0 <= k < rects@.len() ==> (#[trigger] rects@[k]).within(image.width as int, image.height as int),
            forall|k: int| 0 <= k < i ==> (#[trigger] views@[k]).image == image && views@[k].rect == rects@[k],
        decreases rects@.len() - i,
    {
        views.push(CellView { image, rect: rects[i] });
        i += 1;
    }
    proof {
        assert forall|row: int, col: int|
            0 <= row < rows && 0 <= col < columns implies (#[trigger] views@[row * columns + col]).rect
                == cell_rect(image.width as int, image.height as int, columns as int, rows as int, col, row) by {
            assert(0 <= row * columns + col < columns * rows) by (nonlinear_arith)
                requires 0 <= row < rows, 0 <= col < columns;
            assert(rects@[row * columns + col] == cell_rect(image.width as int, image.height as int, columns as int, rows as int, col, row));
        }
    }
    views
}

} // verus!
