//! How a character-art heatmap picks, for each terminal cell, the grid value
//! it shows: nearest-neighbour sampling of a row-major grid scaled to the
//! cells available.

use vstd::prelude::*;

verus! {

/// The grid column (or row) that cell `c` of `cells` shows out of `n`:
/// `c·n / cells`, at most the last one.
pub open spec fn nearest(c: int, cells: int, n: int) -> int {
    let k = c * n / cells;
    if k < n - 1 {
        k
    } else {
        n - 1
    }
}

/// The place in the row-major grid of `nx` × `ny` values that cell
/// (`col`, `row`) of a `w` × `h` area shows.
pub open spec fn sampled_index(col: int, row: int, w: int, h: int, nx: int, ny: int) -> int {
    nearest(row, h, ny) * nx + nearest(col, w, nx)
}

/// The place in the grid that a cell shows: see `sampled_index`. It always
/// lies within the grid.
pub fn sample_index(col: usize, row: usize, w: usize, h: usize, nx: usize, ny: usize) -> (i: usize)
    requires
        col < w,
        row < h,
        nx > 0,
        ny > 0,
        col * nx <= usize::MAX,
        row * ny <= usize::MAX,
        nx * ny <= usize::MAX,
    ensures
        i == sampled_index(col as int, row as int, w as int, h as int, nx as int, ny as int),
        i < nx * ny,
{
    let kc = col * nx / w;
    let data_col = if kc < nx - 1 { kc } else { nx - 1 };
    let kr = row * ny / h;
    let data_row = if kr < ny - 1 { kr } else { ny - 1 };
    assert(data_row * nx + data_col < nx * ny) by (nonlinear_arith)
        requires
            data_row <= ny - 1,
            data_col < nx,
            nx > 0,
            ny > 0,
    {
        assert(data_row * nx <= (ny - 1) * nx);
    }
    data_row * nx + data_col
}

} // verus!
