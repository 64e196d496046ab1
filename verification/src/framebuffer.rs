//! The gradient image as an ordered sequence of cells.
//!
//! The cells are laid out column by column: all rows of column 0 come first,
//! then all rows of column 1, and so on.
use vstd::prelude::*;
use vstd::arithmetic::div_mod::lemma_fundamental_div_mod_converse;
use vstd::arithmetic::mul::{lemma_mul_inequality, lemma_mul_is_distributive_add_other_way};
use crate::color::{gradient_color, Color};

verus! {

/// Position in the sequence of the cell at `(column, row)`, for an image of
/// `height` rows.
pub open spec fn cell_index(column: int, row: int, height: int) -> int {
    column * height + row
}

/// The gradient image of `width` columns and `height` rows: `width * height`
/// cells, the one at position `index` being the colour of column
/// `index / height` and row `index % height`.
pub open spec fn gradient(width: u32, height: u32) -> Seq<Color> {
    Seq::new(
        (width * height) as nat,
        |index: int|
            gradient_color(
                (index / height as int) as u32,
                (index % height as int) as u32,
                width,
                height,
            ),
    )
}

/// The image has one cell for every pair of a column and a row, and so none
/// at all when it has no column or no row.
pub proof fn lemma_gradient_len(width: u32, height: u32)
    ensures
        gradient(width, height).len() == width * height,
        width == 0 || height == 0 ==> gradient(width, height).len() == 0,
{
    assert(width == 0 || height == 0 ==> width * height == 0) by (nonlinear_arith);
}

/// The cell of column `column` and row `row` stands at position
/// `column * height + row`, and holds the gradient's colour for that column
/// and row.
pub proof fn lemma_gradient_cell(width: u32, height: u32, column: u32, row: u32)
    requires
        column < width,
        row < height,
    ensures
        0 <= cell_index(column as int, row as int, height as int) < gradient(width, height).len(),
        gradient(width, height)[cell_index(column as int, row as int, height as int)]
            == gradient_color(column, row, width, height),
{
    let index = cell_index(column as int, row as int, height as int);
    lemma_cell_index_bounds(width as int, height as int, column as int, row as int);
    lemma_fundamental_div_mod_converse(index, height as int, column as int, row as int);
}

/// Every position of the image belongs to exactly one column and row: the
/// column is `index / height`, the row is `index % height`, and
/// `cell_index` leads back from them to `index`.
pub proof fn lemma_gradient_position(width: u32, height: u32, index: int)
    requires
        0 <= index < gradient(width, height).len(),
    ensures
        0 <= index / (height as int) < width,
        0 <= index % (height as int) < height,
        cell_index(index / (height as int), index % (height as int), height as int) == index,
        gradient(width, height)[index] == gradient_color(
            (index / (height as int)) as u32,
            (index % (height as int)) as u32,
            width,
            height,
        ),
{
    let w = width as int;
    let h = height as int;
    assert(h > 0) by (nonlinear_arith)
        requires
            0 <= index < w * h,
            0 <= h,
    ;
    assert(0 <= index / h < w && 0 <= index % h < h && (index / h) * h + index % h == index)
        by (nonlinear_arith)
        requires
            0 <= index < w * h,
            0 < h,
    ;
}

/// In every cell of the image red and green lie in `[0, 1)` and blue is zero.
pub proof fn lemma_gradient_in_range(width: u32, height: u32)
    ensures
        forall|index: int|
            0 <= index < gradient(width, height).len() ==> (#[trigger] gradient(
                width,
                height,
            )[index]).in_gradient_range(),
{
    assert forall|index: int|
        0 <= index < gradient(width, height).len() implies (#[trigger] gradient(
        width,
        height,
    )[index]).in_gradient_range() by {
        lemma_gradient_position(width, height, index);
    }
}

/// Two cells of the image are in the order of their columns, and within one
/// column in the order of their rows.
pub proof fn lemma_gradient_order(height: u32, column_a: u32, row_a: u32, column_b: u32, row_b: u32)
    requires
        row_a < height,
        row_b < height,
    ensures
        cell_index(column_a as int, row_a as int, height as int) < cell_index(
            column_b as int,
            row_b as int,
            height as int,
        ) <==> column_a < column_b || (column_a == column_b && row_a < row_b),
{
    let h = height as int;
    let (ca, cb) = (column_a as int, column_b as int);
    if ca < cb {
        lemma_mul_inequality(ca + 1, cb, h);
        lemma_mul_is_distributive_add_other_way(h, ca, 1);
    } else if cb < ca {
        lemma_mul_inequality(cb + 1, ca, h);
        lemma_mul_is_distributive_add_other_way(h, cb, 1);
    }
}

proof fn lemma_cell_index_bounds(width: int, height: int, column: int, row: int)
    requires
        0 <= column < width,
        0 <= row < height,
    ensures
        0 <= cell_index(column, row, height) < width * height,
{
    lemma_mul_inequality(0, column, height);
    lemma_mul_inequality(column + 1, width, height);
    lemma_mul_is_distributive_add_other_way(height, column, 1);
}

/// Builds the gradient image of `width` columns and `height` rows, column by
/// column. With no column or no row the image is empty.
pub fn generate(width: u32, height: u32) -> (cells: Vec<Color>)
    ensures
        cells@ == gradient(width, height),
        cells@.len() == width * height,
{
    let mut cells: Vec<Color> = Vec::new();
    let mut column: u32 = 0;
    while column < width
        invariant
            column <= width,
            cells@ == gradient(width, height).take(cell_index(column as int, 0, height as int)),
            cells@.len() == cell_index(column as int, 0, height as int),
        decreases width - column,
    {
        let mut row: u32 = 0;
        while row < height
            invariant
                column < width,
                row <= height,
                cells@ == gradient(width, height).take(
                    cell_index(column as int, row as int, height as int),
                ),
                cells@.len() == cell_index(column as int, row as int, height as int),
            decreases height - row,
        {
            proof {
                lemma_gradient_cell(width, height, column, row);
            }
            cells.push(Color::gradient_at(column, row, width, height));
            row = row + 1;
        }
        proof {
            lemma_mul_is_distributive_add_other_way(height as int, column as int, 1);
        }
        column = column + 1;
    }
    proof {
        lemma_gradient_len(width, height);
    }
    cells
}

} // verus!
