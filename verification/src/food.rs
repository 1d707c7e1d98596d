//! Where the food may go: the cells of the playing field that the snake leaves free.

use crate::grid::{grid_cells, grid_size, lemma_grid_cells_cover, BodyPart};
use vstd::prelude::*;

verus! {

/// The cell lies on the playing field and no segment of the body occupies it.
pub open spec fn is_free(body: Seq<BodyPart>, c: BodyPart) -> bool {
    c.in_grid() && !body.contains(c)
}

/// The test that a cell passes if no segment of the body occupies it.
pub open spec fn unoccupied(body: Seq<BodyPart>) -> spec_fn(BodyPart) -> bool {
    |c: BodyPart| !body.contains(c)
}

/// The cells of the playing field that the body leaves free, in the order of `grid_cells()`.
pub open spec fn free_cells(body: Seq<BodyPart>) -> Seq<BodyPart> {
    grid_cells().filter(unoccupied(body))
}

/// `free_cells(body)` holds exactly the free cells.
pub proof fn lemma_free_cells_exact(body: Seq<BodyPart>, c: BodyPart)
    ensures
        free_cells(body).contains(c) <==> is_free(body, c),
{
    let pred = unoccupied(body);
    lemma_grid_cells_cover(c);
    if free_cells(body).contains(c) {
        let i = choose|i: int| 0 <= i < free_cells(body).len() && free_cells(body)[i] == c;
        grid_cells().lemma_filter_pred(pred, i);
        grid_cells().lemma_filter_contains_rev(pred, c);
    }
    if is_free(body, c) {
        let k = choose|k: int| 0 <= k < grid_cells().len() && grid_cells()[k] == c;
        grid_cells().lemma_filter_contains(pred, k);
    }
}

/// No cell comes twice among the free cells, so a draw that is uniform over
/// the indices is uniform over the cells.
pub proof fn lemma_free_cells_distinct(body: Seq<BodyPart>)
    ensures
        free_cells(body).no_duplicates(),
{
    lemma_free_prefix_distinct(body, grid_size());
    assert(grid_cells().take(grid_size() as int) =~= grid_cells());
}

/// The same for the free cells among the first `k` cells of the playing field.
proof fn lemma_free_prefix_distinct(body: Seq<BodyPart>, k: nat)
    requires
        k <= grid_size(),
    ensures
        grid_cells().take(k as int).filter(unoccupied(body)).no_duplicates(),
    decreases k,
{
    let pred = unoccupied(body);
    if k == 0 {
        assert(grid_cells().take(0).filter(pred) =~= Seq::<BodyPart>::empty()) by {
            reveal(Seq::filter);
        }
    } else {
        let shorter = grid_cells().take(k - 1);
        let cell = grid_cells()[k - 1];
        lemma_free_prefix_distinct(body, (k - 1) as nat);
        assert(grid_cells().take(k as int) =~= shorter.push(cell));
        shorter.lemma_filter_push(cell, pred);
        // The cell at `k - 1` is not among the cells before it, so not among the free ones.
        if shorter.filter(pred).contains(cell) {
            shorter.lemma_filter_contains_rev(pred, cell);
        }
    }
}

/// The cell that the draw of `pos` selects among the cells `free`.
pub fn drawn_cell(free: &Vec<BodyPart>, pos: usize) -> (cell: BodyPart)
    requires
        pos < free@.len(),
    ensures
        cell == free@[pos as int],
{
    free[pos]
}

} // verus!
