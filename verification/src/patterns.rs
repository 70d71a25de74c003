//! Two classic patterns, proved on every grid that has room for them.

use crate::life::{
    alive, generation, in_grid, lemma_cell_index, lemma_index_cell, live_neighbors, next_generation,
    ALIVE, DEAD,
};
use vstd::prelude::*;

verus! {

/// The buffer of the grid whose live cells are exactly those that `live`
/// names.
pub open spec fn pattern(n: int, live: spec_fn(int, int) -> bool) -> Seq<u32> {
    Seq::new(
        (n * n) as nat,
        |i: int|
            if live(i % n, i / n) {
                ALIVE
            } else {
                DEAD
            },
    )
}

/// The two by two block whose least corner is `(x0, y0)`.
pub open spec fn block(x0: int, y0: int) -> spec_fn(int, int) -> bool {
    |x: int, y: int| x0 <= x <= x0 + 1 && y0 <= y <= y0 + 1
}

/// The blinker around `(x0, y0)`, lying flat: three cells in a row.
pub open spec fn blinker_flat(x0: int, y0: int) -> spec_fn(int, int) -> bool {
    |x: int, y: int| y == y0 && x0 - 1 <= x <= x0 + 1
}

/// The blinker around `(x0, y0)`, standing upright: three cells in a column.
pub open spec fn blinker_upright(x0: int, y0: int) -> spec_fn(int, int) -> bool {
    |x: int, y: int| x == x0 && y0 - 1 <= y <= y0 + 1
}

/// In the buffer of a pattern, a place is alive exactly when it lies in the
/// grid and the pattern names it.
proof fn lemma_pattern_alive(n: int, live: spec_fn(int, int) -> bool, x: int, y: int)
    ensures
        alive(pattern(n, live), n, x, y) == (in_grid(n, x, y) && live(x, y)),
{
    if in_grid(n, x, y) {
        lemma_cell_index(n, x, y);
    }
}

/// The block is a still life: on every grid that holds it, with every other
/// cell dead, a generation step leaves the grid as it is.
pub proof fn lemma_block_is_still(n: int, x0: int, y0: int)
    requires
        in_grid(n, x0, y0),
        in_grid(n, x0 + 1, y0 + 1),
    ensures
        next_generation(pattern(n, block(x0, y0)), n) == pattern(n, block(x0, y0)),
{
    let cells = pattern(n, block(x0, y0));
    let next = next_generation(cells, n);
    assert forall|i: int| 0 <= i < next.len() implies next[i] == cells[i] by {
        lemma_index_cell(n, i);
        let x = i % n;
        let y = i / n;
        reveal(live_neighbors);
        lemma_pattern_alive(n, block(x0, y0), x - 1, y - 1);
        lemma_pattern_alive(n, block(x0, y0), x, y - 1);
        lemma_pattern_alive(n, block(x0, y0), x + 1, y - 1);
        lemma_pattern_alive(n, block(x0, y0), x - 1, y);
        lemma_pattern_alive(n, block(x0, y0), x, y);
        lemma_pattern_alive(n, block(x0, y0), x + 1, y);
        lemma_pattern_alive(n, block(x0, y0), x - 1, y + 1);
        lemma_pattern_alive(n, block(x0, y0), x, y + 1);
        lemma_pattern_alive(n, block(x0, y0), x + 1, y + 1);
    }
    assert(next =~= cells);
}

/// One generation step turns a flat blinker upright, on every grid that
/// holds the blinker with a margin of one cell, with every other cell dead.
pub proof fn lemma_blinker_stands_up(n: int, x0: int, y0: int)
    requires
        in_grid(n, x0 - 1, y0 - 1),
        in_grid(n, x0 + 1, y0 + 1),
    ensures
        next_generation(pattern(n, blinker_flat(x0, y0)), n) == pattern(
            n,
            blinker_upright(x0, y0),
        ),
{
    let live = blinker_flat(x0, y0);
    let cells = pattern(n, live);
    let next = next_generation(cells, n);
    let goal = pattern(n, blinker_upright(x0, y0));
    assert forall|i: int| 0 <= i < next.len() implies next[i] == goal[i] by {
        lemma_index_cell(n, i);
        let x = i % n;
        let y = i / n;
        reveal(live_neighbors);
        lemma_pattern_alive(n, live, x - 1, y - 1);
        lemma_pattern_alive(n, live, x, y - 1);
        lemma_pattern_alive(n, live, x + 1, y - 1);
        lemma_pattern_alive(n, live, x - 1, y);
        lemma_pattern_alive(n, live, x, y);
        lemma_pattern_alive(n, live, x + 1, y);
        lemma_pattern_alive(n, live, x - 1, y + 1);
        lemma_pattern_alive(n, live, x, y + 1);
        lemma_pattern_alive(n, live, x + 1, y + 1);
    }
    assert(next =~= goal);
}

/// One generation step lays an upright blinker flat, on every grid that
/// holds the blinker with a margin of one cell, with every other cell dead.
pub proof fn lemma_blinker_lies_down(n: int, x0: int, y0: int)
    requires
        in_grid(n, x0 - 1, y0 - 1),
        in_grid(n, x0 + 1, y0 + 1),
    ensures
        next_generation(pattern(n, blinker_upright(x0, y0)), n) == pattern(
            n,
            blinker_flat(x0, y0),
        ),
{
    let live = blinker_upright(x0, y0);
    let cells = pattern(n, live);
    let next = next_generation(cells, n);
    let goal = pattern(n, blinker_flat(x0, y0));
    assert forall|i: int| 0 <= i < next.len() implies next[i] == goal[i] by {
        lemma_index_cell(n, i);
        let x = i % n;
        let y = i / n;
        reveal(live_neighbors);
        lemma_pattern_alive(n, live, x - 1, y - 1);
        lemma_pattern_alive(n, live, x, y - 1);
        lemma_pattern_alive(n, live, x + 1, y - 1);
        lemma_pattern_alive(n, live, x - 1, y);
        lemma_pattern_alive(n, live, x, y);
        lemma_pattern_alive(n, live, x + 1, y);
        lemma_pattern_alive(n, live, x - 1, y + 1);
        lemma_pattern_alive(n, live, x, y + 1);
        lemma_pattern_alive(n, live, x + 1, y + 1);
    }
    assert(next =~= goal);
}

/// The blinker has period two: after two generation steps it is back where
/// it started, on every grid that holds it with a margin of one cell.
pub proof fn lemma_blinker_period(n: int, x0: int, y0: int)
    requires
        in_grid(n, x0 - 1, y0 - 1),
        in_grid(n, x0 + 1, y0 + 1),
    ensures
        generation(pattern(n, blinker_flat(x0, y0)), n, 2) == pattern(n, blinker_flat(x0, y0)),
        generation(pattern(n, blinker_upright(x0, y0)), n, 2) == pattern(
            n,
            blinker_upright(x0, y0),
        ),
{
    lemma_blinker_stands_up(n, x0, y0);
    lemma_blinker_lies_down(n, x0, y0);
    reveal_with_fuel(generation, 3);
}

} // verus!
