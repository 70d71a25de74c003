//! The automaton as mathematics: cells, neighbourhoods, the rule, generations.

use vstd::arithmetic::div_mod::{
    lemma_fundamental_div_mod, lemma_fundamental_div_mod_converse, lemma_mod_bound,
};
use vstd::prelude::*;

verus! {

/// The value of a dead cell in a buffer.
pub const DEAD: u32 = 0;

/// The value of a live cell in a buffer.
pub const ALIVE: u32 = 1;

/// Whether `(x, y)` names a cell of the `n` by `n` grid.
pub open spec fn in_grid(n: int, x: int, y: int) -> bool {
    0 <= x < n && 0 <= y < n
}

/// Where the cell `(x, y)` lies in a buffer: rows follow one another.
pub open spec fn cell_index(n: int, x: int, y: int) -> int {
    y * n + x
}

/// A buffer for an `n` by `n` grid: `n * n` cells, each dead or alive.
pub open spec fn valid_cells(cells: Seq<u32>, n: int) -> bool {
    &&& n >= 1
    &&& cells.len() == n * n
    &&& forall|i: int| 0 <= i < cells.len() ==> cells[i] <= 1
}

/// Whether the cell `(x, y)` is alive. A coordinate outside the grid is dead.
pub open spec fn alive(cells: Seq<u32>, n: int, x: int, y: int) -> bool {
    in_grid(n, x, y) && cells[cell_index(n, x, y)] == ALIVE
}

/// One for a live cell, zero for a dead one or for a place outside the grid.
pub open spec fn live_at(cells: Seq<u32>, n: int, x: int, y: int) -> int {
    if alive(cells, n, x, y) {
        1
    } else {
        0
    }
}

/// How many of the eight cells around `(x, y)` are alive.
#[verifier::opaque]
pub open spec fn live_neighbors(cells: Seq<u32>, n: int, x: int, y: int) -> int {
    live_at(cells, n, x - 1, y - 1) + live_at(cells, n, x, y - 1) + live_at(cells, n, x + 1, y - 1)
        + live_at(cells, n, x - 1, y) + live_at(cells, n, x + 1, y) + live_at(
        cells,
        n,
        x - 1,
        y + 1,
    ) + live_at(cells, n, x, y + 1) + live_at(cells, n, x + 1, y + 1)
}

/// The rule: a live cell stays alive with two or three live neighbours, a dead
/// cell comes alive with exactly three, and every other cell is dead.
pub open spec fn survives(is_alive: bool, neighbors: int) -> bool {
    neighbors == 3 || (is_alive && neighbors == 2)
}

/// The value of the cell `(x, y)` one generation later.
pub open spec fn next_cell(cells: Seq<u32>, n: int, x: int, y: int) -> u32 {
    if survives(alive(cells, n, x, y), live_neighbors(cells, n, x, y)) {
        ALIVE
    } else {
        DEAD
    }
}

/// The buffer one generation after `cells`.
pub open spec fn next_generation(cells: Seq<u32>, n: int) -> Seq<u32> {
    Seq::new((n * n) as nat, |i: int| next_cell(cells, n, i % n, i / n))
}

/// The buffer `k` generations after `cells`.
pub open spec fn generation(cells: Seq<u32>, n: int, k: nat) -> Seq<u32>
    decreases k,
{
    if k == 0 {
        cells
    } else {
        next_generation(generation(cells, n, (k - 1) as nat), n)
    }
}

/// A cell of the grid has an index inside the buffer, and the index gives the
/// cell back.
pub proof fn lemma_cell_index(n: int, x: int, y: int)
    requires
        in_grid(n, x, y),
    ensures
        0 <= cell_index(n, x, y) < n * n,
        cell_index(n, x, y) % n == x,
        cell_index(n, x, y) / n == y,
{
    assert(0 <= y * n && y * n + x < n * n) by (nonlinear_arith)
        requires
            0 <= x < n,
            0 <= y < n,
    ;
    lemma_fundamental_div_mod_converse(y * n + x, n, y, x);
}

/// Every index of the buffer is the index of one cell of the grid.
pub proof fn lemma_index_cell(n: int, i: int)
    requires
        n >= 1,
        0 <= i < n * n,
    ensures
        in_grid(n, i % n, i / n),
        cell_index(n, i % n, i / n) == i,
{
    lemma_fundamental_div_mod(i, n);
    lemma_mod_bound(i, n);
    let q = i / n;
    let r = i % n;
    assert(0 <= q < n && q * n + r == i) by (nonlinear_arith)
        requires
            i == n * q + r,
            0 <= r < n,
            0 <= i < n * n,
    ;
}

/// A generation step yields a buffer that fits the grid and holds only dead
/// and live cells, whatever it read.
pub proof fn lemma_next_generation_valid(cells: Seq<u32>, n: int)
    requires
        n >= 1,
    ensures
        valid_cells(next_generation(cells, n), n),
{
    assert(n * n >= 0) by (nonlinear_arith)
        requires
            n >= 1,
    ;
}

/// A generation step computes each cell of the grid by the rule.
pub proof fn lemma_next_generation_cell(cells: Seq<u32>, n: int, x: int, y: int)
    requires
        in_grid(n, x, y),
    ensures
        0 <= cell_index(n, x, y) < next_generation(cells, n).len(),
        next_generation(cells, n)[cell_index(n, x, y)] == next_cell(cells, n, x, y),
{
    lemma_cell_index(n, x, y);
}

/// Whether a buffer holds no live cell.
pub open spec fn all_dead(cells: Seq<u32>) -> bool {
    forall|i: int| 0 <= i < cells.len() ==> cells[i] == DEAD
}

/// In a buffer without live cells no place is alive.
proof fn lemma_all_dead_live_at(cells: Seq<u32>, n: int, x: int, y: int)
    requires
        cells.len() == n * n,
        all_dead(cells),
    ensures
        live_at(cells, n, x, y) == 0,
{
    if in_grid(n, x, y) {
        lemma_cell_index(n, x, y);
    }
}

/// No spontaneous life: on every grid, a generation step turns a buffer
/// without live cells into a buffer without live cells.
pub proof fn lemma_no_spontaneous_life(cells: Seq<u32>, n: int)
    requires
        n >= 1,
        cells.len() == n * n,
        all_dead(cells),
    ensures
        all_dead(next_generation(cells, n)),
        next_generation(cells, n) == cells,
{
    let next = next_generation(cells, n);
    assert forall|i: int| 0 <= i < next.len() implies next[i] == DEAD by {
        let x = i % n;
        let y = i / n;
        reveal(live_neighbors);
        lemma_all_dead_live_at(cells, n, x - 1, y - 1);
        lemma_all_dead_live_at(cells, n, x, y - 1);
        lemma_all_dead_live_at(cells, n, x + 1, y - 1);
        lemma_all_dead_live_at(cells, n, x - 1, y);
        lemma_all_dead_live_at(cells, n, x, y);
        lemma_all_dead_live_at(cells, n, x + 1, y);
        lemma_all_dead_live_at(cells, n, x - 1, y + 1);
        lemma_all_dead_live_at(cells, n, x, y + 1);
        lemma_all_dead_live_at(cells, n, x + 1, y + 1);
    }
    assert(next =~= cells);
}

/// Birth, underpopulation and overpopulation: on every grid, after one
/// generation step a dead cell with exactly three live neighbours is alive, a
/// live cell with fewer than two live neighbours is dead, and a live cell with
/// more than three live neighbours is dead.
pub proof fn lemma_birth_and_death(cells: Seq<u32>, n: int, x: int, y: int)
    requires
        n >= 1,
        in_grid(n, x, y),
    ensures
        !alive(cells, n, x, y) && live_neighbors(cells, n, x, y) == 3 ==> next_generation(
            cells,
            n,
        )[cell_index(n, x, y)] == ALIVE,
        alive(cells, n, x, y) && live_neighbors(cells, n, x, y) <= 1 ==> next_generation(
            cells,
            n,
        )[cell_index(n, x, y)] == DEAD,
        alive(cells, n, x, y) && live_neighbors(cells, n, x, y) >= 4 ==> next_generation(
            cells,
            n,
        )[cell_index(n, x, y)] == DEAD,
{
    lemma_next_generation_cell(cells, n, x, y);
}

/// Survival: on every grid, a live cell with two or three live neighbours is
/// alive after one generation step, and a dead cell with any other count than
/// three stays dead.
pub proof fn lemma_survival(cells: Seq<u32>, n: int, x: int, y: int)
    requires
        n >= 1,
        in_grid(n, x, y),
    ensures
        alive(cells, n, x, y) && 2 <= live_neighbors(cells, n, x, y) <= 3 ==> next_generation(
            cells,
            n,
        )[cell_index(n, x, y)] == ALIVE,
        !alive(cells, n, x, y) && live_neighbors(cells, n, x, y) != 3 ==> next_generation(
            cells,
            n,
        )[cell_index(n, x, y)] == DEAD,
{
    lemma_next_generation_cell(cells, n, x, y);
}

/// On the grid of a single cell that cell has no neighbour, so it is dead
/// after every generation step, whatever it was before.
pub proof fn lemma_single_cell_dies(cells: Seq<u32>)
    requires
        cells.len() == 1,
    ensures
        live_neighbors(cells, 1, 0, 0) == 0,
        next_generation(cells, 1) == seq![DEAD],
{
    reveal(live_neighbors);
    assert(next_generation(cells, 1) =~= seq![DEAD]);
}

/// On the grid of a single cell the cell is dead in every generation but the
/// first.
pub proof fn lemma_single_cell_stays_dead(cells: Seq<u32>, k: nat)
    requires
        cells.len() == 1,
        k >= 1,
    ensures
        generation(cells, 1, k) == seq![DEAD],
    decreases k,
{
    if k == 1 {
        assert(generation(cells, 1, 0) == cells);
        lemma_single_cell_dies(cells);
    } else {
        lemma_single_cell_stays_dead(cells, (k - 1) as nat);
        lemma_single_cell_dies(generation(cells, 1, (k - 1) as nat));
    }
}

/// Applies the rule to one cell, given its state and its count of live
/// neighbours.
pub fn next_state(is_alive: bool, neighbors: u32) -> (state: u32)
    ensures
        state == if survives(is_alive, neighbors as int) {
            ALIVE
        } else {
            DEAD
        },
{
    if neighbors == 3 || (is_alive && neighbors == 2) {
        ALIVE
    } else {
        DEAD
    }
}

} // verus!
