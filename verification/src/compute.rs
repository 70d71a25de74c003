//! The compute stage: one generation, dispatched in square tiles.

use crate::life::{
    cell_index, in_grid, lemma_cell_index, lemma_index_cell, live_at, live_neighbors, next_cell,
    next_generation, next_state, ALIVE,
};
use vstd::prelude::*;

verus! {

/// The side of a tile: a workgroup covers `TILE` by `TILE` invocations.
pub const TILE: u32 = 8;

/// Whether the invocation `(x, y)` belongs to the workgroup `(wx, wy)`.
pub open spec fn in_tile(x: int, y: int, wx: int, wy: int) -> bool {
    x / 8 == wx && y / 8 == wy
}

/// How many workgroups a grid of side `n` needs along one axis: the least
/// number of tiles that cover `n` cells.
pub open spec fn workgroups_spec(n: int) -> int {
    (n + 7) / 8
}

/// The number of workgroups to dispatch along each axis.
pub fn workgroups(n: u16) -> (count: u32)
    ensures
        count == workgroups_spec(n as int),
        8 * (count - 1) < n <= 8 * count,
{
    (n as u32 + (TILE - 1)) / TILE
}

/// Reads the cell `(x, y)` as a count: one if it is alive, zero if it is dead
/// or lies outside the grid.
fn live(n: u16, cells: &Vec<u32>, x: i32, y: i32) -> (count: u32)
    requires
        cells.len() == n * n,
    ensures
        count == live_at(cells@, n as int, x as int, y as int),
{
    if x < 0 || y < 0 || x >= n as i32 || y >= n as i32 {
        0
    } else {
        proof {
            lemma_cell_index(n as int, x as int, y as int);
        }
        let i: usize = (y as usize) * (n as usize) + (x as usize);
        if cells[i] == ALIVE {
            1
        } else {
            0
        }
    }
}

/// Counts the live cells among the eight around `(x, y)`.
fn count_neighbors(n: u16, cells: &Vec<u32>, x: i32, y: i32) -> (count: u32)
    requires
        cells.len() == n * n,
        0 <= x < n,
        0 <= y < n,
    ensures
        count == live_neighbors(cells@, n as int, x as int, y as int),
{
    proof {
        reveal(live_neighbors);
    }
    let top: u32 = live(n, cells, x - 1, y - 1) + live(n, cells, x, y - 1) + live(
        n,
        cells,
        x + 1,
        y - 1,
    );
    let mid: u32 = live(n, cells, x - 1, y) + live(n, cells, x + 1, y);
    let bottom: u32 = live(n, cells, x - 1, y + 1) + live(n, cells, x, y + 1) + live(
        n,
        cells,
        x + 1,
        y + 1,
    );
    top + mid + bottom
}

/// One invocation of the compute program, with global id `(gx, gy)`.
///
/// Inside the grid it writes the next state of its cell into `write`. An
/// invocation of a tile that runs past the grid does nothing.
pub fn invoke(n: u16, read: &Vec<u32>, write: &mut Vec<u32>, gx: u32, gy: u32)
    requires
        read.len() == n * n,
        old(write).len() == n * n,
    ensures
        final(write)@.len() == n * n,
        in_grid(n as int, gx as int, gy as int) ==> final(write)@ == old(write)@.update(
            cell_index(n as int, gx as int, gy as int),
            next_cell(read@, n as int, gx as int, gy as int),
        ),
        !in_grid(n as int, gx as int, gy as int) ==> final(write)@ == old(write)@,
{
    if gx >= n as u32 || gy >= n as u32 {
        return ;
    }
    let x: i32 = gx as i32;
    let y: i32 = gy as i32;
    proof {
        lemma_cell_index(n as int, x as int, y as int);
    }
    let i: usize = (gy as usize) * (n as usize) + (gx as usize);
    let neighbors: u32 = count_neighbors(n, read, x, y);
    let state: u32 = next_state(read[i] == ALIVE, neighbors);
    write.set(i, state);
}

/// What a buffer holds at `(x, y)` once the workgroup `(wx, wy)` has run its
/// rows below `ly`, and `lx` invocations of row `ly`.
pub open spec fn tile_progress(
    before: Seq<u32>,
    read: Seq<u32>,
    n: int,
    wx: int,
    wy: int,
    ly: int,
    lx: int,
    x: int,
    y: int,
) -> u32 {
    if in_tile(x, y, wx, wy) && (y % 8 < ly || (y % 8 == ly && x % 8 < lx)) {
        next_cell(read, n, x, y)
    } else {
        before[cell_index(n, x, y)]
    }
}

/// Runs the workgroup `(wx, wy)`: every invocation of its tile, row by row.
///
/// The cells of the grid that lie in the tile receive their next state. All
/// other cells stay as they were; a tile that lies past the grid changes
/// nothing.
pub fn run_workgroup(n: u16, read: &Vec<u32>, write: &mut Vec<u32>, wx: u32, wy: u32)
    requires
        read.len() == n * n,
        old(write).len() == n * n,
    ensures
        final(write)@.len() == n * n,
        forall|x: int, y: int|
            in_grid(n as int, x, y) ==> final(write)@[#[trigger] cell_index(n as int, x, y)] == (
            if in_tile(x, y, wx as int, wy as int) {
                next_cell(read@, n as int, x, y)
            } else {
                old(write)@[cell_index(n as int, x, y)]
            }),
{
    if wx > 8191 || wy > 8191 {
        return ;
    }
    let ghost before = write@;
    let mut ly: u32 = 0;
    while ly < TILE
        invariant
            ly <= 8,
            wx <= 8192,
            wy <= 8192,
            read.len() == n * n,
            write.len() == n * n,
            before.len() == n * n,
            forall|x: int, y: int|
                in_grid(n as int, x, y) ==> write@[#[trigger] cell_index(n as int, x, y)]
                    == tile_progress(before, read@, n as int, wx as int, wy as int, ly as int, 0, x, y),
        decreases 8 - ly,
    {
        let mut lx: u32 = 0;
        while lx < TILE
            invariant
                ly < 8,
                lx <= 8,
                wx <= 8192,
                wy <= 8192,
                read.len() == n * n,
                write.len() == n * n,
                before.len() == n * n,
                forall|x: int, y: int|
                    in_grid(n as int, x, y) ==> write@[#[trigger] cell_index(n as int, x, y)]
                        == tile_progress(
                        before,
                        read@,
                        n as int,
                        wx as int,
                        wy as int,
                        ly as int,
                        lx as int,
                        x,
                        y,
                    ),
            decreases 8 - lx,
        {
            let gx: u32 = wx * TILE + lx;
            let gy: u32 = wy * TILE + ly;
            let ghost prior = write@;
            invoke(n, read, write, gx, gy);
            proof {
                assert forall|x: int, y: int| in_grid(n as int, x, y) implies write@[#[trigger] cell_index(
                    n as int,
                    x,
                    y,
                )] == tile_progress(
                    before,
                    read@,
                    n as int,
                    wx as int,
                    wy as int,
                    ly as int,
                    lx as int + 1,
                    x,
                    y,
                ) by {
                    lemma_cell_index(n as int, x, y);
                    if in_grid(n as int, gx as int, gy as int) {
                        lemma_cell_index(n as int, gx as int, gy as int);
                    }
                }
            }
            lx = lx + 1;
        }
        ly = ly + 1;
    }
}

/// Runs the whole dispatch: `workgroups(n)` tiles along each axis.
///
/// Afterwards `write` holds the generation that follows `read`. Nothing else
/// changes: `read` is only read, and no index outside the buffer is touched.
pub fn dispatch(n: u16, read: &Vec<u32>, write: &mut Vec<u32>)
    requires
        read.len() == n * n,
        old(write).len() == n * n,
    ensures
        final(write)@ == next_generation(read@, n as int),
{
    let groups: u32 = workgroups(n);
    let mut wy: u32 = 0;
    while wy < groups
        invariant
            groups == workgroups_spec(n as int),
            wy <= groups,
            read.len() == n * n,
            write.len() == n * n,
            forall|x: int, y: int|
                in_grid(n as int, x, y) && y / 8 < wy ==> write@[#[trigger] cell_index(n as int, x, y)]
                    == next_cell(read@, n as int, x, y),
        decreases groups - wy,
    {
        let mut wx: u32 = 0;
        while wx < groups
            invariant
                groups == workgroups_spec(n as int),
                wy < groups,
                wx <= groups,
                read.len() == n * n,
                write.len() == n * n,
                forall|x: int, y: int|
                    in_grid(n as int, x, y) && (y / 8 < wy || (y / 8 == wy && x / 8 < wx))
                        ==> write@[#[trigger] cell_index(n as int, x, y)] == next_cell(
                        read@,
                        n as int,
                        x,
                        y,
                    ),
            decreases groups - wx,
        {
            run_workgroup(n, read, write, wx, wy);
            wx = wx + 1;
        }
        wy = wy + 1;
    }
    proof {
        let next = next_generation(read@, n as int);
        assert(write@.len() == next.len());
        assert forall|i: int| 0 <= i < write@.len() implies write@[i] == next[i] by {
            assert(n >= 1) by (nonlinear_arith)
                requires
                    0 <= i < n * n,
            ;
            lemma_index_cell(n as int, i);
            let x = i % (n as int);
            let y = i / (n as int);
            assert(write@[cell_index(n as int, x, y)] == next_cell(read@, n as int, x, y));
        }
        assert(write@ =~= next);
    }
}

} // verus!
