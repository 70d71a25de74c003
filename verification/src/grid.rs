//! The two cell buffers of a run, and how they are seeded.

use crate::compute::dispatch;
use crate::life::{lemma_next_generation_valid, next_generation, valid_cells, ALIVE, DEAD};
use vstd::bytes::spec_u32_to_le_bytes;
use vstd::prelude::*;

verus! {

/// Names one of the two cell buffers.
#[derive(Clone, Copy, Debug, PartialEq, Eq, Structural)]
pub enum BufferId {
    A,
    B,
}

impl BufferId {
    /// The buffer that `self` is not.
    pub open spec fn other_spec(self) -> BufferId {
        match self {
            BufferId::A => BufferId::B,
            BufferId::B => BufferId::A,
        }
    }

    /// The buffer that `self` is not.
    #[verifier::when_used_as_spec(other_spec)]
    pub fn other(self) -> (id: BufferId)
        ensures
            id == self.other_spec(),
    {
        match self {
            BufferId::A => BufferId::B,
            BufferId::B => BufferId::A,
        }
    }
}

/// The value that a draw seeds a cell with.
pub open spec fn seeded(draw: bool) -> u32 {
    if draw {
        ALIVE
    } else {
        DEAD
    }
}

/// The cells that a sequence of draws seeds, one cell per draw.
pub open spec fn seeded_cells(draws: Seq<bool>) -> Seq<u32> {
    Seq::new(draws.len(), |i: int| seeded(draws[i]))
}

/// Draws one bit with `rand::Rng::gen::<bool>` on the generator that
/// `rand::thread_rng` hands out. Nothing is claimed of the bit: rand makes
/// either value equally likely, and two calls need not agree. The generator
/// is seeded from the operating system when a thread first uses it, and
/// `thread_rng` panics if that seeding fails.
#[verifier::external_body]
fn random_bit() -> (bit: bool) {
    rand::Rng::gen::<bool>(&mut rand::thread_rng())
}

/// The four bytes that a cell occupies in memory: least significant byte
/// first on a little-endian machine, last on a big-endian one.
pub open spec fn cell_word(cell: u32, big_endian: bool) -> Seq<u8> {
    if big_endian {
        spec_u32_to_le_bytes(cell).reverse()
    } else {
        spec_u32_to_le_bytes(cell)
    }
}

/// The bytes of the `i`-th cell in a byte image.
pub open spec fn word_at(bytes: Seq<u8>, i: int) -> Seq<u8> {
    bytes.subrange(4 * i, 4 * i + 4)
}

/// Whether `bytes` is the image of `cells` in memory for one byte order: four
/// bytes for each cell, cell after cell.
pub open spec fn image_of(cells: Seq<u32>, bytes: Seq<u8>, big_endian: bool) -> bool {
    &&& bytes.len() == 4 * cells.len()
    &&& forall|i: int|
        0 <= i < cells.len() ==> #[trigger] word_at(bytes, i) == cell_word(cells[i], big_endian)
}

/// Whether `bytes` is the image of `cells` in memory, in the byte order of
/// whatever machine made it.
pub open spec fn memory_image(cells: Seq<u32>, bytes: Seq<u8>) -> bool {
    image_of(cells, bytes, false) || image_of(cells, bytes, true)
}

/// Reinterprets cells as the bytes they occupy, with `bytemuck::cast_slice`
/// from `u32` to `u8`. bytemuck documents that input and output are the same
/// memory, so the output holds the four bytes of each cell, cell after cell,
/// in the machine's byte order, which is little-endian or big-endian and the
/// same for all cells. From `u32` to `u8` the cast cannot fail: the target
/// has the smaller alignment and a size that divides every length.
#[verifier::external_body]
fn cell_bytes(cells: &Vec<u32>) -> (bytes: Vec<u8>)
    ensures
        memory_image(cells@, bytes@),
{
    bytemuck::cast_slice::<u32, u8>(cells.as_slice()).to_vec()
}

/// The authoritative state of the automaton: the side of the grid and two
/// buffers of `n * n` cells each.
///
/// The side never changes after construction, and both buffers always have
/// the size it asks for.
pub struct GridState {
    n: u16,
    a: Vec<u32>,
    b: Vec<u32>,
}

impl GridState {
    /// The side of the grid.
    pub closed spec fn size(self) -> int {
        self.n as int
    }

    /// The contents of one buffer.
    pub closed spec fn cells(self, id: BufferId) -> Seq<u32> {
        match id {
            BufferId::A => self.a@,
            BufferId::B => self.b@,
        }
    }

    /// Both buffers fit the grid and hold only dead and live cells.
    pub open spec fn wf(self) -> bool {
        &&& 1 <= self.size() <= u16::MAX
        &&& valid_cells(self.cells(BufferId::A), self.size())
        &&& valid_cells(self.cells(BufferId::B), self.size())
    }

    /// Seeds a grid from given draws: cell `i` of buffer A is alive exactly
    /// when draw `i` is true. Buffer B starts as a copy of buffer A.
    pub fn from_draws(n: u16, draws: &Vec<bool>) -> (state: GridState)
        requires
            n >= 1,
            draws.len() == n * n,
        ensures
            state.wf(),
            state.size() == n,
            state.cells(BufferId::A) == seeded_cells(draws@),
            state.cells(BufferId::B) == seeded_cells(draws@),
    {
        let mut a: Vec<u32> = Vec::new();
        let mut b: Vec<u32> = Vec::new();
        let mut i: usize = 0;
        while i < draws.len()
            invariant
                i <= draws.len(),
                a.len() == i,
                b.len() == i,
                forall|j: int| 0 <= j < i ==> a@[j] == seeded(draws@[j]),
                forall|j: int| 0 <= j < i ==> b@[j] == seeded(draws@[j]),
            decreases draws.len() - i,
        {
            let cell: u32 = if draws[i] {
                ALIVE
            } else {
                DEAD
            };
            a.push(cell);
            b.push(cell);
            i = i + 1;
        }
        assert(a@ =~= seeded_cells(draws@));
        assert(b@ =~= seeded_cells(draws@));
        GridState { n, a, b }
    }

    /// Seeds a grid at random: every cell of buffer A is an independent fair
    /// draw, and buffer B starts as a copy of buffer A.
    pub fn initialize(n: u16) -> (state: GridState)
        requires
            n >= 1,
        ensures
            state.wf(),
            state.size() == n,
            state.cells(BufferId::B) == state.cells(BufferId::A),
    {
        let total: usize = cell_total(n);
        let mut draws: Vec<bool> = Vec::new();
        let mut i: usize = 0;
        while i < total
            invariant
                i <= total,
                draws.len() == i,
            decreases total - i,
        {
            let bit: bool = random_bit();
            draws.push(bit);
            i = i + 1;
        }
        GridState::from_draws(n, &draws)
    }

    /// The side of the grid.
    pub fn grid_size(&self) -> (n: u16)
        ensures
            n == self.size(),
    {
        self.n
    }

    /// The cells of one buffer.
    pub fn buffer(&self, id: BufferId) -> (cells: &Vec<u32>)
        ensures
            cells@ == self.cells(id),
    {
        match id {
            BufferId::A => &self.a,
            BufferId::B => &self.b,
        }
    }

    /// The bytes that a storage buffer for `id` is created with: the cells
    /// as they lie in memory, four bytes each, in the machine's byte order.
    pub fn storage_contents(&self, id: BufferId) -> (bytes: Vec<u8>)
        ensures
            memory_image(self.cells(id), bytes@),
            bytes.len() == 4 * self.cells(id).len(),
    {
        cell_bytes(self.buffer(id))
    }

    /// Runs one generation step that reads the buffer `read` and writes the
    /// other one.
    pub(crate) fn write_next(&mut self, read: BufferId)
        requires
            old(self).wf(),
        ensures
            final(self).wf(),
            final(self).size() == old(self).size(),
            final(self).cells(read) == old(self).cells(read),
            final(self).cells(read.other()) == next_generation(
                old(self).cells(read),
                old(self).size(),
            ),
    {
        proof {
            lemma_next_generation_valid(self.cells(read), self.size());
        }
        match read {
            BufferId::A => dispatch(self.n, &self.a, &mut self.b),
            BufferId::B => dispatch(self.n, &self.b, &mut self.a),
        }
    }
}

/// The number of cells of a grid of side `n`.
pub fn cell_total(n: u16) -> (total: usize)
    ensures
        total == n * n,
{
    assert(n * n <= 65535 * 65535) by (nonlinear_arith)
        requires
            n <= 65535,
    ;
    (n as usize) * (n as usize)
}

} // verus!
