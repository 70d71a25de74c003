//! The two pipelines and the plan they share: layout, bindings and storage.

use crate::binding::{
    binding_for, layout_entries, layout_spec, Binding, BindingSet, LayoutEntry,
};
use crate::compute::{workgroups, workgroups_spec};
use crate::grid::{cell_total, BufferId, GridState};
use crate::life::{generation, lemma_index_cell, next_generation, ALIVE};
use vstd::prelude::*;

verus! {

/// The vertices of the quad that every instance shares: two triangles.
pub const QUAD_VERTICES: u32 = 6;

/// Either of the two pipelines.
pub enum Pipeline {
    Render(RenderPipeline),
    Compute(ComputePipeline),
}

/// What the pipelines are laid out over: the binding layout, the two
/// bindings, and the storage that the bindings refer to.
pub struct PipelineLayout {
    pub entries: Vec<LayoutEntry>,
    pub binding_groups: BindingSet,
    pub storage: GridState,
}

impl PipelineLayout {
    /// The layout is the fixed one, and bindings and storage belong to one
    /// grid.
    pub open spec fn wf(&self) -> bool {
        &&& self.entries@ == layout_spec()
        &&& self.storage.wf()
        &&& self.binding_groups.wf()
        &&& self.binding_groups.grid_size() == self.storage.size()
    }
}

impl Pipeline {
    /// Lays the pipelines out over a given storage.
    pub fn layout_over(storage: GridState) -> (layout: PipelineLayout)
        requires
            storage.wf(),
        ensures
            layout.wf(),
            layout.storage == storage,
            layout.binding_groups.is_for(storage.size() as u16),
    {
        let entries = layout_entries();
        let binding_groups = BindingSet::build(storage.grid_size());
        PipelineLayout { entries, binding_groups, storage }
    }

    /// Lays the pipelines out for a grid of side `grid_size`, over storage
    /// that is seeded at random.
    pub fn layout(grid_size: u16) -> (layout: PipelineLayout)
        requires
            grid_size >= 1,
        ensures
            layout.wf(),
            layout.storage.size() == grid_size,
            layout.binding_groups.is_for(grid_size),
            layout.storage.cells(BufferId::B) == layout.storage.cells(BufferId::A),
    {
        Pipeline::layout_over(GridState::initialize(grid_size))
    }
}

/// The compute pipeline: one generation per dispatch.
pub struct ComputePipeline {
    pub entries: Vec<LayoutEntry>,
    pub grid_size: u16,
    pub workgroups: u32,
}

impl ComputePipeline {
    /// The pipeline follows the fixed layout and dispatches the tiles that
    /// cover its grid.
    pub open spec fn wf(&self) -> bool {
        &&& self.grid_size >= 1
        &&& self.entries@ == layout_spec()
        &&& self.workgroups == workgroups_spec(self.grid_size as int)
    }

    /// Builds the compute pipeline for a grid of side `grid_size`.
    pub fn new(grid_size: u16) -> (pipeline: ComputePipeline)
        requires
            grid_size >= 1,
        ensures
            pipeline.wf(),
            pipeline.grid_size == grid_size,
    {
        ComputePipeline { entries: layout_entries(), grid_size, workgroups: workgroups(grid_size) }
    }

    /// Runs one generation step under `binding`.
    ///
    /// The buffer that the binding writes receives the generation that
    /// follows the buffer it reads. The buffer it reads and the side of the
    /// grid stay as they were.
    pub fn step(&self, binding: Binding, state: &mut GridState)
        requires
            self.wf(),
            binding.wf(),
            old(state).wf(),
            binding.grid_size == self.grid_size,
            old(state).size() == self.grid_size,
        ensures
            final(state).wf(),
            final(state).size() == old(state).size(),
            final(state).cells(binding.read) == old(state).cells(binding.read),
            final(state).cells(binding.write) == next_generation(
                old(state).cells(binding.read),
                old(state).size(),
            ),
    {
        state.write_next(binding.read);
    }

    /// Runs `frames` generation steps in a row, the first under the binding
    /// for parity false, each later one under the binding that the flipped
    /// parity selects. Returns the parity after the last step.
    ///
    /// The binding that the returned parity selects reads the buffer that
    /// holds generation `frames` of what buffer A held at the start.
    pub fn run(&self, bindings: &BindingSet, state: &mut GridState, frames: u32) -> (parity: bool)
        requires
            self.wf(),
            bindings.is_for(self.grid_size),
            old(state).wf(),
            old(state).size() == self.grid_size,
        ensures
            final(state).wf(),
            final(state).size() == old(state).size(),
            parity == parity_after(frames as nat),
            final(state).cells(BufferId::A) == cells_after(
                old(state).cells(BufferId::A),
                old(state).cells(BufferId::B),
                self.grid_size,
                frames as nat,
                BufferId::A,
            ),
            final(state).cells(BufferId::B) == cells_after(
                old(state).cells(BufferId::A),
                old(state).cells(BufferId::B),
                self.grid_size,
                frames as nat,
                BufferId::B,
            ),
            final(state).cells(bindings.select(parity).read) == generation(
                old(state).cells(BufferId::A),
                self.grid_size as int,
                frames as nat,
            ),
    {
        let ghost a = state.cells(BufferId::A);
        let ghost b = state.cells(BufferId::B);
        let mut parity: bool = false;
        let mut done: u32 = 0;
        while done < frames
            invariant
                self.wf(),
                bindings.is_for(self.grid_size),
                state.wf(),
                state.size() == self.grid_size,
                done <= frames,
                parity == parity_after(done as nat),
                state.cells(BufferId::A) == cells_after(a, b, self.grid_size, done as nat, BufferId::A),
                state.cells(BufferId::B) == cells_after(a, b, self.grid_size, done as nat, BufferId::B),
            decreases frames - done,
        {
            self.step(bindings.select(parity), state);
            parity = !parity;
            done = done + 1;
        }
        proof {
            lemma_read_buffer_is_current(a, b, self.grid_size, frames as nat);
        }
        parity
    }
}

/// One quad that a draw puts on the screen: the cell that it shows.
#[derive(Clone, Copy, Debug, PartialEq, Eq, Structural)]
pub struct Instance {
    pub x: u16,
    pub y: u16,
}

/// The quad of the instance with index `i` on a grid of side `n`: instances
/// follow the cells row by row.
pub open spec fn instance_at(n: int, i: int) -> Instance {
    Instance { x: (i % n) as u16, y: (i / n) as u16 }
}

/// The quads that the first `count` instances put on the screen, in the order
/// of the instances. An instance over a live cell shows its quad; one over a
/// dead cell shows nothing.
pub open spec fn drawn(cells: Seq<u32>, n: int, count: int) -> Seq<Instance>
    decreases count,
{
    if count <= 0 {
        Seq::empty()
    } else if cells[count - 1] == ALIVE {
        drawn(cells, n, count - 1).push(instance_at(n, count - 1))
    } else {
        drawn(cells, n, count - 1)
    }
}

/// Where a column or row of cells lies on the screen, which spans from -1 to
/// 1 along each axis: cell `c` covers the interval from `(2 c - n) / n` to
/// `(2 c + 2 - n) / n`, a share of `2 / n` of the whole. The pair holds the
/// two numerators.
pub fn span(n: u16, c: u16) -> (ends: (i32, i32))
    requires
        c < n,
    ensures
        ends.0 == 2 * c - n,
        ends.1 == 2 * c + 2 - n,
        -(n as int) <= ends.0 < ends.1 <= n,
{
    let low: i32 = 2 * (c as i32) - (n as i32);
    (low, low + 2)
}

/// The render pipeline: one instanced draw of the whole grid.
pub struct RenderPipeline {
    pub entries: Vec<LayoutEntry>,
    pub binding_groups: BindingSet,
    pub storage: GridState,
    pub vertices: u32,
    pub instances: u32,
}

impl RenderPipeline {
    /// The pipeline follows the fixed layout, its bindings and storage belong
    /// to one grid, and a draw has one instance for each cell.
    pub open spec fn wf(&self) -> bool {
        &&& self.entries@ == layout_spec()
        &&& self.storage.wf()
        &&& self.binding_groups.wf()
        &&& self.binding_groups.grid_size() == self.storage.size()
        &&& self.vertices == QUAD_VERTICES
        &&& self.instances == self.storage.size() * self.storage.size()
    }

    /// Builds the render pipeline over a given layout.
    pub fn over(layout: PipelineLayout) -> (pipeline: RenderPipeline)
        requires
            layout.wf(),
        ensures
            pipeline.wf(),
            pipeline.storage == layout.storage,
            pipeline.binding_groups == layout.binding_groups,
    {
        let n: u16 = layout.storage.grid_size();
        assert(n * n <= 65535 * 65535) by (nonlinear_arith)
            requires
                n <= 65535,
        ;
        RenderPipeline {
            entries: layout.entries,
            binding_groups: layout.binding_groups,
            storage: layout.storage,
            vertices: QUAD_VERTICES,
            instances: (n as u32) * (n as u32),
        }
    }

    /// Builds the render pipeline for a grid of side `grid_size`, over
    /// storage that is seeded at random.
    pub fn new(grid_size: u16) -> (pipeline: RenderPipeline)
        requires
            grid_size >= 1,
        ensures
            pipeline.wf(),
            pipeline.storage.size() == grid_size,
            pipeline.binding_groups.is_for(grid_size),
            pipeline.storage.cells(BufferId::B) == pipeline.storage.cells(BufferId::A),
    {
        RenderPipeline::over(Pipeline::layout(grid_size))
    }

    /// Draws the grid under `binding`: one instance for each cell of the
    /// buffer that the binding reads, and a quad for each live one.
    pub fn draw(binding: Binding, state: &GridState) -> (quads: Vec<Instance>)
        requires
            state.wf(),
            binding.grid_size == state.size(),
        ensures
            quads@ == drawn(
                state.cells(binding.read),
                state.size(),
                state.size() * state.size(),
            ),
    {
        let n: u16 = state.grid_size();
        let cells = state.buffer(binding.read);
        let total: usize = cell_total(n);
        let mut quads: Vec<Instance> = Vec::new();
        let mut i: usize = 0;
        while i < total
            invariant
                n >= 1,
                i <= total,
                total == n * n,
                cells.len() == total,
                quads@ == drawn(cells@, n as int, i as int),
            decreases total - i,
        {
            proof {
                lemma_index_cell(n as int, i as int);
            }
            if cells[i] == ALIVE {
                let x: u16 = (i % (n as usize)) as u16;
                let y: u16 = (i / (n as usize)) as u16;
                quads.push(Instance { x, y });
            }
            i = i + 1;
        }
        quads
    }
}

/// The parity after `frames` whole frames when the first frame ran at
/// parity false.
pub open spec fn parity_after(frames: nat) -> bool {
    frames % 2 == 1
}

/// What buffer `id` holds after `frames` whole frames, where the buffers
/// started as `a` and `b`, the parity started false, and each frame ran one
/// generation step under the binding that the parity selected.
pub open spec fn cells_after(a: Seq<u32>, b: Seq<u32>, n: u16, frames: nat, id: BufferId) -> Seq<
    u32,
>
    decreases frames,
{
    if frames == 0 {
        match id {
            BufferId::A => a,
            BufferId::B => b,
        }
    } else {
        let before = (frames - 1) as nat;
        let binding = binding_for(n, parity_after(before));
        if id == binding.write {
            next_generation(cells_after(a, b, n, before, binding.read), n as int)
        } else {
            cells_after(a, b, n, before, id)
        }
    }
}

/// The parity invariant. After `frames` whole frames, the binding that the
/// parity selects reads the buffer that holds generation `frames` of the
/// seed in buffer A; and from the first frame on, that buffer is the one that
/// the last frame's compute pass wrote.
pub proof fn lemma_read_buffer_is_current(a: Seq<u32>, b: Seq<u32>, n: u16, frames: nat)
    ensures
        cells_after(a, b, n, frames, binding_for(n, parity_after(frames)).read) == generation(
            a,
            n as int,
            frames,
        ),
        frames >= 1 ==> binding_for(n, parity_after(frames)).read == binding_for(
            n,
            parity_after((frames - 1) as nat),
        ).write,
    decreases frames,
{
    if frames > 0 {
        lemma_read_buffer_is_current(a, b, n, (frames - 1) as nat);
    }
}

} // verus!
