//! The resource bindings: what a program may see, and the two mirrored
//! bindings that the parity bit selects between.

use crate::grid::BufferId;
use vstd::prelude::*;

verus! {

/// The slot of the uniform that carries the side of the grid.
pub const SLOT_GRID_SIZE: u32 = 0;

/// The slot of the buffer that programs read.
pub const SLOT_READ: u32 = 1;

/// The slot of the buffer that the compute program writes.
pub const SLOT_WRITE: u32 = 2;

/// The stages of the pipeline that a slot is visible to.
#[derive(Clone, Copy, Debug, PartialEq, Eq, Structural)]
pub struct Stages {
    pub vertex: bool,
    pub fragment: bool,
    pub compute: bool,
}

/// How a program may use the buffer behind a slot.
#[derive(Clone, Copy, Debug, PartialEq, Eq, Structural)]
pub enum BufferKind {
    Uniform,
    Storage { read_only: bool },
}

/// One line of the binding layout: a slot, who sees it, and how.
#[derive(Clone, Copy, Debug, PartialEq, Eq, Structural)]
pub struct LayoutEntry {
    pub binding: u32,
    pub visibility: Stages,
    pub kind: BufferKind,
}

/// The layout that both bindings follow.
///
/// The side of the grid is a uniform for every stage. The read buffer is
/// read-only storage for the vertex and compute stages. The write buffer is
/// writable storage, and only the compute stage sees it.
pub open spec fn layout_spec() -> Seq<LayoutEntry> {
    seq![
        LayoutEntry {
            binding: SLOT_GRID_SIZE,
            visibility: Stages { vertex: true, fragment: true, compute: true },
            kind: BufferKind::Uniform,
        },
        LayoutEntry {
            binding: SLOT_READ,
            visibility: Stages { vertex: true, fragment: false, compute: true },
            kind: BufferKind::Storage { read_only: true },
        },
        LayoutEntry {
            binding: SLOT_WRITE,
            visibility: Stages { vertex: false, fragment: false, compute: true },
            kind: BufferKind::Storage { read_only: false },
        },
    ]
}

/// Builds the layout that both bindings follow.
pub fn layout_entries() -> (entries: Vec<LayoutEntry>)
    ensures
        entries@ == layout_spec(),
{
    let mut entries: Vec<LayoutEntry> = Vec::new();
    entries.push(
        LayoutEntry {
            binding: SLOT_GRID_SIZE,
            visibility: Stages { vertex: true, fragment: true, compute: true },
            kind: BufferKind::Uniform,
        },
    );
    entries.push(
        LayoutEntry {
            binding: SLOT_READ,
            visibility: Stages { vertex: true, fragment: false, compute: true },
            kind: BufferKind::Storage { read_only: true },
        },
    );
    entries.push(
        LayoutEntry {
            binding: SLOT_WRITE,
            visibility: Stages { vertex: false, fragment: false, compute: true },
            kind: BufferKind::Storage { read_only: false },
        },
    );
    assert(entries@ =~= layout_spec());
    entries
}

/// What stands behind a slot of a binding.
#[derive(Clone, Copy, Debug, PartialEq, Eq, Structural)]
pub enum Resource {
    /// The uniform with the side of the grid.
    GridSize(u16),
    /// One of the two cell buffers, whole.
    Cells(BufferId),
}

/// One resource bound to one slot.
#[derive(Clone, Copy, Debug, PartialEq, Eq, Structural)]
pub struct GroupEntry {
    pub binding: u32,
    pub resource: Resource,
}

/// One binding: the side of the grid, the buffer to read and the buffer to
/// write.
#[derive(Clone, Copy, Debug, PartialEq, Eq, Structural)]
pub struct Binding {
    pub grid_size: u16,
    pub read: BufferId,
    pub write: BufferId,
}

impl Binding {
    /// A binding never reads the buffer that it writes.
    pub open spec fn wf(self) -> bool {
        self.write == self.read.other()
    }

    /// The resources behind the three slots.
    pub open spec fn entries_spec(self) -> Seq<GroupEntry> {
        seq![
            GroupEntry { binding: SLOT_GRID_SIZE, resource: Resource::GridSize(self.grid_size) },
            GroupEntry { binding: SLOT_READ, resource: Resource::Cells(self.read) },
            GroupEntry { binding: SLOT_WRITE, resource: Resource::Cells(self.write) },
        ]
    }

    /// The resources behind the three slots, in the order of the layout.
    pub fn entries(&self) -> (entries: Vec<GroupEntry>)
        ensures
            entries@ == self.entries_spec(),
    {
        let mut entries: Vec<GroupEntry> = Vec::new();
        entries.push(
            GroupEntry { binding: SLOT_GRID_SIZE, resource: Resource::GridSize(self.grid_size) },
        );
        entries.push(GroupEntry { binding: SLOT_READ, resource: Resource::Cells(self.read) });
        entries.push(GroupEntry { binding: SLOT_WRITE, resource: Resource::Cells(self.write) });
        assert(entries@ =~= self.entries_spec());
        entries
    }
}

/// The binding for a parity: false reads A and writes B, true reads B and
/// writes A.
pub open spec fn binding_for(grid_size: u16, parity: bool) -> Binding {
    if parity {
        Binding { grid_size, read: BufferId::B, write: BufferId::A }
    } else {
        Binding { grid_size, read: BufferId::A, write: BufferId::B }
    }
}

/// The pair of bindings, made once and never changed: the parity bit selects
/// one of them, and nothing is ever rebound.
#[derive(Clone, Copy, Debug, PartialEq, Eq, Structural)]
pub struct BindingSet {
    even: Binding,
    odd: Binding,
}

impl BindingSet {
    /// The binding that a parity selects.
    pub closed spec fn select_spec(&self, parity: bool) -> Binding {
        if parity {
            self.odd
        } else {
            self.even
        }
    }

    /// The side of the grid that the set was built for.
    pub closed spec fn grid_size(&self) -> u16 {
        self.even.grid_size
    }

    /// The set holds the two bindings for a grid of side `grid_size`.
    pub open spec fn is_for(&self, grid_size: u16) -> bool {
        &&& self.select_spec(false) == binding_for(grid_size, false)
        &&& self.select_spec(true) == binding_for(grid_size, true)
    }

    /// The set holds the two bindings for one grid.
    pub open spec fn wf(&self) -> bool {
        self.is_for(self.grid_size())
    }

    /// Builds both bindings for a grid of side `grid_size`.
    pub fn build(grid_size: u16) -> (set: BindingSet)
        ensures
            set.is_for(grid_size),
            set.grid_size() == grid_size,
            set.wf(),
    {
        BindingSet {
            even: Binding { grid_size, read: BufferId::A, write: BufferId::B },
            odd: Binding { grid_size, read: BufferId::B, write: BufferId::A },
        }
    }

    /// The binding that a parity selects.
    #[verifier::when_used_as_spec(select_spec)]
    pub fn select(&self, parity: bool) -> (binding: Binding)
        ensures
            binding == self.select_spec(parity),
    {
        if parity {
            self.odd
        } else {
            self.even
        }
    }
}

/// The two bindings of a set mirror each other: each reads what the other
/// writes, neither reads what it writes itself, and both carry the same side.
pub proof fn lemma_bindings_mirror(set: BindingSet, parity: bool)
    requires
        set.wf(),
    ensures
        set.select(parity).wf(),
        set.select(parity).read == set.select(!parity).write,
        set.select(parity).write == set.select(!parity).read,
        set.select(parity).grid_size == set.select(!parity).grid_size,
{
}

} // verus!
