use golrs::binding::{
    layout_entries, Binding, BindingSet, BufferKind, GroupEntry, LayoutEntry, Resource, Stages,
    SLOT_GRID_SIZE, SLOT_READ, SLOT_WRITE,
};
use golrs::grid::{cell_total, BufferId, GridState};
use golrs::pipeline::{
    span, ComputePipeline, Instance, Pipeline, RenderPipeline, QUAD_VERTICES,
};

fn draws(n: usize, live: &[(usize, usize)]) -> Vec<bool> {
    let mut cells = vec![false; n * n];
    for &(x, y) in live {
        cells[y * n + x] = true;
    }
    cells
}

fn cells(n: usize, live: &[(usize, usize)]) -> Vec<u32> {
    draws(n, live).iter().map(|&d| if d { 1 } else { 0 }).collect()
}

fn reference_step(n: usize, cells: &Vec<u32>) -> Vec<u32> {
    let side = n as i64;
    let mut next = vec![0; n * n];
    for y in 0..side {
        for x in 0..side {
            let mut count = 0;
            for dy in -1..=1 {
                for dx in -1..=1 {
                    let (nx, ny) = (x + dx, y + dy);
                    let inside = nx >= 0 && ny >= 0 && nx < side && ny < side;
                    if (dx != 0 || dy != 0) && inside && cells[(ny * side + nx) as usize] == 1 {
                        count += 1;
                    }
                }
            }
            let alive = cells[(y * side + x) as usize] == 1;
            if count == 3 || (alive && count == 2) {
                next[(y * side + x) as usize] = 1;
            }
        }
    }
    next
}

#[test]
fn buffer_ids_are_each_other() {
    assert_eq!(BufferId::A.other(), BufferId::B);
    assert_eq!(BufferId::B.other(), BufferId::A);
}

#[test]
fn cell_totals() {
    assert_eq!(cell_total(0), 0);
    assert_eq!(cell_total(1), 1);
    assert_eq!(cell_total(128), 16384);
    assert_eq!(cell_total(65535), 4294836225);
}

#[test]
fn draws_seed_both_buffers() {
    let state = GridState::from_draws(3, &draws(3, &[(0, 0), (2, 1), (1, 2)]));
    assert_eq!(state.grid_size(), 3);
    assert_eq!(state.buffer(BufferId::A), &vec![1, 0, 0, 0, 0, 1, 0, 1, 0]);
    assert_eq!(state.buffer(BufferId::B), &vec![1, 0, 0, 0, 0, 1, 0, 1, 0]);
}

#[test]
fn random_seed_fills_the_grid() {
    let state = GridState::initialize(64);
    assert_eq!(state.grid_size(), 64);
    let a = state.buffer(BufferId::A);
    assert_eq!(a.len(), 4096);
    assert!(a.iter().all(|&c| c == 0 || c == 1));
    assert!(a.iter().any(|&c| c == 0));
    assert!(a.iter().any(|&c| c == 1));
    assert_eq!(state.buffer(BufferId::B), a);
}

#[test]
fn random_seed_of_one_cell() {
    let state = GridState::initialize(1);
    assert_eq!(state.buffer(BufferId::A).len(), 1);
    assert!(state.buffer(BufferId::A)[0] <= 1);
}

#[test]
fn storage_is_four_bytes_a_cell() {
    let state = GridState::from_draws(3, &draws(3, &[(1, 0), (2, 2)]));
    let bytes = state.storage_contents(BufferId::A);
    assert_eq!(bytes.len(), 36);
    let mut decoded = Vec::new();
    for word in bytes.chunks(4) {
        decoded.push(u32::from_ne_bytes([word[0], word[1], word[2], word[3]]));
    }
    assert_eq!(&decoded, state.buffer(BufferId::A));
    assert_eq!(state.storage_contents(BufferId::B), bytes);
}

#[test]
fn storage_is_in_one_byte_order() {
    let state = GridState::from_draws(2, &vec![true, false, true, true]);
    let bytes = state.storage_contents(BufferId::A);
    let little: Vec<u8> = vec![1, 0, 0, 0, 0, 0, 0, 0, 1, 0, 0, 0, 1, 0, 0, 0];
    let big: Vec<u8> = vec![0, 0, 0, 1, 0, 0, 0, 0, 0, 0, 0, 1, 0, 0, 0, 1];
    assert!(bytes == little || bytes == big);
}

#[test]
fn storage_of_a_dead_grid_is_zero() {
    let state = GridState::from_draws(3, &vec![false; 9]);
    assert_eq!(state.storage_contents(BufferId::A), vec![0u8; 36]);
}

#[test]
fn layout_has_three_slots() {
    let entries = layout_entries();
    assert_eq!(
        entries,
        vec![
            LayoutEntry {
                binding: 0,
                visibility: Stages { vertex: true, fragment: true, compute: true },
                kind: BufferKind::Uniform,
            },
            LayoutEntry {
                binding: 1,
                visibility: Stages { vertex: true, fragment: false, compute: true },
                kind: BufferKind::Storage { read_only: true },
            },
            LayoutEntry {
                binding: 2,
                visibility: Stages { vertex: false, fragment: false, compute: true },
                kind: BufferKind::Storage { read_only: false },
            },
        ]
    );
    assert_eq!((SLOT_GRID_SIZE, SLOT_READ, SLOT_WRITE), (0, 1, 2));
}

#[test]
fn bindings_mirror_each_other() {
    let set = BindingSet::build(128);
    let even = set.select(false);
    let odd = set.select(true);
    assert_eq!(even, Binding { grid_size: 128, read: BufferId::A, write: BufferId::B });
    assert_eq!(odd, Binding { grid_size: 128, read: BufferId::B, write: BufferId::A });
    assert_eq!(even.read, odd.write);
    assert_eq!(even.write, odd.read);
}

#[test]
fn binding_entries_follow_the_layout() {
    let odd = BindingSet::build(9).select(true);
    assert_eq!(
        odd.entries(),
        vec![
            GroupEntry { binding: 0, resource: Resource::GridSize(9) },
            GroupEntry { binding: 1, resource: Resource::Cells(BufferId::B) },
            GroupEntry { binding: 2, resource: Resource::Cells(BufferId::A) },
        ]
    );
}

#[test]
fn layout_over_keeps_the_storage() {
    let layout = Pipeline::layout_over(GridState::from_draws(2, &draws(2, &[(1, 1)])));
    assert_eq!(layout.entries, layout_entries());
    assert_eq!(layout.binding_groups, BindingSet::build(2));
    assert_eq!(layout.storage.buffer(BufferId::A), &vec![0, 0, 0, 1]);
}

#[test]
fn random_layout_is_for_its_grid() {
    let layout = Pipeline::layout(5);
    assert_eq!(layout.storage.grid_size(), 5);
    assert_eq!(layout.binding_groups, BindingSet::build(5));
    assert_eq!(layout.storage.buffer(BufferId::A), layout.storage.buffer(BufferId::B));
}

#[test]
fn compute_pipeline_counts_its_tiles() {
    let pipeline = ComputePipeline::new(128);
    assert_eq!(pipeline.grid_size, 128);
    assert_eq!(pipeline.workgroups, 16);
    assert_eq!(pipeline.entries, layout_entries());
    assert_eq!(ComputePipeline::new(130).workgroups, 17);
}

#[test]
fn step_writes_the_other_buffer() {
    let compute = ComputePipeline::new(5);
    let set = BindingSet::build(5);
    let flat = cells(5, &[(1, 2), (2, 2), (3, 2)]);
    let upright = cells(5, &[(2, 1), (2, 2), (2, 3)]);
    let mut state = GridState::from_draws(5, &draws(5, &[(1, 2), (2, 2), (3, 2)]));
    compute.step(set.select(false), &mut state);
    assert_eq!(state.buffer(BufferId::A), &flat);
    assert_eq!(state.buffer(BufferId::B), &upright);
    compute.step(set.select(true), &mut state);
    assert_eq!(state.buffer(BufferId::B), &upright);
    assert_eq!(state.buffer(BufferId::A), &flat);
    assert_eq!(state.grid_size(), 5);
}

#[test]
fn step_under_the_odd_binding_reads_b() {
    let compute = ComputePipeline::new(3);
    let set = BindingSet::build(3);
    let mut state = GridState::from_draws(3, &draws(3, &[(0, 0), (1, 0), (2, 0)]));
    compute.step(set.select(true), &mut state);
    assert_eq!(state.buffer(BufferId::A), &cells(3, &[(1, 0), (1, 1)]));
    assert_eq!(state.buffer(BufferId::B), &cells(3, &[(0, 0), (1, 0), (2, 0)]));
}

#[test]
fn read_buffer_holds_the_latest_generation() {
    let n = 9usize;
    let seed = draws(n, &[(2, 1), (3, 2), (1, 3), (2, 3), (3, 3), (7, 7), (8, 7), (7, 8)]);
    let compute = ComputePipeline::new(n as u16);
    let set = BindingSet::build(n as u16);
    let mut expected = cells(n, &[(2, 1), (3, 2), (1, 3), (2, 3), (3, 3), (7, 7), (8, 7), (7, 8)]);
    for frames in 0..7u32 {
        let mut state = GridState::from_draws(n as u16, &seed);
        let parity = compute.run(&set, &mut state, frames);
        assert_eq!(parity, frames % 2 == 1);
        let selected = set.select(parity);
        assert_eq!(state.buffer(selected.read), &expected);
        if frames >= 1 {
            let last = set.select(!parity);
            assert_eq!(selected.read, last.write);
        }
        expected = reference_step(n, &expected);
    }
}

#[test]
fn run_of_no_frames_changes_nothing() {
    let compute = ComputePipeline::new(2);
    let set = BindingSet::build(2);
    let mut state = GridState::from_draws(2, &draws(2, &[(0, 1)]));
    assert_eq!(compute.run(&set, &mut state, 0), false);
    assert_eq!(state.buffer(BufferId::A), &vec![0, 0, 1, 0]);
    assert_eq!(state.buffer(BufferId::B), &vec![0, 0, 1, 0]);
}

#[test]
fn single_cell_grid_is_dead_after_every_run() {
    let compute = ComputePipeline::new(1);
    let set = BindingSet::build(1);
    for frames in 1..5u32 {
        let mut state = GridState::from_draws(1, &vec![true]);
        let parity = compute.run(&set, &mut state, frames);
        assert_eq!(state.buffer(set.select(parity).read), &vec![0]);
    }
}

#[test]
fn draw_shows_the_live_cells_of_the_read_buffer() {
    let compute = ComputePipeline::new(3);
    let set = BindingSet::build(3);
    let mut state = GridState::from_draws(3, &draws(3, &[(0, 0), (1, 0), (2, 0)]));
    let seeded = vec![Instance { x: 0, y: 0 }, Instance { x: 1, y: 0 }, Instance { x: 2, y: 0 }];
    assert_eq!(RenderPipeline::draw(set.select(false), &state), seeded);
    compute.step(set.select(false), &mut state);
    assert_eq!(RenderPipeline::draw(set.select(false), &state), seeded);
    assert_eq!(
        RenderPipeline::draw(set.select(true), &state),
        vec![Instance { x: 1, y: 0 }, Instance { x: 1, y: 1 }]
    );
}

#[test]
fn draw_of_a_dead_grid_shows_nothing() {
    let state = GridState::from_draws(4, &vec![false; 16]);
    assert_eq!(RenderPipeline::draw(BindingSet::build(4).select(false), &state), vec![]);
}

#[test]
fn render_pipeline_has_an_instance_for_each_cell() {
    let pipeline = RenderPipeline::over(Pipeline::layout_over(GridState::from_draws(
        300,
        &vec![false; 90000],
    )));
    assert_eq!(pipeline.instances, 90000);
    assert_eq!(pipeline.vertices, 6);
    assert_eq!(QUAD_VERTICES, 6);
    assert_eq!(pipeline.binding_groups, BindingSet::build(300));
    assert_eq!(pipeline.entries, layout_entries());
}

#[test]
fn random_render_pipeline() {
    let pipeline = RenderPipeline::new(16);
    assert_eq!(pipeline.instances, 256);
    assert_eq!(pipeline.storage.grid_size(), 16);
    assert_eq!(pipeline.binding_groups, BindingSet::build(16));
}

#[test]
fn spans_divide_the_screen() {
    assert_eq!(span(4, 0), (-4, -2));
    assert_eq!(span(4, 1), (-2, 0));
    assert_eq!(span(4, 3), (2, 4));
    assert_eq!(span(1, 0), (-1, 1));
    assert_eq!(span(65535, 65534), (65533, 65535));
}
