use golrs::app::{
    App, FrameAction, FrameEvent, FrameState, Size, Surface, SurfaceConfiguration, SurfaceError,
    DEFAULT_GRID_SIZE,
};
use golrs::binding::BindingSet;
use golrs::grid::{BufferId, GridState};
use golrs::pipeline::{Pipeline, RenderPipeline};
use golrs::ui::{handle, Command, WindowEvent, FRAME_DELAY_MS};

fn size(width: u32, height: u32) -> Size {
    Size { width, height }
}

fn app(n: u16) -> App {
    let draws = vec![false; n as usize * n as usize];
    App::over(size(800, 600), RenderPipeline::over(Pipeline::layout_over(GridState::from_draws(n, &draws))))
}

fn surface(app: &App) -> Surface {
    app.surface
}

#[test]
fn new_app_is_idle_at_parity_false() {
    let app = App::new(size(640, 480), 32);
    assert_eq!(app.grid_size, 32);
    assert_eq!(app.flip, false);
    assert_eq!(app.frame, FrameState::Idle);
    assert_eq!(app.surface.surface_size, size(640, 480));
    assert_eq!(app.surface.surface_config, SurfaceConfiguration { width: 640, height: 480 });
    assert_eq!(app.compute_pipeline.workgroups, 4);
    assert_eq!(app.render_pipeline.instances, 1024);
    assert_eq!(app.render_pipeline.binding_groups, BindingSet::build(32));
    assert_eq!(app.render_pipeline.storage.buffer(BufferId::A).len(), 1024);
}

#[test]
fn default_grid_size() {
    assert_eq!(DEFAULT_GRID_SIZE, 128);
    assert_eq!(FRAME_DELAY_MS, 50);
}

#[test]
fn frame_issues_compute_then_render_then_submit_then_present() {
    let mut app = app(20);
    let even = BindingSet::build(20).select(false);
    assert_eq!(
        app.render(FrameEvent::Acquired),
        FrameAction::Dispatch { binding: even, workgroups: 3 }
    );
    assert_eq!((app.frame, app.flip), (FrameState::ComputeIssued, false));
    assert_eq!(
        app.render(FrameEvent::Done),
        FrameAction::Draw { binding: even, vertices: 6, instances: 400 }
    );
    assert_eq!((app.frame, app.flip), (FrameState::RenderIssued, false));
    assert_eq!(app.render(FrameEvent::Done), FrameAction::Submit);
    assert_eq!((app.frame, app.flip), (FrameState::Submitted, false));
    assert_eq!(app.render(FrameEvent::Done), FrameAction::Present);
    assert_eq!((app.frame, app.flip), (FrameState::Presented, false));
    assert_eq!(app.render(FrameEvent::Done), FrameAction::Wait);
    assert_eq!((app.frame, app.flip), (FrameState::Idle, true));
}

#[test]
fn second_frame_uses_the_mirrored_binding() {
    let mut app = app(8);
    app.render(FrameEvent::Acquired);
    for _ in 0..4 {
        app.render(FrameEvent::Done);
    }
    let odd = BindingSet::build(8).select(true);
    assert_eq!(
        app.render(FrameEvent::Acquired),
        FrameAction::Dispatch { binding: odd, workgroups: 1 }
    );
    assert_eq!(
        app.render(FrameEvent::Done),
        FrameAction::Draw { binding: odd, vertices: 6, instances: 64 }
    );
    app.render(FrameEvent::Done);
    app.render(FrameEvent::Done);
    app.render(FrameEvent::Done);
    assert_eq!((app.frame, app.flip), (FrameState::Idle, false));
}

#[test]
fn parity_follows_the_number_of_frames() {
    let mut app = app(4);
    for frames in 0..6u32 {
        assert_eq!(app.flip, frames % 2 == 1);
        assert_eq!(app.render(FrameEvent::Acquired) == FrameAction::Wait, false);
        for _ in 0..4 {
            app.render(FrameEvent::Done);
        }
        assert_eq!(app.frame, FrameState::Idle);
    }
}

#[test]
fn lost_target_is_configured_again_at_the_last_size() {
    let mut app = app(4);
    handle(&mut app, WindowEvent::Resized(size(1024, 768)));
    assert_eq!(
        app.render(FrameEvent::Failed(SurfaceError::Lost)),
        FrameAction::Reconfigure(size(1024, 768))
    );
    assert_eq!((app.frame, app.flip), (FrameState::Idle, false));
    assert_eq!(app.recover(SurfaceError::Lost), FrameAction::Reconfigure(size(1024, 768)));
}

#[test]
fn lost_target_without_area_waits() {
    let draws = vec![false; 4];
    let state = GridState::from_draws(2, &draws);
    let mut app = App::over(size(0, 600), RenderPipeline::over(Pipeline::layout_over(state)));
    assert_eq!(app.render(FrameEvent::Failed(SurfaceError::Lost)), FrameAction::Wait);
    assert_eq!((app.frame, app.flip), (FrameState::Idle, false));
}

#[test]
fn exhausted_memory_ends_the_run() {
    let mut app = app(4);
    assert_eq!(app.render(FrameEvent::Failed(SurfaceError::OutOfMemory)), FrameAction::Exit);
    assert_eq!((app.frame, app.flip), (FrameState::Idle, false));
}

#[test]
fn other_errors_skip_the_frame() {
    let mut app = app(4);
    assert_eq!(
        app.render(FrameEvent::Failed(SurfaceError::Timeout)),
        FrameAction::Skip(SurfaceError::Timeout)
    );
    assert_eq!(
        app.render(FrameEvent::Failed(SurfaceError::Outdated)),
        FrameAction::Skip(SurfaceError::Outdated)
    );
    assert_eq!((app.frame, app.flip), (FrameState::Idle, false));
    let even = BindingSet::build(4).select(false);
    assert_eq!(
        app.render(FrameEvent::Acquired),
        FrameAction::Dispatch { binding: even, workgroups: 1 }
    );
}

#[test]
fn failure_after_a_frame_keeps_the_flipped_parity() {
    let mut app = app(4);
    app.render(FrameEvent::Acquired);
    for _ in 0..4 {
        app.render(FrameEvent::Done);
    }
    app.render(FrameEvent::Failed(SurfaceError::Timeout));
    assert_eq!((app.frame, app.flip), (FrameState::Idle, true));
}

#[test]
fn frame_in_flight_is_not_started_again() {
    let mut app = app(4);
    app.render(FrameEvent::Acquired);
    assert_eq!(app.render(FrameEvent::Acquired), FrameAction::Wait);
    assert_eq!(app.render(FrameEvent::Failed(SurfaceError::OutOfMemory)), FrameAction::Wait);
    assert_eq!((app.frame, app.flip), (FrameState::ComputeIssued, false));
}

#[test]
fn done_without_a_frame_is_passed_over() {
    let mut app = app(4);
    assert_eq!(app.render(FrameEvent::Done), FrameAction::Wait);
    assert_eq!((app.frame, app.flip), (FrameState::Idle, false));
}

#[test]
fn frames_leave_the_seed_alone() {
    let draws = vec![true, false, false, true];
    let state = GridState::from_draws(2, &draws);
    let mut app = App::over(size(10, 10), RenderPipeline::over(Pipeline::layout_over(state)));
    app.render(FrameEvent::Acquired);
    for _ in 0..4 {
        app.render(FrameEvent::Done);
    }
    assert_eq!(app.render_pipeline.storage.buffer(BufferId::A), &vec![1, 0, 0, 1]);
    assert_eq!(app.render_pipeline.storage.buffer(BufferId::B), &vec![1, 0, 0, 1]);
    assert_eq!(surface(&app).surface_size, size(10, 10));
}

#[test]
fn resize_takes_a_size_with_an_area() {
    let mut app = app(4);
    assert_eq!(app.resize(size(1280, 720)), true);
    assert_eq!(app.surface.surface_size, size(1280, 720));
    assert_eq!(app.surface.surface_config, SurfaceConfiguration { width: 1280, height: 720 });
}

#[test]
fn resize_without_area_is_passed_over() {
    let mut app = app(4);
    let before = surface(&app);
    assert_eq!(app.resize(size(0, 720)), false);
    assert_eq!(surface(&app), before);
    assert_eq!(app.resize(size(1280, 0)), false);
    assert_eq!(surface(&app), before);
    assert_eq!(app.resize(size(0, 0)), false);
    assert_eq!(surface(&app), before);
    assert_eq!(app.resize(size(1, 1)), true);
    assert_eq!(app.surface.surface_size, size(1, 1));
    assert_eq!(app.surface.surface_config, SurfaceConfiguration { width: 1, height: 1 });
}

#[test]
fn resize_keeps_the_frame_in_flight() {
    let mut app = app(4);
    app.render(FrameEvent::Acquired);
    app.resize(size(30, 40));
    assert_eq!((app.frame, app.flip), (FrameState::ComputeIssued, false));
    assert_eq!(app.grid_size, 4);
}

#[test]
fn window_events_lead_to_commands() {
    let mut app = app(4);
    assert_eq!(handle(&mut app, WindowEvent::RedrawRequested), Command::Frame);
    assert_eq!(handle(&mut app, WindowEvent::CloseRequested), Command::Exit);
    assert_eq!(handle(&mut app, WindowEvent::AboutToWait), Command::RequestRedraw);
    assert_eq!(handle(&mut app, WindowEvent::Other), Command::Nothing);
    assert_eq!((app.frame, app.flip), (FrameState::Idle, false));
    assert_eq!(app.surface.surface_size, size(800, 600));
}

#[test]
fn only_pressing_escape_ends_the_run() {
    let mut app = app(4);
    let key = |pressed, escape| WindowEvent::KeyboardInput { pressed, escape };
    assert_eq!(handle(&mut app, key(true, true)), Command::Exit);
    assert_eq!(handle(&mut app, key(false, true)), Command::Nothing);
    assert_eq!(handle(&mut app, key(true, false)), Command::Nothing);
    assert_eq!(handle(&mut app, key(false, false)), Command::Nothing);
}

#[test]
fn new_sizes_reach_the_surface() {
    let mut app = app(4);
    assert_eq!(
        handle(&mut app, WindowEvent::Resized(size(300, 200))),
        Command::Reconfigure(size(300, 200))
    );
    assert_eq!(app.surface.surface_size, size(300, 200));
    assert_eq!(handle(&mut app, WindowEvent::Resized(size(0, 200))), Command::Nothing);
    assert_eq!(app.surface.surface_size, size(300, 200));
    let scaled = WindowEvent::ScaleFactorChanged { inner_size: size(600, 400) };
    assert_eq!(handle(&mut app, scaled), Command::Reconfigure(size(600, 400)));
    assert_eq!(app.surface.surface_config, SurfaceConfiguration { width: 600, height: 400 });
    let flat = WindowEvent::ScaleFactorChanged { inner_size: size(600, 0) };
    assert_eq!(handle(&mut app, flat), Command::Nothing);
    assert_eq!(app.surface.surface_size, size(600, 400));
}
