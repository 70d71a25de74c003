//! The frame scheduler: what a frame issues and in which order, when the
//! parity flips, and what happens when a frame cannot be presented.
//!
//! The scheduler performs nothing itself. It is told what happened and
//! answers with what to do next; whoever owns the device carries that out and
//! reports back.

use crate::binding::Binding;
use crate::pipeline::{parity_after, ComputePipeline, RenderPipeline};
use vstd::prelude::*;

verus! {

/// The side of the grid when none is asked for.
pub const DEFAULT_GRID_SIZE: u16 = 128;

/// A size in physical pixels.
#[derive(Clone, Copy, Debug, PartialEq, Eq, Structural)]
pub struct Size {
    pub width: u32,
    pub height: u32,
}

impl Size {
    /// Whether a surface can be configured with this size.
    pub open spec fn presentable(self) -> bool {
        self.width > 0 && self.height > 0
    }
}

/// The part of a surface's configuration that a resize changes.
#[derive(Clone, Copy, Debug, PartialEq, Eq, Structural)]
pub struct SurfaceConfiguration {
    pub width: u32,
    pub height: u32,
}

/// The presentation target as the scheduler knows it: its configuration and
/// the last size it was given.
#[derive(Clone, Copy, Debug, PartialEq, Eq, Structural)]
pub struct Surface {
    pub surface_config: SurfaceConfiguration,
    pub surface_size: Size,
}

impl Surface {
    /// The surface after a resize to `new_size`: a size without area changes
    /// nothing, any other becomes the size and the configuration.
    pub open spec fn resized(self, new_size: Size) -> Surface {
        if new_size.presentable() {
            Surface {
                surface_config: SurfaceConfiguration {
                    width: new_size.width,
                    height: new_size.height,
                },
                surface_size: new_size,
            }
        } else {
            self
        }
    }
}

/// Why a frame target could not be had.
#[derive(Clone, Copy, Debug, PartialEq, Eq, Structural)]
pub enum SurfaceError {
    /// Waiting for a target took too long.
    Timeout,
    /// The surface changed under its configuration.
    Outdated,
    /// The target is lost for now and can be had again after a reconfigure.
    Lost,
    /// The device has no memory left.
    OutOfMemory,
}

/// Where a frame stands.
#[derive(Clone, Copy, Debug, PartialEq, Eq, Structural)]
pub enum FrameState {
    Idle,
    ComputeIssued,
    RenderIssued,
    Submitted,
    Presented,
}

/// What the scheduler is told.
#[derive(Clone, Copy, Debug, PartialEq, Eq, Structural)]
pub enum FrameEvent {
    /// A frame was asked for and its target is at hand.
    Acquired,
    /// A frame was asked for and its target could not be had.
    Failed(SurfaceError),
    /// The action that the scheduler asked for last has been carried out.
    Done,
}

/// What the scheduler asks for.
#[derive(Clone, Copy, Debug, PartialEq, Eq, Structural)]
pub enum FrameAction {
    /// Record the compute pass: bind `binding`, dispatch `workgroups` tiles
    /// along each axis.
    Dispatch { binding: Binding, workgroups: u32 },
    /// Record the render pass after the compute pass, in the same batch:
    /// bind `binding`, draw `vertices` vertices in `instances` instances.
    Draw { binding: Binding, vertices: u32, instances: u32 },
    /// Hand the batch to the queue.
    Submit,
    /// Present the frame.
    Present,
    /// Nothing to do until the next frame is asked for.
    Wait,
    /// Configure the surface again with this size, then wait.
    Reconfigure(Size),
    /// End the run.
    Exit,
    /// Report the error and leave this frame out.
    Skip(SurfaceError),
}

/// The scheduler with all it schedules: the surface, both pipelines, the side
/// of the grid, the parity bit and the state of the frame in flight.
pub struct App {
    pub surface: Surface,
    pub render_pipeline: RenderPipeline,
    pub compute_pipeline: ComputePipeline,
    pub grid_size: u16,
    pub flip: bool,
    pub frame: FrameState,
}

impl App {
    /// Both pipelines are sound and built for this grid.
    pub open spec fn wf(&self) -> bool {
        &&& self.grid_size >= 1
        &&& self.render_pipeline.wf()
        &&& self.compute_pipeline.wf()
        &&& self.render_pipeline.storage.size() == self.grid_size
        &&& self.compute_pipeline.grid_size == self.grid_size
    }

    /// The binding that this frame's passes use: the one the parity selects.
    pub open spec fn binding(&self) -> Binding {
        self.render_pipeline.binding_groups.select(self.flip)
    }

    /// What a failure to get the frame's target leads to. A lost target is
    /// configured again at the last size the surface was given, if that size
    /// has an area. Exhausted memory ends the run. Any other error is
    /// reported and the frame left out.
    pub open spec fn recovery(&self, error: SurfaceError) -> FrameAction {
        match error {
            SurfaceError::Lost => if self.surface.surface_size.presentable() {
                FrameAction::Reconfigure(self.surface.surface_size)
            } else {
                FrameAction::Wait
            },
            SurfaceError::OutOfMemory => FrameAction::Exit,
            SurfaceError::Timeout => FrameAction::Skip(SurfaceError::Timeout),
            SurfaceError::Outdated => FrameAction::Skip(SurfaceError::Outdated),
        }
    }

    /// The state that an event leads to.
    ///
    /// A frame starts when its target is at hand, and then moves one state
    /// with every action carried out. A failure leaves an idle scheduler
    /// idle. While a frame is in flight, being asked for another frame
    /// changes nothing.
    pub open spec fn next_frame(&self, event: FrameEvent) -> FrameState {
        match event {
            FrameEvent::Acquired => match self.frame {
                FrameState::Idle => FrameState::ComputeIssued,
                other => other,
            },
            FrameEvent::Failed(_) => self.frame,
            FrameEvent::Done => match self.frame {
                FrameState::Idle => FrameState::Idle,
                FrameState::ComputeIssued => FrameState::RenderIssued,
                FrameState::RenderIssued => FrameState::Submitted,
                FrameState::Submitted => FrameState::Presented,
                FrameState::Presented => FrameState::Idle,
            },
        }
    }

    /// The parity that an event leads to: it flips when a presented frame is
    /// reported done, and at no other time.
    pub open spec fn next_flip(&self, event: FrameEvent) -> bool {
        if event == FrameEvent::Done && self.frame == FrameState::Presented {
            !self.flip
        } else {
            self.flip
        }
    }

    /// The scheduler after an event: the state of the frame and the parity
    /// move on, everything else stays.
    pub open spec fn advanced(self, event: FrameEvent) -> App {
        App { frame: self.next_frame(event), flip: self.next_flip(event), ..self }
    }

    /// The scheduler after one whole frame: the target was at hand, and each
    /// of the four actions that followed was carried out.
    pub open spec fn frame_completed(self) -> App {
        self.advanced(FrameEvent::Acquired).advanced(FrameEvent::Done).advanced(
            FrameEvent::Done,
        ).advanced(FrameEvent::Done).advanced(FrameEvent::Done)
    }

    /// The scheduler after `frames` whole frames.
    pub open spec fn after_frames(self, frames: nat) -> App
        decreases frames,
    {
        if frames == 0 {
            self
        } else {
            self.after_frames((frames - 1) as nat).frame_completed()
        }
    }

    /// The action that answers an event.
    pub open spec fn action(&self, event: FrameEvent) -> FrameAction {
        match event {
            FrameEvent::Acquired => match self.frame {
                FrameState::Idle => FrameAction::Dispatch {
                    binding: self.binding(),
                    workgroups: self.compute_pipeline.workgroups,
                },
                _ => FrameAction::Wait,
            },
            FrameEvent::Failed(error) => match self.frame {
                FrameState::Idle => self.recovery(error),
                _ => FrameAction::Wait,
            },
            FrameEvent::Done => match self.frame {
                FrameState::Idle => FrameAction::Wait,
                FrameState::ComputeIssued => FrameAction::Draw {
                    binding: self.binding(),
                    vertices: self.render_pipeline.vertices,
                    instances: self.render_pipeline.instances,
                },
                FrameState::RenderIssued => FrameAction::Submit,
                FrameState::Submitted => FrameAction::Present,
                FrameState::Presented => FrameAction::Wait,
            },
        }
    }

    /// Builds the scheduler for a surface of size `window_size` and a grid of
    /// side `grid_size`, over storage seeded at random. No frame is in
    /// flight, and the parity selects the binding that reads buffer A.
    pub fn new(window_size: Size, grid_size: u16) -> (app: App)
        requires
            grid_size >= 1,
        ensures
            app.wf(),
            app.grid_size == grid_size,
            app.flip == false,
            app.frame == FrameState::Idle,
            app.surface.surface_size == window_size,
            app.surface.surface_config == (SurfaceConfiguration {
                width: window_size.width,
                height: window_size.height,
            }),
            app.render_pipeline.binding_groups.is_for(grid_size),
    {
        App::over(window_size, RenderPipeline::new(grid_size))
    }

    /// Builds the scheduler for a surface of size `window_size` over a given
    /// render pipeline.
    pub fn over(window_size: Size, render_pipeline: RenderPipeline) -> (app: App)
        requires
            render_pipeline.wf(),
        ensures
            app.wf(),
            app.grid_size == render_pipeline.storage.size(),
            app.flip == false,
            app.frame == FrameState::Idle,
            app.surface.surface_size == window_size,
            app.surface.surface_config == (SurfaceConfiguration {
                width: window_size.width,
                height: window_size.height,
            }),
            app.render_pipeline == render_pipeline,
    {
        let grid_size: u16 = render_pipeline.storage.grid_size();
        App {
            surface: Surface {
                surface_config: SurfaceConfiguration {
                    width: window_size.width,
                    height: window_size.height,
                },
                surface_size: window_size,
            },
            render_pipeline,
            compute_pipeline: ComputePipeline::new(grid_size),
            grid_size,
            flip: false,
            frame: FrameState::Idle,
        }
    }

    /// Takes note of a new size of the surface.
    ///
    /// A size without area changes nothing and asks for nothing. Any other
    /// size becomes the surface's size and configuration, and the result
    /// tells the caller to configure the surface with it.
    pub fn resize(&mut self, new_size: Size) -> (reconfigure: bool)
        ensures
            reconfigure == new_size.presentable(),
            final(self).surface == old(self).surface.resized(new_size),
            final(self).render_pipeline == old(self).render_pipeline,
            final(self).compute_pipeline == old(self).compute_pipeline,
            final(self).grid_size == old(self).grid_size,
            final(self).flip == old(self).flip,
            final(self).frame == old(self).frame,
    {
        if new_size.width > 0 && new_size.height > 0 {
            self.surface.surface_size = new_size;
            self.surface.surface_config.width = new_size.width;
            self.surface.surface_config.height = new_size.height;
            true
        } else {
            false
        }
    }

    /// Moves the frame on by one event and answers with the action to carry
    /// out.
    ///
    /// Only the state of the frame and the parity change, as `next_frame` and
    /// `next_flip` say; the surface, the pipelines and their storage stay as
    /// they were.
    pub fn render(&mut self, event: FrameEvent) -> (action: FrameAction)
        ensures
            action == old(self).action(event),
            *final(self) == old(self).advanced(event),
    {
        let binding: Binding = self.render_pipeline.binding_groups.select(self.flip);
        match event {
            FrameEvent::Acquired => match self.frame {
                FrameState::Idle => {
                    self.frame = FrameState::ComputeIssued;
                    FrameAction::Dispatch { binding, workgroups: self.compute_pipeline.workgroups }
                },
                _ => FrameAction::Wait,
            },
            FrameEvent::Failed(error) => match self.frame {
                FrameState::Idle => self.recover(error),
                _ => FrameAction::Wait,
            },
            FrameEvent::Done => match self.frame {
                FrameState::Idle => FrameAction::Wait,
                FrameState::ComputeIssued => {
                    self.frame = FrameState::RenderIssued;
                    FrameAction::Draw {
                        binding,
                        vertices: self.render_pipeline.vertices,
                        instances: self.render_pipeline.instances,
                    }
                },
                FrameState::RenderIssued => {
                    self.frame = FrameState::Submitted;
                    FrameAction::Submit
                },
                FrameState::Submitted => {
                    self.frame = FrameState::Presented;
                    FrameAction::Present
                },
                FrameState::Presented => {
                    self.frame = FrameState::Idle;
                    self.flip = !self.flip;
                    FrameAction::Wait
                },
            },
        }
    }

    /// Decides what a failure to get the frame's target leads to.
    pub fn recover(&self, error: SurfaceError) -> (action: FrameAction)
        ensures
            action == self.recovery(error),
    {
        match error {
            SurfaceError::Lost => {
                let size: Size = self.surface.surface_size;
                if size.width > 0 && size.height > 0 {
                    FrameAction::Reconfigure(size)
                } else {
                    FrameAction::Wait
                }
            },
            SurfaceError::OutOfMemory => FrameAction::Exit,
            SurfaceError::Timeout => FrameAction::Skip(SurfaceError::Timeout),
            SurfaceError::Outdated => FrameAction::Skip(SurfaceError::Outdated),
        }
    }
}

/// A resize to a size without area is no resize: the surface stays as it
/// was, and a later resize to a size with an area takes effect as if the
/// first had not been asked for.
pub proof fn lemma_resize_without_area(surface: Surface, empty: Size, size: Size)
    requires
        empty.width == 0 || empty.height == 0,
        size.width > 0 && size.height > 0,
    ensures
        surface.resized(empty) == surface,
        surface.resized(empty).resized(size) == surface.resized(size),
        surface.resized(size).surface_size == size,
        surface.resized(size).surface_config == (SurfaceConfiguration {
            width: size.width,
            height: size.height,
        }),
{
}

/// One frame, from an idle scheduler whose target is at hand: the compute
/// pass is asked for first, then the render pass under the same binding, then
/// the submission, then the presentation. After that the scheduler is idle
/// again and the parity has flipped once. Nothing else has changed.
pub proof fn lemma_frame_order(app: App)
    requires
        app.frame == FrameState::Idle,
    ensures
        ({
            let s1 = app.advanced(FrameEvent::Acquired);
            let s2 = s1.advanced(FrameEvent::Done);
            let s3 = s2.advanced(FrameEvent::Done);
            let s4 = s3.advanced(FrameEvent::Done);
            &&& app.action(FrameEvent::Acquired) == (FrameAction::Dispatch {
                binding: app.binding(),
                workgroups: app.compute_pipeline.workgroups,
            })
            &&& s1.action(FrameEvent::Done) == (FrameAction::Draw {
                binding: app.binding(),
                vertices: app.render_pipeline.vertices,
                instances: app.render_pipeline.instances,
            })
            &&& s2.action(FrameEvent::Done) == FrameAction::Submit
            &&& s3.action(FrameEvent::Done) == FrameAction::Present
            &&& s4.action(FrameEvent::Done) == FrameAction::Wait
            &&& s1.flip == app.flip && s2.flip == app.flip && s3.flip == app.flip && s4.flip
                == app.flip
        }),
        app.frame_completed() == (App { flip: !app.flip, ..app }),
{
}

/// A frame whose target cannot be had leaves the scheduler as it was: idle,
/// with the same parity, so that the next frame reads and writes the same
/// buffers as this one would have.
pub proof fn lemma_failure_keeps_state(app: App, error: SurfaceError)
    ensures
        app.advanced(FrameEvent::Failed(error)) == app,
        app.frame == FrameState::Idle ==> app.action(FrameEvent::Failed(error)) == app.recovery(
            error,
        ),
        app.recovery(error) is Reconfigure ==> error == SurfaceError::Lost,
        app.recovery(error) is Exit <==> error == SurfaceError::OutOfMemory,
{
}

/// After `frames` whole frames an idle scheduler is idle, its parity has
/// flipped `frames` times, and nothing else has changed.
pub proof fn lemma_parity_counts_frames(app: App, frames: nat)
    requires
        app.frame == FrameState::Idle,
    ensures
        app.after_frames(frames) == (App { flip: app.flip != parity_after(frames), ..app }),
    decreases frames,
{
    if frames > 0 {
        lemma_parity_counts_frames(app, (frames - 1) as nat);
        lemma_frame_order(app.after_frames((frames - 1) as nat));
    }
}

} // verus!
