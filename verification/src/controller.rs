//! The loop controller's decisions and the application state they drive.
//!
//! The platform event loop delivers resize, close, key and redraw
//! notifications; this module decides what each one means for the render
//! state and what the platform layer must do in response. Per redraw it runs
//! the per-frame path: advance the animation clock, store this frame's
//! transform, and turn the acquisition outcome into either a full render
//! pass plan or the fixed recovery action. All state is held in one `App`
//! value passed by exclusive reference; the single driving thread needs no
//! locking.

use vstd::prelude::*;

use crate::format::selected_format;
use crate::frame::{
    acquire_policy, encode_frame, plan_acquire, AcquireAction, AcquireOutcome, RenderPassPlan,
};
use crate::geometry::{is_upload_of, upload_geometry, GeometryAssets, GeometryBuffer};
use crate::pipeline::{build_pipeline, PipelineDesc, PipelineVariant};
use crate::surface::{at_least_one, configure, SurfaceCaps, SurfaceState};
use crate::texture::{upload_texture, TextureAssets, TextureBinding};
use crate::uniform::{advanced, Animator, UniformBlock, UNIFORM_BYTES};

verus! {

/// The one key the controller distinguishes: the designated escape input.
#[derive(Clone, Copy, Debug, PartialEq, Eq, Structural)]
pub enum KeyCode {
    Escape,
    Other,
}

/// A platform notification as the event loop hands it over.
#[derive(Clone, Copy, Debug, PartialEq, Eq, Structural)]
pub enum LoopEvent {
    Resized { width: u32, height: u32 },
    CloseRequested,
    KeyPressed { key: KeyCode, pressed: bool },
    RedrawRequested,
    Other,
}

/// What the platform layer must do after an event is dispatched.
#[derive(Clone, Copy, Debug, PartialEq, Eq, Structural)]
pub enum EventDirective {
    /// Nothing; the event changed nothing.
    Ignore,
    /// Re-apply the (updated) surface configuration and request a redraw.
    Reconfigure,
    /// Leave the event loop.
    Exit,
    /// Run the per-frame path.
    Redraw,
}

/// The directive each event maps to: an accepted resize reconfigures, a
/// zero-area resize is dropped, close or a pressed escape key exits, and a
/// redraw request runs a frame.
pub open spec fn event_policy(e: LoopEvent) -> EventDirective {
    match e {
        LoopEvent::Resized { width, height } => {
            if width == 0 || height == 0 {
                EventDirective::Ignore
            } else {
                EventDirective::Reconfigure
            }
        },
        LoopEvent::CloseRequested => EventDirective::Exit,
        LoopEvent::KeyPressed { key, pressed } => {
            if pressed && key == KeyCode::Escape {
                EventDirective::Exit
            } else {
                EventDirective::Ignore
            }
        },
        LoopEvent::RedrawRequested => EventDirective::Redraw,
        LoopEvent::Other => EventDirective::Ignore,
    }
}

/// What one frame's acquisition outcome came to.
pub enum FrameResult {
    /// A target was acquired; encode and present this plan.
    Rendered(RenderPassPlan),
    /// The surface was lost or outdated; it has been left configured at the
    /// last known size and must be re-applied, then retried next tick.
    Reconfigure,
    /// Out of memory; terminate the process with a diagnostic.
    Fatal,
    /// A transient failure; skip this tick only and retry next tick.
    Skipped,
}

/// The whole render state: which pipeline variant runs, the surface
/// configuration, the immutable pipeline and startup resources, the
/// animation clock, and whether termination was requested.
pub struct App {
    pub variant: PipelineVariant,
    pub surface: SurfaceState,
    pub pipeline: PipelineDesc,
    pub geometry: Option<GeometryBuffer>,
    pub texture: Option<TextureBinding>,
    pub uniform: Option<UniformBlock>,
    pub animator: Animator,
    pub exit_requested: bool,
}

impl App {
    /// Invariant: the surface configuration is applied and well-formed, the
    /// pipeline was built for this variant against the configured format,
    /// and exactly the resources the variant calls for exist and are
    /// well-formed.
    pub open spec fn wf(self) -> bool {
        &&& self.surface.config.wf()
        &&& self.pipeline.wf_for(self.variant, self.surface.config.format)
        &&& (self.variant.has_geometry() <==> self.geometry is Some)
        &&& (self.geometry matches Some(g) ==> g.wf())
        &&& (self.variant.has_texture() <==> self.texture is Some)
        &&& (self.texture matches Some(t) ==> t.wf())
        &&& (self.variant.has_uniform() <==> self.uniform is Some)
        &&& (self.uniform matches Some(u) ==> u.wf())
    }

    /// The fields fixed at startup are the same in both states.
    pub open spec fn same_startup_state(self, other: App) -> bool {
        &&& other.variant == self.variant
        &&& other.pipeline == self.pipeline
        &&& other.geometry == self.geometry
        &&& other.texture == self.texture
    }

    /// Initialize the render state for one variant: negotiate and apply the
    /// surface configuration for the window's size, build the pipeline
    /// against the configured format, and upload exactly the startup
    /// resources the variant calls for. Runs once, before the first frame.
    pub fn new(
        variant: PipelineVariant,
        caps: &SurfaceCaps,
        width: u32,
        height: u32,
        geometry: Option<GeometryAssets>,
        texture: Option<TextureAssets>,
    ) -> (app: App)
        requires
            caps.wf(),
            variant.has_geometry() <==> geometry is Some,
            geometry matches Some(ga) ==> ga.wf(),
            variant.has_texture() <==> texture is Some,
            texture matches Some(ta) ==> ta.wf(),
        ensures
            app.wf(),
            app.variant == variant,
            app.surface.config.format == selected_format(caps.formats@),
            app.surface.config.width == at_least_one(width),
            app.surface.config.height == at_least_one(height),
            app.surface.config.present_mode == caps.present_modes@[0],
            app.surface.config.alpha_mode == caps.alpha_modes@[0],
            geometry matches Some(ga) ==> app.geometry matches Some(g) && is_upload_of(g, ga),
            texture matches Some(ta) ==> app.texture matches Some(t) && t.width == ta.width
                && t.height == ta.height && t.data@ == ta.rgba@,
            app.uniform matches Some(u) ==> forall|i: int| 0 <= i < u.data@.len() ==> u.data@[i] == 0,
            app.animator.time_micros == 0,
            !app.exit_requested,
    {
        let config = configure(caps, width, height);
        let pipeline = build_pipeline(variant, config.format);
        let geometry_buffer = match geometry {
            Some(ga) => Some(upload_geometry(ga)),
            None => None,
        };
        let texture_binding = match texture {
            Some(ta) => Some(upload_texture(ta)),
            None => None,
        };
        let uniform = match variant {
            PipelineVariant::TexturedMesh => Some(UniformBlock::new()),
            _ => None,
        };
        App {
            variant,
            surface: SurfaceState::new(config),
            pipeline,
            geometry: geometry_buffer,
            texture: texture_binding,
            uniform,
            animator: Animator::new(),
            exit_requested: false,
        }
    }

    /// The termination predicate the event loop polls.
    pub fn should_exit(&self) -> (r: bool)
        ensures
            r == self.exit_requested,
    {
        self.exit_requested
    }

    /// Dispatch one platform event. An accepted resize stores the new size
    /// exactly and directs one reconfiguration; a zero-area resize changes
    /// nothing. A close request or a pressed escape key latches the
    /// termination flag. Nothing else changes any state.
    pub fn on_event(&mut self, event: &LoopEvent) -> (d: EventDirective)
        ensures
            d == event_policy(*event),
            old(self).same_startup_state(*final(self)),
            final(self).animator == old(self).animator,
            final(self).uniform == old(self).uniform,
            final(self).exit_requested == (old(self).exit_requested || d == EventDirective::Exit),
            match *event {
                LoopEvent::Resized { width, height } => {
                    if width == 0 || height == 0 {
                        final(self).surface == old(self).surface
                    } else {
                        &&& final(self).surface.config.width == width
                        &&& final(self).surface.config.height == height
                        &&& final(self).surface.config.format == old(self).surface.config.format
                        &&& final(self).surface.config.present_mode == old(
                            self,
                        ).surface.config.present_mode
                        &&& final(self).surface.config.alpha_mode == old(
                            self,
                        ).surface.config.alpha_mode
                        &&& final(self).surface.config.view_formats@ == old(
                            self,
                        ).surface.config.view_formats@
                    }
                },
                _ => final(self).surface == old(self).surface,
            },
            old(self).wf() ==> final(self).wf(),
    {
        match event {
            LoopEvent::Resized { width, height } => {
                let applied = self.surface.resize(*width, *height);
                if applied {
                    EventDirective::Reconfigure
                } else {
                    EventDirective::Ignore
                }
            },
            LoopEvent::CloseRequested => {
                self.exit_requested = true;
                EventDirective::Exit
            },
            LoopEvent::KeyPressed { key, pressed } => {
                match (*key, *pressed) {
                    (KeyCode::Escape, true) => {
                        self.exit_requested = true;
                        EventDirective::Exit
                    },
                    _ => EventDirective::Ignore,
                }
            },
            LoopEvent::RedrawRequested => EventDirective::Redraw,
            LoopEvent::Other => EventDirective::Ignore,
        }
    }

    /// Start a frame: accumulate the wall-clock time elapsed since the
    /// previous one and return the new animation time. The platform layer
    /// derives this frame's transform matrix from it.
    pub fn begin_frame(&mut self, elapsed_micros: u64) -> (t: u64)
        ensures
            final(self).animator.time_micros == advanced(
                old(self).animator.time_micros,
                elapsed_micros,
            ),
            t == final(self).animator.time_micros,
            old(self).same_startup_state(*final(self)),
            final(self).surface == old(self).surface,
            final(self).uniform == old(self).uniform,
            final(self).exit_requested == old(self).exit_requested,
            old(self).wf() ==> final(self).wf(),
    {
        self.animator.tick(elapsed_micros)
    }

    /// Finish a frame: store this frame's transform in the uniform block
    /// (strictly before any draw that reads it), then apply the recovery
    /// policy to the acquisition outcome. Success always yields a full
    /// render pass plan, so after a recoverable failure at most that one
    /// tick goes unrendered; a lost or outdated surface keeps its stored
    /// size for the reconfiguration; out of memory is fatal; any other
    /// failure skips only this tick.
    pub fn render_frame(&mut self, transform: Option<Vec<u8>>, outcome: AcquireOutcome) -> (r:
        FrameResult)
        requires
            old(self).wf(),
            old(self).variant.has_uniform() <==> transform is Some,
            transform matches Some(bytes) ==> bytes@.len() == UNIFORM_BYTES,
        ensures
            final(self).wf(),
            old(self).same_startup_state(*final(self)),
            final(self).surface == old(self).surface,
            final(self).animator == old(self).animator,
            final(self).exit_requested == old(self).exit_requested,
            transform matches Some(bytes) ==> final(self).uniform matches Some(u) && u.data@
                == bytes@,
            transform is None ==> final(self).uniform == old(self).uniform,
            match acquire_policy(outcome) {
                AcquireAction::Proceed => r matches FrameResult::Rendered(plan) && plan.wf_for(
                    old(self).variant,
                    old(self).geometry,
                    old(self).surface.config.format,
                ),
                AcquireAction::Reconfigure => r is Reconfigure,
                AcquireAction::Terminate => r is Fatal,
                AcquireAction::SkipFrame => r is Skipped,
            },
    {
        match transform {
            Some(bytes) => {
                match &mut self.uniform {
                    Some(u) => u.write(bytes),
                    None => {},
                }
            },
            None => {},
        }
        match plan_acquire(outcome) {
            AcquireAction::Proceed => {
                let plan = encode_frame(self.variant, &self.geometry, self.surface.config.format);
                FrameResult::Rendered(plan)
            },
            AcquireAction::Reconfigure => FrameResult::Reconfigure,
            AcquireAction::Terminate => FrameResult::Fatal,
            AcquireAction::SkipFrame => FrameResult::Skipped,
        }
    }
}

} // verus!
