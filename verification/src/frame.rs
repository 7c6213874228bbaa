//! The per-frame state machine: acquire a presentable target, encode one
//! render pass, submit, present.
//!
//! Acquisition is the one step that can fail, and each failure has a fixed
//! policy: a lost or outdated surface is recoverable by reconfiguring at the
//! last known size and retrying next tick; running out of memory is fatal;
//! any other transient failure only skips the current tick. Encoding is
//! described by a plan the platform layer replays verbatim: one render pass
//! over a gamma-corrected view of the acquired target, cleared to a fixed
//! dark blue-gray, with the pipeline, buffers and bind groups in fixed slot
//! order and a single draw call covering the full range.

use vstd::prelude::*;

use crate::format::{srgb_variant_of, srgb_variant, FormatId};
use crate::geometry::GeometryBuffer;
use crate::pipeline::PipelineVariant;

verus! {

/// What acquiring the next presentable target came back with. The failure
/// variants mirror the surface's error taxonomy.
#[derive(Clone, Copy, Debug, PartialEq, Eq, Structural)]
pub enum AcquireOutcome {
    /// A target was acquired and the frame proceeds.
    Success,
    /// The surface no longer matches the window state.
    Lost,
    /// The surface's configuration is stale.
    Outdated,
    /// No memory for a new frame; unrecoverable at this layer.
    OutOfMemory,
    /// A transient failure with no dedicated policy.
    Timeout,
}

/// What the frame driver does with an acquisition outcome.
#[derive(Clone, Copy, Debug, PartialEq, Eq, Structural)]
pub enum AcquireAction {
    /// Encode, submit and present this frame.
    Proceed,
    /// Reconfigure the surface at the last known size; retry next tick.
    Reconfigure,
    /// Terminate the process with a diagnostic.
    Terminate,
    /// Log a warning and skip this tick; retry next tick.
    SkipFrame,
}

/// The recovery policy as a function of the outcome alone.
pub open spec fn acquire_policy(outcome: AcquireOutcome) -> AcquireAction {
    match outcome {
        AcquireOutcome::Success => AcquireAction::Proceed,
        AcquireOutcome::Lost => AcquireAction::Reconfigure,
        AcquireOutcome::Outdated => AcquireAction::Reconfigure,
        AcquireOutcome::OutOfMemory => AcquireAction::Terminate,
        AcquireOutcome::Timeout => AcquireAction::SkipFrame,
    }
}

/// Decide what to do with an acquisition outcome: success proceeds, a lost
/// or outdated surface is reconfigured and retried, out-of-memory
/// terminates, anything else skips exactly this tick. No outcome is retried
/// within the same tick.
pub fn plan_acquire(outcome: AcquireOutcome) -> (a: AcquireAction)
    ensures
        a == acquire_policy(outcome),
{
    match outcome {
        AcquireOutcome::Success => AcquireAction::Proceed,
        AcquireOutcome::Lost => AcquireAction::Reconfigure,
        AcquireOutcome::Outdated => AcquireAction::Reconfigure,
        AcquireOutcome::OutOfMemory => AcquireAction::Terminate,
        AcquireOutcome::Timeout => AcquireAction::SkipFrame,
    }
}

/// The render pass's clear color, in thousandths of full intensity per
/// channel. The platform layer divides by 1000 when it opens the pass.
#[derive(Clone, Copy, Debug, PartialEq, Eq, Structural)]
pub struct ClearColor {
    pub r_milli: u32,
    pub g_milli: u32,
    pub b_milli: u32,
    pub a_milli: u32,
}

/// The fixed dark blue-gray every frame is cleared to: RGBA
/// (0.1, 0.2, 0.3, 1.0).
pub open spec fn standard_clear_color() -> ClearColor {
    ClearColor { r_milli: 100, g_milli: 200, b_milli: 300, a_milli: 1000 }
}

/// The single draw call of a frame: a full vertex or index range, one
/// instance.
#[derive(Clone, Copy, Debug, PartialEq, Eq, Structural)]
pub struct DrawCall {
    pub indexed: bool,
    pub first: u32,
    pub count: u32,
    pub instance_count: u32,
}

/// Everything the platform layer needs to encode one frame's render pass.
pub struct RenderPassPlan {
    /// Format to create the target's view with: the gamma-corrected variant
    /// of the surface format, whatever the storage format is.
    pub view_format: FormatId,
    pub clear: ClearColor,
    /// The pass stores its results on finish.
    pub store_results: bool,
    /// Bind the uniform block's group at slot 0.
    pub bind_uniform_slot0: bool,
    /// Bind the texture and sampler group at slot 1.
    pub bind_texture_slot1: bool,
    pub use_vertex_buffer: bool,
    pub use_index_buffer: bool,
    pub draw: DrawCall,
}

impl RenderPassPlan {
    /// What `encode_frame` promises of the plan for a variant, its optional
    /// geometry, and the configured surface format: sRGB view, standard
    /// clear, bind groups in fixed slot order, and one draw covering the
    /// whole index range when geometry is indexed, the whole vertex range
    /// when it is not, and the shader-generated triangle when there is no
    /// geometry at all.
    pub open spec fn wf_for(
        self,
        variant: PipelineVariant,
        geometry: Option<GeometryBuffer>,
        surface_format: FormatId,
    ) -> bool {
        &&& self.view_format == srgb_variant_of(surface_format)
        &&& self.clear == standard_clear_color()
        &&& self.store_results
        &&& self.bind_uniform_slot0 == variant.has_uniform()
        &&& self.bind_texture_slot1 == variant.has_texture()
        &&& self.use_vertex_buffer == (geometry is Some)
        &&& match geometry {
            Some(g) => {
                &&& self.use_index_buffer == g.indexed()
                &&& self.draw == (DrawCall {
                    indexed: g.indexed(),
                    first: 0u32,
                    count: if g.indexed() {
                        g.index_count
                    } else {
                        g.vertex_count
                    },
                    instance_count: 1u32,
                })
            },
            None => {
                &&& !self.use_index_buffer
                &&& self.draw == (DrawCall {
                    indexed: false,
                    first: 0u32,
                    count: 3u32,
                    instance_count: 1u32,
                })
            },
        }
    }
}

/// Lay out one frame's render pass for the given variant and geometry over a
/// surface of the given format.
pub fn encode_frame(
    variant: PipelineVariant,
    geometry: &Option<GeometryBuffer>,
    surface_format: FormatId,
) -> (p: RenderPassPlan)
    ensures
        p.wf_for(variant, *geometry, surface_format),
{
    let (use_index_buffer, count): (bool, u32) = match geometry {
        Some(g) => {
            match &g.index_data {
                Some(_) => (true, g.index_count),
                None => (false, g.vertex_count),
            }
        },
        None => (false, 3),
    };
    let bind_uniform: bool = match variant {
        PipelineVariant::TexturedMesh => true,
        _ => false,
    };
    RenderPassPlan {
        view_format: srgb_variant(surface_format),
        clear: ClearColor { r_milli: 100, g_milli: 200, b_milli: 300, a_milli: 1000 },
        store_results: true,
        bind_uniform_slot0: bind_uniform,
        bind_texture_slot1: bind_uniform,
        use_vertex_buffer: match geometry {
            Some(_) => true,
            None => false,
        },
        use_index_buffer,
        draw: DrawCall { indexed: use_index_buffer, first: 0, count, instance_count: 1 },
    }
}

} // verus!
