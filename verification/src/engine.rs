//! The render engine: owner of every per-session GPU resource, and the one
//! `render` operation the event loop calls per redraw.
//!
//! Construction decides the engine's whole long-lived state from the
//! window's pixel dimensions and the platform's two acquisition answers:
//! the surface configuration, the fixed-function pipeline, the vertex-input
//! layout, and the packed bytes of the static triangle. `render` runs one
//! frame through the strict per-frame sequence; when the surface has no
//! texture ready it reconfigures the surface once and retries before giving
//! up. The platform calls themselves — window system and GPU driver — are
//! made by the surrounding program, which feeds their outcomes in and
//! carries the engine's decisions out.

use vstd::prelude::*;
use crate::context::{AcquireError, DeviceContext};
use crate::frame::{fixed_clear_color, Frame, FrameStage, RenderError, DRAW_INSTANCE_COUNT,
    DRAW_VERTEX_COUNT};
use crate::pipeline::{fixed_pipeline, PipelineConfig, VertexLayout};
use crate::surface::{surface_config_for, SurfaceConfig, TextureFormat};
use crate::vertex::{packed_bytes, triangle, pack_vertices, triangle_vertices};

verus! {

/// The engine's long-lived state: the open device context, the surface
/// configuration applied at construction, the immutable pipeline state, the
/// vertex-input layout, the packed vertex bytes as uploaded, and the count
/// of frames presented so far.
#[derive(Debug)]
pub struct RenderEngine {
    pub context: DeviceContext,
    pub surface_config: SurfaceConfig,
    pub pipeline: PipelineConfig,
    pub vertex_layout: VertexLayout,
    pub vertex_data: Vec<u8>,
    pub frames_presented: u64,
}

impl RenderEngine {
    /// The engine's invariant, established by `new` and kept by `render`:
    /// the surface configuration is well formed, the pipeline is the fixed
    /// one for the surface's format, the vertex layout matches the packed
    /// vertices, the vertex bytes are exactly the packed triangle, and one
    /// command buffer was submitted per presented frame.
    pub open spec fn wf(self) -> bool {
        &&& self.surface_config.wf()
        &&& self.pipeline == fixed_pipeline(self.surface_config.format)
        &&& self.vertex_layout.wf()
        &&& self.vertex_data@ == packed_bytes(triangle())
        &&& self.context.submitted == self.frames_presented
    }

    /// Constructs the engine for a window of `width` by `height` pixels,
    /// given the platform's acquisition answers: whether a compatible
    /// adapter was found and whether it granted a logical device. On success
    /// the whole state is a function of the window dimensions alone; either
    /// acquisition failure is reported as the environment error it is, and
    /// no engine is built around a missing device.
    pub fn new(width: u32, height: u32, adapter_found: bool, device_granted: bool) -> (r: Result<
        RenderEngine,
        AcquireError,
    >)
        requires
            width >= 1,
            height >= 1,
        ensures
            !adapter_found ==> r == Result::<RenderEngine, AcquireError>::Err(
                AcquireError::NoCompatibleAdapter,
            ),
            adapter_found && !device_granted ==> r == Result::<RenderEngine, AcquireError>::Err(
                AcquireError::DeviceRefused,
            ),
            adapter_found && device_granted ==> (r matches Ok(e) && e.wf()
                && e.surface_config == surface_config_for(width, height)
                && e.pipeline == fixed_pipeline(TextureFormat::Rgba8Unorm)
                && e.vertex_data@ == packed_bytes(triangle())
                && e.frames_presented == 0
                && e.context == (DeviceContext { submitted: 0 })),
    {
        let context = match DeviceContext::acquire(adapter_found, device_granted) {
            Ok(c) => c,
            Err(e) => {
                return Err(e);
            },
        };
        let surface_config = SurfaceConfig::new(width, height);
        let pipeline = PipelineConfig::new(surface_config.format);
        let vertex_layout = VertexLayout::new();
        let vertices = triangle_vertices();
        let vertex_data = pack_vertices(&vertices);
        Ok(
            RenderEngine {
                context,
                surface_config,
                pipeline,
                vertex_layout,
                vertex_data,
                frames_presented: 0,
            },
        )
    }

    /// Renders one frame. `texture_available` says whether the surface
    /// handed out its next texture; when it did not, the engine reconfigures
    /// the surface with the unchanged configuration and retries once, and
    /// `texture_available_after_retry` says how that retry went. On success
    /// the returned frame went through the whole sequence — cleared to the
    /// fixed colour, the three vertices drawn once, presented with none of
    /// its transient resources left alive — and the engine is unchanged but
    /// for the two counters, so any number of calls accumulates nothing. On
    /// failure the engine is unchanged entirely.
    pub fn render(&mut self, texture_available: bool, texture_available_after_retry: bool) -> (r:
        Result<Frame, RenderError>)
        requires
            old(self).wf(),
            old(self).frames_presented < u64::MAX,
        ensures
            final(self).wf(),
            final(self).surface_config == old(self).surface_config,
            final(self).pipeline == old(self).pipeline,
            final(self).vertex_layout.stride == old(self).vertex_layout.stride,
            final(self).vertex_layout.attributes@ == old(self).vertex_layout.attributes@,
            final(self).vertex_data@ == old(self).vertex_data@,
            texture_available || texture_available_after_retry ==> (r matches Ok(f)
                && f.stage == FrameStage::Presented
                && f.live_resources() == 0
                && f.clear == fixed_clear_color()
                && f.draw_vertices == DRAW_VERTEX_COUNT
                && f.draw_instances == DRAW_INSTANCE_COUNT
                && f.reconfigured == !texture_available
                && final(self).frames_presented == old(self).frames_presented + 1
                && final(self).context.submitted == old(self).context.submitted + 1),
            !texture_available && !texture_available_after_retry ==> (r == Result::<
                Frame,
                RenderError,
            >::Err(RenderError::SurfaceUnavailable)
                && final(self).frames_presented == old(self).frames_presented
                && final(self).context == old(self).context),
    {
        let available: bool;
        let after_retry: bool;
        if texture_available {
            available = true;
            after_retry = false;
        } else {
            // The surface had no texture ready: reconfigure it with the
            // same configuration and retry the acquisition once.
            available = texture_available_after_retry;
            after_retry = true;
        }
        let mut f = match Frame::begin(available, after_retry) {
            Ok(f) => f,
            Err(e) => {
                return Err(e);
            },
        };
        f.create_view();
        f.open_encoder();
        f.begin_pass();
        f.bind_pipeline();
        f.bind_vertex_buffer();
        f.draw();
        f.end_pass();
        f.finish_commands();
        f.submit(&mut self.context);
        f.present();
        self.frames_presented = self.frames_presented + 1;
        Ok(f)
    }
}

/// Construction is deterministic: two well-formed engines built against the
/// same window dimensions carry the same surface configuration, the same
/// fixed-function pipeline state, the same vertex-input layout and the same
/// packed vertex bytes.
pub proof fn lemma_construction_deterministic(
    a: RenderEngine,
    b: RenderEngine,
    width: u32,
    height: u32,
)
    requires
        a.wf(),
        b.wf(),
        a.surface_config == surface_config_for(width, height),
        b.surface_config == surface_config_for(width, height),
    ensures
        a.surface_config == b.surface_config,
        a.pipeline == b.pipeline,
        a.vertex_layout.stride == b.vertex_layout.stride,
        a.vertex_layout.attributes@ == b.vertex_layout.attributes@,
        a.vertex_data@ == b.vertex_data@,
{
}

} // verus!
