//! One frame of rendering: the strict sequence of per-frame steps and the
//! transient resources they create and release.
//!
//! A frame acquires the surface's next texture, makes a view over it, opens
//! a command encoder, records one render pass (clear to the fixed colour,
//! bind the pipeline, bind the vertex buffer, draw the three vertices once),
//! ends the pass, finishes the encoder into a command buffer, submits it,
//! and presents the texture. The ordering is strict — the pass ends before
//! the encoder finishes, the encoder finishes before submission, submission
//! precedes presentation — and every transient resource is gone by the time
//! the frame is presented, so no per-frame state outlives a frame.

use vstd::prelude::*;
use crate::context::DeviceContext;

verus! {

/// Bit pattern of the 64-bit float 0.5.
pub const F64_HALF_BITS: u64 = 0x3FE0_0000_0000_0000;
/// Bit pattern of the 64-bit float 1.0.
pub const F64_ONE_BITS: u64 = 0x3FF0_0000_0000_0000;

/// Number of vertices one frame draws.
pub const DRAW_VERTEX_COUNT: u32 = 3;
/// Number of instances one frame draws.
pub const DRAW_INSTANCE_COUNT: u32 = 1;

/// The colour a pass clears its target to, each channel as the bit pattern
/// of a 64-bit float.
#[derive(Clone, Copy, Debug, PartialEq, Eq, Structural)]
pub struct ClearColor {
    pub r_bits: u64,
    pub g_bits: u64,
    pub b_bits: u64,
    pub a_bits: u64,
}

/// The fixed clear colour: r = 0.5, g = 1.0, b = 0.5, a = 1.0.
pub open spec fn fixed_clear_color() -> ClearColor {
    ClearColor {
        r_bits: F64_HALF_BITS,
        g_bits: F64_ONE_BITS,
        b_bits: F64_HALF_BITS,
        a_bits: F64_ONE_BITS,
    }
}

/// Builds the fixed clear colour.
pub fn clear_color() -> (c: ClearColor)
    ensures
        c == fixed_clear_color(),
{
    ClearColor {
        r_bits: F64_HALF_BITS,
        g_bits: F64_ONE_BITS,
        b_bits: F64_HALF_BITS,
        a_bits: F64_ONE_BITS,
    }
}

/// A frame fails only when the surface has no texture to hand out, even
/// after the one reconfigure-and-retry the engine allows.
#[derive(Clone, Copy, Debug, PartialEq, Eq, Structural)]
pub enum RenderError {
    SurfaceUnavailable,
}

/// Where in the per-frame sequence a frame stands.
#[derive(Clone, Copy, Debug, PartialEq, Eq, Structural)]
pub enum FrameStage {
    /// The surface handed out its next texture.
    TextureAcquired,
    /// A view over the texture exists.
    ViewCreated,
    /// A command encoder is recording.
    EncoderOpen,
    /// A render pass is open, its target cleared to the fixed colour.
    PassOpen,
    /// The render pipeline is bound in the pass.
    PipelineBound,
    /// The vertex buffer is bound in the pass.
    BufferBound,
    /// The draw call is recorded.
    DrawRecorded,
    /// The pass has ended; the encoder is recording again.
    PassEnded,
    /// The encoder finished into one command buffer.
    CommandsFinished,
    /// The command buffer was handed to the queue.
    Submitted,
    /// The texture was presented; nothing of the frame is left alive.
    Presented,
}

/// One frame in flight: its stage, which transient resources are currently
/// alive, and what it recorded.
#[derive(Clone, Copy, Debug, PartialEq, Eq, Structural)]
pub struct Frame {
    pub stage: FrameStage,
    /// Whether this frame's texture came only after the surface was
    /// reconfigured and the acquisition retried.
    pub reconfigured: bool,
    pub texture_alive: bool,
    pub view_alive: bool,
    pub encoder_alive: bool,
    pub pass_alive: bool,
    pub command_buffer_alive: bool,
    /// The colour the pass cleared its target to.
    pub clear: ClearColor,
    /// Vertices the recorded draw covers.
    pub draw_vertices: u32,
    /// Instances the recorded draw covers.
    pub draw_instances: u32,
}

impl Frame {
    /// How many of the frame's transient resources are alive right now.
    pub open spec fn live_resources(self) -> int {
        (if self.texture_alive { 1int } else { 0int })
            + (if self.view_alive { 1int } else { 0int })
            + (if self.encoder_alive { 1int } else { 0int })
            + (if self.pass_alive { 1int } else { 0int })
            + (if self.command_buffer_alive { 1int } else { 0int })
    }

    /// The liveness each stage implies: resources exist exactly between the
    /// step that creates them and the step that consumes them, the pass's
    /// clear colour is the fixed one, and the recorded draw covers the three
    /// vertices once.
    pub open spec fn wf(self) -> bool {
        &&& match self.stage {
            FrameStage::TextureAcquired => {
                self.texture_alive && !self.view_alive && !self.encoder_alive && !self.pass_alive
                    && !self.command_buffer_alive
            },
            FrameStage::ViewCreated => {
                self.texture_alive && self.view_alive && !self.encoder_alive && !self.pass_alive
                    && !self.command_buffer_alive
            },
            FrameStage::EncoderOpen => {
                self.texture_alive && self.view_alive && self.encoder_alive && !self.pass_alive
                    && !self.command_buffer_alive
            },
            FrameStage::PassOpen | FrameStage::PipelineBound | FrameStage::BufferBound
                | FrameStage::DrawRecorded => {
                self.texture_alive && self.view_alive && self.encoder_alive && self.pass_alive
                    && !self.command_buffer_alive
            },
            FrameStage::PassEnded => {
                self.texture_alive && self.view_alive && self.encoder_alive && !self.pass_alive
                    && !self.command_buffer_alive
            },
            FrameStage::CommandsFinished => {
                self.texture_alive && self.view_alive && !self.encoder_alive && !self.pass_alive
                    && self.command_buffer_alive
            },
            FrameStage::Submitted => {
                self.texture_alive && self.view_alive && !self.encoder_alive && !self.pass_alive
                    && !self.command_buffer_alive
            },
            FrameStage::Presented => {
                !self.texture_alive && !self.view_alive && !self.encoder_alive && !self.pass_alive
                    && !self.command_buffer_alive
            },
        }
        &&& match self.stage {
            FrameStage::TextureAcquired | FrameStage::ViewCreated | FrameStage::EncoderOpen => true,
            _ => self.clear == fixed_clear_color(),
        }
        &&& match self.stage {
            FrameStage::DrawRecorded | FrameStage::PassEnded | FrameStage::CommandsFinished
                | FrameStage::Submitted | FrameStage::Presented => {
                self.draw_vertices == DRAW_VERTEX_COUNT && self.draw_instances
                    == DRAW_INSTANCE_COUNT
            },
            _ => true,
        }
    }

    /// Starts a frame by acquiring the surface's next texture. `available`
    /// says whether the surface handed one out; `after_retry` says whether
    /// it did so only on the retry that followed a reconfigure. A frame is
    /// returned exactly when a texture was acquired.
    pub fn begin(available: bool, after_retry: bool) -> (r: Result<Frame, RenderError>)
        ensures
            !available ==> r == Result::<Frame, RenderError>::Err(RenderError::SurfaceUnavailable),
            available ==> r == Result::<Frame, RenderError>::Ok(
                Frame {
                    stage: FrameStage::TextureAcquired,
                    reconfigured: after_retry,
                    texture_alive: true,
                    view_alive: false,
                    encoder_alive: false,
                    pass_alive: false,
                    command_buffer_alive: false,
                    clear: ClearColor { r_bits: 0, g_bits: 0, b_bits: 0, a_bits: 0 },
                    draw_vertices: 0,
                    draw_instances: 0,
                },
            ),
            available ==> (r matches Ok(f) && f.wf() && f.live_resources() == 1),
    {
        if available {
            Ok(
                Frame {
                    stage: FrameStage::TextureAcquired,
                    reconfigured: after_retry,
                    texture_alive: true,
                    view_alive: false,
                    encoder_alive: false,
                    pass_alive: false,
                    command_buffer_alive: false,
                    clear: ClearColor { r_bits: 0, g_bits: 0, b_bits: 0, a_bits: 0 },
                    draw_vertices: 0,
                    draw_instances: 0,
                },
            )
        } else {
            Err(RenderError::SurfaceUnavailable)
        }
    }

    /// Creates the view over the acquired texture.
    pub fn create_view(&mut self)
        requires
            old(self).wf(),
            old(self).stage == FrameStage::TextureAcquired,
        ensures
            final(self).wf(),
            *final(self) == (Frame {
                stage: FrameStage::ViewCreated,
                view_alive: true,
                ..*old(self)
            }),
    {
        self.stage = FrameStage::ViewCreated;
        self.view_alive = true;
    }

    /// Opens the command recording context.
    pub fn open_encoder(&mut self)
        requires
            old(self).wf(),
            old(self).stage == FrameStage::ViewCreated,
        ensures
            final(self).wf(),
            *final(self) == (Frame {
                stage: FrameStage::EncoderOpen,
                encoder_alive: true,
                ..*old(self)
            }),
    {
        self.stage = FrameStage::EncoderOpen;
        self.encoder_alive = true;
    }

    /// Begins the render pass targeting the view, clearing it to the fixed
    /// colour and keeping the result.
    pub fn begin_pass(&mut self)
        requires
            old(self).wf(),
            old(self).stage == FrameStage::EncoderOpen,
        ensures
            final(self).wf(),
            *final(self) == (Frame {
                stage: FrameStage::PassOpen,
                pass_alive: true,
                clear: fixed_clear_color(),
                ..*old(self)
            }),
    {
        self.stage = FrameStage::PassOpen;
        self.pass_alive = true;
        self.clear = clear_color();
    }

    /// Binds the render pipeline in the open pass.
    pub fn bind_pipeline(&mut self)
        requires
            old(self).wf(),
            old(self).stage == FrameStage::PassOpen,
        ensures
            final(self).wf(),
            *final(self) == (Frame { stage: FrameStage::PipelineBound, ..*old(self) }),
    {
        self.stage = FrameStage::PipelineBound;
    }

    /// Binds the vertex buffer in the open pass.
    pub fn bind_vertex_buffer(&mut self)
        requires
            old(self).wf(),
            old(self).stage == FrameStage::PipelineBound,
        ensures
            final(self).wf(),
            *final(self) == (Frame { stage: FrameStage::BufferBound, ..*old(self) }),
    {
        self.stage = FrameStage::BufferBound;
    }

    /// Records the draw call: the three vertices, one instance.
    pub fn draw(&mut self)
        requires
            old(self).wf(),
            old(self).stage == FrameStage::BufferBound,
        ensures
            final(self).wf(),
            *final(self) == (Frame {
                stage: FrameStage::DrawRecorded,
                draw_vertices: DRAW_VERTEX_COUNT,
                draw_instances: DRAW_INSTANCE_COUNT,
                ..*old(self)
            }),
    {
        self.stage = FrameStage::DrawRecorded;
        self.draw_vertices = DRAW_VERTEX_COUNT;
        self.draw_instances = DRAW_INSTANCE_COUNT;
    }

    /// Ends the render pass. The pass is released here, before the encoder
    /// it was recorded into may finish.
    pub fn end_pass(&mut self)
        requires
            old(self).wf(),
            old(self).stage == FrameStage::DrawRecorded,
        ensures
            final(self).wf(),
            *final(self) == (Frame {
                stage: FrameStage::PassEnded,
                pass_alive: false,
                ..*old(self)
            }),
    {
        self.stage = FrameStage::PassEnded;
        self.pass_alive = false;
    }

    /// Finishes command recording: the encoder is consumed and one command
    /// buffer comes out. Only a frame whose pass has ended can finish.
    pub fn finish_commands(&mut self)
        requires
            old(self).wf(),
            old(self).stage == FrameStage::PassEnded,
        ensures
            final(self).wf(),
            *final(self) == (Frame {
                stage: FrameStage::CommandsFinished,
                encoder_alive: false,
                command_buffer_alive: true,
                ..*old(self)
            }),
    {
        self.stage = FrameStage::CommandsFinished;
        self.encoder_alive = false;
        self.command_buffer_alive = true;
    }

    /// Submits the one command buffer to the queue, which consumes it and
    /// records the submission.
    pub fn submit(&mut self, ctx: &mut DeviceContext)
        requires
            old(self).wf(),
            old(self).stage == FrameStage::CommandsFinished,
            old(ctx).submitted < u64::MAX,
        ensures
            final(self).wf(),
            *final(self) == (Frame {
                stage: FrameStage::Submitted,
                command_buffer_alive: false,
                ..*old(self)
            }),
            final(ctx).submitted == old(ctx).submitted + 1,
    {
        ctx.record_submission();
        self.stage = FrameStage::Submitted;
        self.command_buffer_alive = false;
    }

    /// Presents the texture to the window. The texture is consumed and the
    /// view over it goes with it: nothing of the frame stays alive.
    pub fn present(&mut self)
        requires
            old(self).wf(),
            old(self).stage == FrameStage::Submitted,
        ensures
            final(self).wf(),
            *final(self) == (Frame {
                stage: FrameStage::Presented,
                texture_alive: false,
                view_alive: false,
                ..*old(self)
            }),
            final(self).live_resources() == 0,
    {
        self.stage = FrameStage::Presented;
        self.texture_alive = false;
        self.view_alive = false;
    }
}

/// A presented frame holds no live per-frame resources: the texture, view,
/// encoder, pass and command buffer created during the frame are all gone
/// once it is presented, so repeated frames accumulate nothing.
pub proof fn lemma_presented_frame_releases_all(f: Frame)
    requires
        f.wf(),
        f.stage == FrameStage::Presented,
    ensures
        f.live_resources() == 0,
{
}

} // verus!
