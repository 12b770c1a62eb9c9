//! The presentation-surface configuration: render-target usage, a fixed
//! 8-bit-per-channel colour format, the window's pixel dimensions, and an
//! uncapped presentation mode.

use vstd::prelude::*;

verus! {

/// Colour format of a surface texture.
#[derive(Clone, Copy, Debug, PartialEq, Eq, Structural)]
pub enum TextureFormat {
    /// Four 8-bit normalized channels, red first.
    Rgba8Unorm,
    /// Four 8-bit normalized channels, blue first.
    Bgra8Unorm,
}

/// How finished frames are paced onto the screen.
#[derive(Clone, Copy, Debug, PartialEq, Eq, Structural)]
pub enum PresentMode {
    /// Present as soon as a frame is ready; no vertical-sync pacing.
    Immediate,
    /// Queue frames, replacing the waiting one when a newer frame is ready.
    Mailbox,
    /// Queue frames behind the vertical sync.
    Fifo,
}

/// What the surface's textures may be used for.
#[derive(Clone, Copy, Debug, PartialEq, Eq, Structural)]
pub enum TextureUsage {
    /// The texture is a colour target of render passes.
    RenderAttachment,
    /// The texture is sampled or read by shaders.
    TextureBinding,
    /// The texture is the source of copies.
    CopySrc,
}

/// The surface configuration applied once at construction. Its width and
/// height are the window's pixel dimensions at that moment; the surface is
/// not reconfigured on resize in this scope.
#[derive(Clone, Copy, Debug, PartialEq, Eq, Structural)]
pub struct SurfaceConfig {
    pub usage: TextureUsage,
    pub format: TextureFormat,
    pub width: u32,
    pub height: u32,
    pub present_mode: PresentMode,
}

/// The configuration built for a window of `width` by `height` pixels.
pub open spec fn surface_config_for(width: u32, height: u32) -> SurfaceConfig {
    SurfaceConfig {
        usage: TextureUsage::RenderAttachment,
        format: TextureFormat::Rgba8Unorm,
        width: width,
        height: height,
        present_mode: PresentMode::Immediate,
    }
}

impl SurfaceConfig {
    /// The configuration matches a window when it covers exactly the
    /// window's drawable pixels.
    pub open spec fn matches_window(self, width: u32, height: u32) -> bool {
        self.width == width && self.height == height
    }

    /// A well-formed configuration: render-target usage, the fixed colour
    /// format, the uncapped presentation mode, and a drawable area of at
    /// least one pixel each way.
    pub open spec fn wf(self) -> bool {
        &&& self.usage == TextureUsage::RenderAttachment
        &&& self.format == TextureFormat::Rgba8Unorm
        &&& self.present_mode == PresentMode::Immediate
        &&& self.width >= 1
        &&& self.height >= 1
    }

    /// Builds the configuration for a window of the given pixel dimensions:
    /// width and height are taken from the window unchanged, the other
    /// fields are fixed.
    pub fn new(width: u32, height: u32) -> (c: SurfaceConfig)
        requires
            width >= 1,
            height >= 1,
        ensures
            c == surface_config_for(width, height),
            c.matches_window(width, height),
            c.wf(),
    {
        SurfaceConfig {
            usage: TextureUsage::RenderAttachment,
            format: TextureFormat::Rgba8Unorm,
            width: width,
            height: height,
            present_mode: PresentMode::Immediate,
        }
    }
}

} // verus!
