use vstd::prelude::*;
use crate::surface::TextureFormat;

verus! {

/// A color in thousandths of full intensity per channel (0 to 1000).
#[derive(Debug, Clone, Copy, PartialEq, Eq, Structural)]
pub struct ClearColor {
    pub r: u16,
    pub g: u16,
    pub b: u16,
    pub a: u16,
}

impl ClearColor {
    pub open spec fn wf(&self) -> bool {
        self.r <= 1000 && self.g <= 1000 && self.b <= 1000 && self.a <= 1000
    }
}

/// The background every frame is cleared to: red 0.4, green 0.1, blue 0.4, opaque.
pub open spec fn spec_background() -> ClearColor {
    ClearColor { r: 400, g: 100, b: 400, a: 1000 }
}

pub fn background_color() -> (c: ClearColor)
    ensures
        c == spec_background(),
        c.wf(),
{
    ClearColor { r: 400, g: 100, b: 400, a: 1000 }
}

/// The single render pass of a frame: the whole color target is cleared,
/// nothing is drawn, and no depth, resolve or query attachment is used.
#[derive(Debug, Clone, Copy, PartialEq, Eq, Structural)]
pub struct ClearPass {
    pub color: ClearColor,
    pub format: TextureFormat,
    pub width: u32,
    pub height: u32,
    pub draw_calls: u32,
    pub depth_stencil: bool,
    pub resolve_target: bool,
    pub queries: bool,
}

/// Where one frame stands in the acquire, record, submit, present order.
#[derive(Debug, Clone, Copy, PartialEq, Eq, Structural)]
pub enum FrameStage {
    Acquired,
    Recorded,
    Submitted,
    Presented,
}

/// One acquired frame. Its methods enforce the order of the protocol: a
/// pass is recorded only on an acquired frame, submitted only once
/// recorded, and presented only once submitted; a presented frame is spent.
#[derive(Debug)]
pub struct Frame {
    pub stage: FrameStage,
    pub width: u32,
    pub height: u32,
    pub format: TextureFormat,
    pub pass: Option<ClearPass>,
}

impl Frame {
    /// The frame handed out by the surface, as large as the surface.
    pub fn acquire(format: TextureFormat, width: u32, height: u32) -> (f: Frame)
        ensures
            f.stage == FrameStage::Acquired,
            f.width == width,
            f.height == height,
            f.format == format,
            f.pass is None,
    {
        Frame { stage: FrameStage::Acquired, width, height, format, pass: None }
    }

    /// Records the clear pass over the full frame; the recording scope is
    /// closed when this returns.
    pub fn record_clear(&mut self, color: ClearColor)
        requires
            old(self).stage == FrameStage::Acquired,
        ensures
            final(self).stage == FrameStage::Recorded,
            final(self).width == old(self).width,
            final(self).height == old(self).height,
            final(self).format == old(self).format,
            final(self).pass == Some(
                ClearPass {
                    color,
                    format: old(self).format,
                    width: old(self).width,
                    height: old(self).height,
                    draw_calls: 0,
                    depth_stencil: false,
                    resolve_target: false,
                    queries: false,
                },
            ),
    {
        self.pass = Some(
            ClearPass {
                color,
                format: self.format,
                width: self.width,
                height: self.height,
                draw_calls: 0,
                depth_stencil: false,
                resolve_target: false,
                queries: false,
            },
        );
        self.stage = FrameStage::Recorded;
    }

    pub fn submit(&mut self)
        requires
            old(self).stage == FrameStage::Recorded,
        ensures
            final(self).stage == FrameStage::Submitted,
            final(self).width == old(self).width,
            final(self).height == old(self).height,
            final(self).format == old(self).format,
            final(self).pass == old(self).pass,
    {
        self.stage = FrameStage::Submitted;
    }

    /// Presents the frame and hands back the pass it showed.
    pub fn present(self) -> (p: ClearPass)
        requires
            self.stage == FrameStage::Submitted,
            self.pass is Some,
        ensures
            p == self.pass->0,
    {
        self.pass.unwrap()
    }
}

/// Why the surface could not hand out a frame.
#[derive(Debug, Clone, Copy, PartialEq, Eq, Structural)]
pub enum AcquireError {
    SurfaceLost,
    SurfaceOutdated,
    SurfaceTimeout,
    DeviceLost,
}

} // verus!
