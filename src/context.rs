use vstd::prelude::*;
use crate::frame::{AcquireError, ClearColor, ClearPass, Frame};
use crate::surface::{
    choose_format, first_srgb_or_first, spec_is_srgb, AlphaMode, PresentMode, SurfaceCapabilities,
    SurfaceConfig, TextureFormat, FRAME_LATENCY_HINT,
};

verus! {

/// How many times one frame is retried after reconfiguring the surface.
pub const MAX_ACQUIRE_RETRIES: u32 = 1;

/// Why the graphics context could not be set up.
#[derive(Debug, Clone, Copy, PartialEq, Eq, Structural)]
pub enum SetupError {
    SurfaceCreationFailed,
    NoCompatibleAdapter,
    DeviceRequestFailed,
    /// The surface lists no color format or no alpha mode.
    NoSurfaceFormat,
    /// The window has no pixels to draw into.
    EmptyWindow,
}

/// What the GPU backend reported at each setup step, in the order the steps
/// run: surface for the window, adapter compatible with it (default power
/// profile, no software fallback), device and queue with no optional
/// features, and the surface's capabilities.
#[derive(Debug)]
pub struct GpuProbe {
    pub surface_created: bool,
    pub adapter_found: bool,
    pub device_granted: bool,
    pub capabilities: SurfaceCapabilities,
}

/// What becomes of a frame whose acquisition failed.
#[derive(Debug, Clone, Copy, PartialEq, Eq, Structural)]
pub enum Recovery {
    /// Configure the surface with this configuration and acquire again.
    ReconfigureAndRetry(SurfaceConfig),
    /// Give up: the render loop ends.
    Terminate,
}

/// The configuration built at setup from the capabilities and window size.
pub open spec fn initial_config(caps_formats: Seq<TextureFormat>, first_alpha: AlphaMode, width: u32, height: u32) -> SurfaceConfig {
    SurfaceConfig {
        format: first_srgb_or_first(caps_formats),
        width,
        height,
        present_mode: PresentMode::Fifo,
        alpha_mode: first_alpha,
        max_frame_latency: FRAME_LATENCY_HINT,
    }
}

/// The pass a frame of a surface with this configuration shows: one clear
/// of the full surface to `color`, and nothing else.
pub open spec fn clear_pass_of(config: SurfaceConfig, color: ClearColor) -> ClearPass {
    ClearPass {
        color,
        format: config.format,
        width: config.width,
        height: config.height,
        draw_calls: 0,
        depth_stencil: false,
        resolve_target: false,
        queries: false,
    }
}

/// The surface state of one window's GPU connection: the configuration its
/// surface was last configured with. The host holds the device, queue and
/// surface handles and carries out what this type decides: each
/// configuration it returns is applied before the next frame is acquired.
pub struct GraphicsContext {
    config: SurfaceConfig,
}

impl View for GraphicsContext {
    type V = SurfaceConfig;

    closed spec fn view(&self) -> SurfaceConfig {
        self.config
    }
}

impl GraphicsContext {
    pub open spec fn wf(&self) -> bool {
        self@.wf()
    }

    /// Sets the context up from what the backend reported, stopping at the
    /// first failed step, and configures the surface for the window's size.
    pub fn initialize(probe: &GpuProbe, width: u32, height: u32) -> (r: Result<GraphicsContext, SetupError>)
        ensures
            !probe.surface_created ==> r == Err::<GraphicsContext, SetupError>(SetupError::SurfaceCreationFailed),
            probe.surface_created && !probe.adapter_found
                ==> r == Err::<GraphicsContext, SetupError>(SetupError::NoCompatibleAdapter),
            probe.surface_created && probe.adapter_found && !probe.device_granted
                ==> r == Err::<GraphicsContext, SetupError>(SetupError::DeviceRequestFailed),
            probe.surface_created && probe.adapter_found && probe.device_granted && (
            probe.capabilities.formats@.len() == 0 || probe.capabilities.alpha_modes@.len() == 0)
                ==> r == Err::<GraphicsContext, SetupError>(SetupError::NoSurfaceFormat),
            probe.surface_created && probe.adapter_found && probe.device_granted
                && probe.capabilities.formats@.len() > 0 && probe.capabilities.alpha_modes@.len() > 0
                && (width == 0 || height == 0)
                ==> r == Err::<GraphicsContext, SetupError>(SetupError::EmptyWindow),
            r is Ok <==> (probe.surface_created && probe.adapter_found && probe.device_granted
                && probe.capabilities.formats@.len() > 0 && probe.capabilities.alpha_modes@.len() > 0
                && width > 0 && height > 0),
            r is Ok ==> r->Ok_0.wf(),
            r is Ok ==> r->Ok_0@ == initial_config(
                probe.capabilities.formats@,
                probe.capabilities.alpha_modes@[0],
                width,
                height,
            ),
            r is Ok && (exists|i: int|
                0 <= i < probe.capabilities.formats@.len() && spec_is_srgb(
                    #[trigger] probe.capabilities.formats@[i],
                )) ==> spec_is_srgb(r->Ok_0@.format),
            r is Ok && !(exists|i: int|
                0 <= i < probe.capabilities.formats@.len() && spec_is_srgb(
                    #[trigger] probe.capabilities.formats@[i],
                )) ==> r->Ok_0@.format == probe.capabilities.formats@[0],
    {
        if !probe.surface_created {
            return Err(SetupError::SurfaceCreationFailed);
        }
        if !probe.adapter_found {
            return Err(SetupError::NoCompatibleAdapter);
        }
        if !probe.device_granted {
            return Err(SetupError::DeviceRequestFailed);
        }
        if probe.capabilities.alpha_modes.len() == 0 {
            return Err(SetupError::NoSurfaceFormat);
        }
        let format = match choose_format(&probe.capabilities.formats) {
            Some(f) => f,
            None => {
                return Err(SetupError::NoSurfaceFormat);
            },
        };
        if width == 0 || height == 0 {
            return Err(SetupError::EmptyWindow);
        }
        proof {
            crate::surface::lemma_chosen_format(probe.capabilities.formats@);
        }
        let config = SurfaceConfig {
            format,
            width,
            height,
            present_mode: PresentMode::Fifo,
            alpha_mode: probe.capabilities.alpha_modes[0],
            max_frame_latency: FRAME_LATENCY_HINT,
        };
        Ok(GraphicsContext { config })
    }

    /// The configuration the surface currently has.
    pub fn config(&self) -> (c: SurfaceConfig)
        ensures
            c == self@,
    {
        self.config
    }

    /// Resizes the surface. A size with a zero side is ignored; otherwise the
    /// new size is stored and the configuration to re-issue against the
    /// unchanged device is returned.
    pub fn reconfigure(&mut self, new_width: u32, new_height: u32) -> (issued: Option<SurfaceConfig>)
        requires
            old(self).wf(),
        ensures
            final(self).wf(),
            (new_width == 0 || new_height == 0) ==> final(self)@ == old(self)@ && issued is None,
            (new_width > 0 && new_height > 0) ==> final(self)@ == (SurfaceConfig {
                width: new_width,
                height: new_height,
                ..old(self)@
            }) && issued == Some(final(self)@),
    {
        if new_width == 0 || new_height == 0 {
            return None;
        }
        self.config.width = new_width;
        self.config.height = new_height;
        Some(self.config)
    }

    /// Acquires a frame as large as the surface, records the one clear pass,
    /// submits it and presents it, in that order; returns the presented pass.
    pub fn render_clear_frame(&self, clear_color: ClearColor) -> (p: ClearPass)
        requires
            self.wf(),
        ensures
            p == clear_pass_of(self@, clear_color),
    {
        let mut frame = Frame::acquire(self.config.format, self.config.width, self.config.height);
        frame.record_clear(clear_color);
        frame.submit();
        frame.present()
    }

    /// Decides what follows a failed acquisition. A lost or outdated surface
    /// is reconfigured and the frame retried, at most `MAX_ACQUIRE_RETRIES`
    /// times; a timeout, a lost device or an exhausted retry ends the loop.
    pub fn recovery_for(&self, err: AcquireError, retries_done: u32) -> (r: Recovery)
        requires
            self.wf(),
        ensures
            r == (if (err == AcquireError::SurfaceLost || err == AcquireError::SurfaceOutdated)
                && retries_done < MAX_ACQUIRE_RETRIES {
                Recovery::ReconfigureAndRetry(self@)
            } else {
                Recovery::Terminate
            }),
    {
        match err {
            AcquireError::SurfaceLost | AcquireError::SurfaceOutdated => {
                if retries_done < MAX_ACQUIRE_RETRIES {
                    Recovery::ReconfigureAndRetry(self.config)
                } else {
                    Recovery::Terminate
                }
            },
            _ => Recovery::Terminate,
        }
    }
}

} // verus!
