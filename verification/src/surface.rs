use vstd::prelude::*;

verus! {

/// Pixel formats a presentable surface may use.
#[derive(Clone, Copy, Debug, PartialEq, Eq, Structural)]
pub enum PixelFormat {
    Bgra8Unorm,
    Bgra8UnormSrgb,
    Rgba8Unorm,
    Rgba8UnormSrgb,
    Rgba16Float,
    Rgb10a2Unorm,
}

/// How frames are presented to the window: dimensions and pixel format.
#[derive(Clone, Copy, Debug, PartialEq, Eq, Structural)]
pub struct SurfaceConfig {
    pub width: u32,
    pub height: u32,
    pub format: PixelFormat,
}

/// Whether a surface may be configured with these dimensions.
pub open spec fn presentable(width: u32, height: u32) -> bool {
    width > 0 && height > 0
}

impl SurfaceConfig {
    /// A configuration that may be applied to a surface: no dimension is zero.
    pub open spec fn wf(&self) -> bool {
        presentable(self.width, self.height)
    }

    /// The configuration after a resize event: the new dimensions if both are
    /// positive, the configuration as it was otherwise.
    pub open spec fn resized(self, width: u32, height: u32) -> SurfaceConfig {
        if presentable(width, height) {
            SurfaceConfig { width, height, format: self.format }
        } else {
            self
        }
    }

    /// Derives the configuration for a surface of the given size, or `None`
    /// when a dimension is zero.
    pub fn new(width: u32, height: u32, format: PixelFormat) -> (config: Option<SurfaceConfig>)
        ensures
            presentable(width, height) ==> config == Some(
                (SurfaceConfig { width, height, format }),
            ),
            !presentable(width, height) ==> config.is_none(),
            config.is_some() ==> config.unwrap().wf(),
    {
        if 0 < width && 0 < height {
            Some(SurfaceConfig { width, height, format })
        } else {
            None
        }
    }

    /// Takes over the dimensions of a resize event, unless one is zero.
    /// Returns whether the configuration changed hands and has to be applied
    /// to the surface again.
    pub fn resize(&mut self, width: u32, height: u32) -> (applied: bool)
        ensures
            *final(self) == old(self).resized(width, height),
            applied == presentable(width, height),
            old(self).wf() ==> final(self).wf(),
    {
        if 0 < width && 0 < height {
            self.width = width;
            self.height = height;
            true
        } else {
            false
        }
    }
}

/// What asking the surface for its next frame came to.
#[derive(Clone, Copy, Debug, PartialEq, Eq, Structural)]
pub enum Acquired {
    /// A frame is there to draw into.
    Frame,
    /// The surface was lost.
    Lost,
    /// The surface no longer fits the window.
    Outdated,
    /// No frame came in time.
    Timeout,
    /// The device is out of memory.
    OutOfMemory,
}

/// What to do about a frame once the surface has answered.
#[derive(Clone, Copy, Debug, PartialEq, Eq, Structural)]
pub enum FrameStep {
    /// Record the passes into the frame, submit and present.
    Render,
    /// Configure the surface again with the current configuration, then ask
    /// for the frame once more.
    Reconfigure,
    /// Give up: the failure is fatal.
    Fail,
}

impl Acquired {
    /// A failure that configuring the surface again may cure.
    pub open spec fn transient(self) -> bool {
        self is Lost || self is Outdated
    }
}

/// The step to take after `retries` earlier attempts at this frame, of which
/// at most `limit` are allowed: a frame is rendered; a transient failure is
/// retried after configuring the surface again, until the limit is reached;
/// anything else is fatal.
pub open spec fn frame_step(acquired: Acquired, retries: u32, limit: u32) -> FrameStep {
    if acquired is Frame {
        FrameStep::Render
    } else if acquired.transient() && retries < limit {
        FrameStep::Reconfigure
    } else {
        FrameStep::Fail
    }
}

/// Decides how to go on with a frame after the surface has answered.
pub fn next_frame_step(acquired: Acquired, retries: u32, limit: u32) -> (step: FrameStep)
    ensures
        step == frame_step(acquired, retries, limit),
{
    match acquired {
        Acquired::Frame => FrameStep::Render,
        Acquired::Lost | Acquired::Outdated => if retries < limit {
            FrameStep::Reconfigure
        } else {
            FrameStep::Fail
        },
        Acquired::Timeout | Acquired::OutOfMemory => FrameStep::Fail,
    }
}

} // verus!
