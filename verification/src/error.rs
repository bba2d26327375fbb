use vstd::prelude::*;

verus! {

/// Conditions under which the application cannot start.
#[derive(Clone, Copy, Debug, PartialEq, Eq, Structural)]
pub enum FatalError {
    /// No GPU adapter is compatible with the window's surface.
    NoAdapter,
    /// The adapter did not hand out a device and queue.
    NoDevice,
    /// No valid surface configuration could be derived for the window.
    SurfaceConfig,
    /// The picture directory could not be read.
    UnreadableDirectory,
    /// The picture directory holds no usable picture.
    NoPictures,
    /// The surface handed out no frame, also after it was configured again.
    Presentation,
}

/// Exit code of a run that ended with a close request.
pub const EXIT_OK: i32 = 0;

/// Exit code of a run that ended with a [`FatalError`].
pub const EXIT_FATAL: i32 = 1;

/// How often the surface is configured again for one frame before a failure
/// to hand out the frame counts as fatal.
pub const FRAME_RETRIES: u32 = 1;

impl FatalError {
    /// The process exit code for this error; never zero.
    pub fn exit_code(&self) -> (code: i32)
        ensures
            code == EXIT_FATAL,
            code != EXIT_OK,
    {
        EXIT_FATAL
    }
}

} // verus!
