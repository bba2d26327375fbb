use crate::error::FatalError;
use crate::surface::{presentable, PixelFormat, SurfaceConfig};
use vstd::prelude::*;
use vstd::slice::slice_to_vec;

verus! {

/// Identity of a window, as the window system numbers it.
pub type WindowId = u64;

/// Bytes in one RGBA8 picture of the given dimensions.
pub open spec fn byte_len(width: u32, height: u32) -> int {
    width * height * 4
}

/// Bytes in one RGBA8 picture of the given dimensions, or `None` where that
/// many bytes cannot be addressed.
pub fn picture_bytes(width: u32, height: u32) -> (len: Option<usize>)
    ensures
        byte_len(width, height) <= usize::MAX ==> len == Some(byte_len(width, height) as usize),
        byte_len(width, height) > usize::MAX ==> len.is_none(),
{
    let wide: u128 = width as u128;
    let high: u128 = height as u128;
    assert(wide * high * 4 <= 0x1_0000_0000 * 0x1_0000_0000 * 4) by (nonlinear_arith)
        requires
            0 <= wide <= 0x1_0000_0000,
            0 <= high <= 0x1_0000_0000,
    ;
    let bytes: u128 = wide * high * 4;
    if bytes <= usize::MAX as u128 {
        Some(bytes as usize)
    } else {
        None
    }
}

/// The draw unit for the background picture: a texture of fixed dimensions,
/// which never follow the window's, and the bytes last uploaded to it.
#[derive(Debug)]
pub struct PictureLayer {
    pub format: PixelFormat,
    pub width: u32,
    pub height: u32,
    pub texture: Vec<u8>,
}

impl PictureLayer {
    /// The texture holds exactly one picture of the layer's dimensions.
    pub open spec fn wf(&self) -> bool {
        self.texture@.len() == byte_len(self.width, self.height)
    }

    /// A layer with a blank (all-zero) texture.
    pub fn new(format: PixelFormat, width: u32, height: u32) -> (layer: PictureLayer)
        requires
            byte_len(width, height) <= usize::MAX,
        ensures
            layer.wf(),
            layer.format == format,
            layer.width == width,
            layer.height == height,
            forall|i: int| 0 <= i < layer.texture@.len() ==> layer.texture@[i] == 0u8,
    {
        let len: usize = picture_bytes(width, height).unwrap();
        let mut texture: Vec<u8> = Vec::new();
        let mut filled: usize = 0;
        while filled < len
            invariant
                filled <= len,
                texture@.len() == filled,
                forall|i: int| 0 <= i < texture@.len() ==> texture@[i] == 0u8,
            decreases len - filled,
        {
            texture.push(0u8);
            filled = filled + 1;
        }
        PictureLayer { format, width, height, texture }
    }

    /// Replaces the texture's content with `data`, byte for byte.
    pub fn set_picture(&mut self, data: &[u8])
        requires
            data@.len() == byte_len(old(self).width, old(self).height),
        ensures
            final(self).texture@ == data@,
            final(self).format == old(self).format,
            final(self).width == old(self).width,
            final(self).height == old(self).height,
            final(self).wf(),
    {
        self.texture = slice_to_vec(data);
    }
}

/// The draw unit for the text overlay, laid out for the window's dimensions.
#[derive(Clone, Copy, Debug, PartialEq, Eq, Structural)]
pub struct TextLayer {
    pub format: PixelFormat,
    pub width: u32,
    pub height: u32,
}

impl TextLayer {
    /// An overlay laid out for a view of the given size.
    pub fn new(format: PixelFormat, width: u32, height: u32) -> (layer: TextLayer)
        ensures
            layer == (TextLayer { format, width, height }),
    {
        TextLayer { format, width, height }
    }

    /// Lays the overlay out for new window dimensions.
    pub fn resize(&mut self, width: u32, height: u32)
        ensures
            *final(self) == (TextLayer { format: old(self).format, width, height }),
    {
        self.width = width;
        self.height = height;
    }
}

/// One render pass of a frame.
#[derive(Clone, Copy, Debug, PartialEq, Eq, Structural)]
pub enum Pass {
    /// The picture layer fills the frame with its texture.
    Picture,
    /// The text layer draws the overlay on top of what the frame holds.
    Text,
}

/// What one call of [`Renderer::draw`] submits and presents.
#[derive(Debug)]
pub struct Frame<'a> {
    /// The passes of the frame, in the order in which they are recorded.
    pub passes: Vec<Pass>,
    /// The picture that the picture pass shows.
    pub picture: &'a [u8],
    /// Dimensions of the view that both passes draw into.
    pub width: u32,
    pub height: u32,
}

/// The passes of every frame: the picture first, the overlay second.
pub open spec fn frame_passes() -> Seq<Pass> {
    seq![Pass::Picture, Pass::Text]
}

/// Owner of the surface configuration and of both draw layers.
#[derive(Debug)]
pub struct Renderer {
    pub window: WindowId,
    pub config: SurfaceConfig,
    pub picture: PictureLayer,
    pub text: TextLayer,
}

impl Renderer {
    /// The configuration is presentable, the picture layer holds one picture,
    /// the overlay is laid out for the configured size, and both layers draw
    /// in the surface's format.
    pub open spec fn wf(&self) -> bool {
        &&& self.config.wf()
        &&& self.picture.wf()
        &&& self.picture.format == self.config.format
        &&& self.text == (TextLayer {
            format: self.config.format,
            width: self.config.width,
            height: self.config.height,
        })
    }

    /// What `set_picture` with `data` makes of `self`: the picture layer holds
    /// `data`, and nothing else differs.
    pub open spec fn uploaded(&self, after: &Renderer, data: Seq<u8>) -> bool {
        &&& after.picture.texture@ == data
        &&& after.picture.format == self.picture.format
        &&& after.picture.width == self.picture.width
        &&& after.picture.height == self.picture.height
        &&& after.window == self.window
        &&& after.config == self.config
        &&& after.text == self.text
    }

    /// What `draw` submits: one picture pass, then one text pass, into a view
    /// of the configured size, showing the picture layer's texture.
    pub open spec fn draws(&self, frame: &Frame) -> bool {
        &&& frame.passes@ == frame_passes()
        &&& frame.picture@ == self.picture.texture@
        &&& frame.width == self.config.width
        &&& frame.height == self.config.height
    }

    /// What `resize` makes of `self`: with two positive dimensions the
    /// configuration and the overlay take them over; otherwise nothing
    /// changes. The picture layer stays as it is either way.
    pub open spec fn resized(&self, after: &Renderer, width: u32, height: u32) -> bool {
        &&& after.config == self.config.resized(width, height)
        &&& after.text == if presentable(width, height) {
            TextLayer { format: self.text.format, width, height }
        } else {
            self.text
        }
        &&& after.picture == self.picture
        &&& after.window == self.window
    }

    /// Sets up the renderer for a window of the given physical size: derives
    /// the surface configuration, and builds the picture layer for the
    /// picture dimensions and the overlay for the window's.
    ///
    /// `format` is the surface's preferred format, `None` where the surface
    /// offers none. Fails where no configuration can be derived.
    pub fn new(
        window: WindowId,
        width: u32,
        height: u32,
        format: Option<PixelFormat>,
        picture_width: u32,
        picture_height: u32,
    ) -> (made: Result<Renderer, FatalError>)
        requires
            byte_len(picture_width, picture_height) <= usize::MAX,
        ensures
            made.is_ok() <==> presentable(width, height) && format.is_some(),
            made.is_err() ==> made == Err::<Renderer, FatalError>(FatalError::SurfaceConfig),
            made.is_ok() ==> {
                let renderer = made.unwrap();
                &&& renderer.wf()
                &&& renderer.window == window
                &&& renderer.config == (SurfaceConfig { width, height, format: format.unwrap() })
                &&& renderer.picture.width == picture_width
                &&& renderer.picture.height == picture_height
                &&& forall|i: int|
                    0 <= i < renderer.picture.texture@.len() ==> renderer.picture.texture@[i]
                        == 0u8
            },
    {
        let format = match format {
            Some(format) => format,
            None => { return Err(FatalError::SurfaceConfig); },
        };
        let config = match SurfaceConfig::new(width, height, format) {
            Some(config) => config,
            None => { return Err(FatalError::SurfaceConfig); },
        };
        let picture = PictureLayer::new(config.format, picture_width, picture_height);
        let text = TextLayer::new(config.format, config.width, config.height);
        Ok(Renderer { window, config, picture, text })
    }

    /// The window in which a redraw is to be scheduled.
    pub fn request_redraw(&self) -> (window: WindowId)
        ensures
            window == self.window,
    {
        self.window
    }

    /// Composes one frame: the picture pass, then the text pass on top.
    pub fn draw(&self) -> (frame: Frame<'_>)
        ensures
            self.draws(&frame),
    {
        let mut passes: Vec<Pass> = Vec::new();
        passes.push(Pass::Picture);
        passes.push(Pass::Text);
        assert(passes@ =~= frame_passes());
        Frame {
            passes,
            picture: self.picture.texture.as_slice(),
            width: self.config.width,
            height: self.config.height,
        }
    }

    /// Uploads `data` to the picture layer. It shows from the next frame on.
    pub fn set_picture(&mut self, data: &[u8])
        requires
            old(self).wf(),
            data@.len() == byte_len(old(self).picture.width, old(self).picture.height),
        ensures
            old(self).uploaded(final(self), data@),
            final(self).wf(),
    {
        self.picture.set_picture(data);
    }

    /// Reacts to a new window size. Returns whether the surface has to be
    /// configured again; a size with a zero dimension is passed over.
    pub fn resize(&mut self, width: u32, height: u32) -> (applied: bool)
        requires
            old(self).wf(),
        ensures
            old(self).resized(final(self), width, height),
            applied == presentable(width, height),
            final(self).wf(),
    {
        let applied = self.config.resize(width, height);
        if applied {
            self.text.resize(width, height);
        }
        applied
    }

    /// Whether an event for `window` is this renderer's to handle.
    pub fn match_window(&self, window: WindowId) -> (same: bool)
        ensures
            same == (self.window == window),
    {
        self.window == window
    }
}

/// A picture that was set is the picture the next frame shows, and no other.
pub proof fn set_picture_then_draw(
    before: Renderer,
    after: Renderer,
    data: Seq<u8>,
    frame: Frame,
)
    requires
        before.uploaded(&after, data),
        after.draws(&frame),
    ensures
        frame.picture@ == data,
        frame.passes@ == frame_passes(),
{
}

/// A resize event with a zero dimension leaves the renderer as it was.
pub proof fn zero_resize_changes_nothing(
    before: Renderer,
    after: Renderer,
    width: u32,
    height: u32,
)
    requires
        before.resized(&after, width, height),
        width == 0 || height == 0,
    ensures
        after == before,
{
}

/// A resize event with two positive dimensions sets the configuration and the
/// overlay to exactly those, and leaves the picture layer alone.
pub proof fn positive_resize_is_applied(
    before: Renderer,
    after: Renderer,
    width: u32,
    height: u32,
)
    requires
        before.wf(),
        before.resized(&after, width, height),
        width > 0,
        height > 0,
    ensures
        after.config.width == width,
        after.config.height == height,
        after.config.format == before.config.format,
        after.text.width == width,
        after.text.height == height,
        after.picture == before.picture,
        after.wf(),
{
}

/// Of two resize events in a row, the second with positive dimensions, the
/// configuration ends at the second's, whatever the first held.
pub proof fn last_positive_resize_wins(
    start: SurfaceConfig,
    first: (u32, u32),
    second: (u32, u32),
)
    requires
        start.wf(),
        presentable(second.0, second.1),
    ensures
        start.resized(first.0, first.1).wf(),
        start.resized(first.0, first.1).resized(second.0, second.1) == (SurfaceConfig {
            width: second.0,
            height: second.1,
            format: start.format,
        }),
{
}

} // verus!
