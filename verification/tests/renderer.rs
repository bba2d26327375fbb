use picture_frame::error::FatalError;
use picture_frame::renderer::{picture_bytes, Pass, PictureLayer, Renderer, TextLayer};
use picture_frame::surface::{next_frame_step, Acquired, FrameStep, PixelFormat, SurfaceConfig};

fn small_renderer() -> Renderer {
    Renderer::new(7, 800, 480, Some(PixelFormat::Bgra8UnormSrgb), 2, 3).unwrap()
}

fn ramp(len: usize, start: u8) -> Vec<u8> {
    (0..len).map(|i| start.wrapping_add(i as u8)).collect()
}

#[test]
fn picture_bytes_of_default_size() {
    assert_eq!(picture_bytes(800, 480), Some(1_536_000));
    assert_eq!(picture_bytes(2, 3), Some(24));
    assert_eq!(picture_bytes(1, 1), Some(4));
}

#[test]
fn picture_bytes_of_empty_picture() {
    assert_eq!(picture_bytes(0, 480), Some(0));
    assert_eq!(picture_bytes(800, 0), Some(0));
}

#[test]
fn picture_bytes_beyond_address_space() {
    assert_eq!(picture_bytes(u32::MAX, u32::MAX), None);
}

#[test]
fn new_derives_config_from_window_size() {
    let renderer = small_renderer();
    assert_eq!(
        renderer.config,
        SurfaceConfig { width: 800, height: 480, format: PixelFormat::Bgra8UnormSrgb }
    );
    assert_eq!(renderer.window, 7);
}

#[test]
fn new_sizes_picture_layer_independently_of_window() {
    let renderer = small_renderer();
    assert_eq!(renderer.picture.width, 2);
    assert_eq!(renderer.picture.height, 3);
    assert_eq!(renderer.picture.format, PixelFormat::Bgra8UnormSrgb);
    assert_eq!(renderer.picture.texture, vec![0u8; 24]);
}

#[test]
fn new_sizes_text_layer_to_window() {
    let renderer = small_renderer();
    assert_eq!(
        renderer.text,
        TextLayer { format: PixelFormat::Bgra8UnormSrgb, width: 800, height: 480 }
    );
}

#[test]
fn new_fails_on_zero_width() {
    let made = Renderer::new(1, 0, 480, Some(PixelFormat::Rgba8Unorm), 2, 2);
    assert_eq!(made.err(), Some(FatalError::SurfaceConfig));
}

#[test]
fn new_fails_on_zero_height() {
    let made = Renderer::new(1, 800, 0, Some(PixelFormat::Rgba8Unorm), 2, 2);
    assert_eq!(made.err(), Some(FatalError::SurfaceConfig));
}

#[test]
fn new_fails_without_surface_format() {
    let made = Renderer::new(1, 800, 480, None, 2, 2);
    assert_eq!(made.err(), Some(FatalError::SurfaceConfig));
}

#[test]
fn surface_config_rejects_zero_dimensions() {
    assert_eq!(SurfaceConfig::new(0, 0, PixelFormat::Rgba8Unorm), None);
    assert_eq!(SurfaceConfig::new(0, 5, PixelFormat::Rgba8Unorm), None);
    assert_eq!(SurfaceConfig::new(5, 0, PixelFormat::Rgba8Unorm), None);
    assert_eq!(
        SurfaceConfig::new(5, 6, PixelFormat::Rgba8Unorm),
        Some(SurfaceConfig { width: 5, height: 6, format: PixelFormat::Rgba8Unorm })
    );
}

#[test]
fn surface_config_resize_reports_whether_applied() {
    let mut config = SurfaceConfig::new(5, 6, PixelFormat::Rgba16Float).unwrap();
    assert!(!config.resize(0, 9));
    assert_eq!((config.width, config.height), (5, 6));
    assert!(config.resize(9, 1));
    assert_eq!((config.width, config.height), (9, 1));
    assert_eq!(config.format, PixelFormat::Rgba16Float);
}

#[test]
fn set_picture_then_draw_shows_exactly_those_bytes() {
    let mut renderer = small_renderer();
    let first = ramp(24, 1);
    let second = ramp(24, 100);
    renderer.set_picture(&first);
    assert_eq!(renderer.draw().picture, &first[..]);
    renderer.set_picture(&second);
    let frame = renderer.draw();
    assert_eq!(frame.picture, &second[..]);
    assert_ne!(frame.picture, &first[..]);
}

#[test]
fn set_picture_leaves_the_rest_alone() {
    let mut renderer = small_renderer();
    renderer.set_picture(&ramp(24, 9));
    assert_eq!(renderer.window, 7);
    assert_eq!((renderer.config.width, renderer.config.height), (800, 480));
    assert_eq!((renderer.text.width, renderer.text.height), (800, 480));
    assert_eq!((renderer.picture.width, renderer.picture.height), (2, 3));
}

#[test]
fn draw_records_picture_pass_then_text_pass() {
    let renderer = small_renderer();
    let frame = renderer.draw();
    assert_eq!(frame.passes, vec![Pass::Picture, Pass::Text]);
    assert_eq!((frame.width, frame.height), (800, 480));
}

#[test]
fn draw_before_any_upload_shows_blank_texture() {
    let renderer = small_renderer();
    assert_eq!(renderer.draw().picture, &[0u8; 24][..]);
}

#[test]
fn draw_twice_shows_the_same_picture() {
    let mut renderer = small_renderer();
    let data = ramp(24, 42);
    renderer.set_picture(&data);
    assert_eq!(renderer.draw().picture, &data[..]);
    assert_eq!(renderer.draw().picture, &data[..]);
}

#[test]
fn resize_with_zero_dimension_changes_nothing() {
    for (width, height) in [(0u32, 0u32), (0, 480), (640, 0)] {
        let mut renderer = small_renderer();
        let before = renderer.config;
        let text = renderer.text;
        assert!(!renderer.resize(width, height));
        assert_eq!(renderer.config, before);
        assert_eq!(renderer.text, text);
    }
}

#[test]
fn resize_with_positive_dimensions_is_applied() {
    let mut renderer = small_renderer();
    renderer.set_picture(&ramp(24, 3));
    assert!(renderer.resize(1024, 600));
    assert_eq!(
        renderer.config,
        SurfaceConfig { width: 1024, height: 600, format: PixelFormat::Bgra8UnormSrgb }
    );
    assert_eq!(
        renderer.text,
        TextLayer { format: PixelFormat::Bgra8UnormSrgb, width: 1024, height: 600 }
    );
    assert_eq!((renderer.picture.width, renderer.picture.height), (2, 3));
    assert_eq!(renderer.picture.texture, ramp(24, 3));
    assert_eq!((renderer.draw().width, renderer.draw().height), (1024, 600));
}

#[test]
fn resize_zero_then_positive_ends_at_positive() {
    let mut renderer = small_renderer();
    renderer.resize(0, 0);
    assert_ne!((renderer.config.width, renderer.config.height), (0, 0));
    renderer.resize(640, 480);
    assert_eq!((renderer.config.width, renderer.config.height), (640, 480));
}

#[test]
fn match_window_compares_identity() {
    let renderer = small_renderer();
    assert!(renderer.match_window(7));
    assert!(!renderer.match_window(8));
    assert_eq!(renderer.request_redraw(), 7);
}

#[test]
fn picture_layer_upload_replaces_content() {
    let mut layer = PictureLayer::new(PixelFormat::Rgba8Unorm, 1, 2);
    assert_eq!(layer.texture, vec![0u8; 8]);
    layer.set_picture(&[1, 2, 3, 4, 5, 6, 7, 8]);
    assert_eq!(layer.texture, vec![1, 2, 3, 4, 5, 6, 7, 8]);
    assert_eq!((layer.width, layer.height), (1, 2));
}

#[test]
fn text_layer_resize_keeps_format() {
    let mut layer = TextLayer::new(PixelFormat::Rgb10a2Unorm, 10, 20);
    layer.resize(30, 40);
    assert_eq!(layer, TextLayer { format: PixelFormat::Rgb10a2Unorm, width: 30, height: 40 });
}

#[test]
fn fatal_errors_exit_nonzero() {
    for error in [
        FatalError::NoAdapter,
        FatalError::NoDevice,
        FatalError::SurfaceConfig,
        FatalError::UnreadableDirectory,
        FatalError::NoPictures,
        FatalError::Presentation,
    ] {
        assert_ne!(error.exit_code(), 0);
    }
    assert_eq!(picture_frame::error::EXIT_OK, 0);
}

#[test]
fn acquired_frame_is_rendered() {
    assert_eq!(next_frame_step(Acquired::Frame, 0, 1), FrameStep::Render);
    assert_eq!(next_frame_step(Acquired::Frame, 1, 1), FrameStep::Render);
    assert_eq!(next_frame_step(Acquired::Frame, 5, 0), FrameStep::Render);
}

#[test]
fn transient_failure_is_retried_up_to_the_limit() {
    for acquired in [Acquired::Lost, Acquired::Outdated] {
        assert_eq!(next_frame_step(acquired, 0, 1), FrameStep::Reconfigure);
        assert_eq!(next_frame_step(acquired, 1, 1), FrameStep::Fail);
        assert_eq!(next_frame_step(acquired, 2, 3), FrameStep::Reconfigure);
        assert_eq!(next_frame_step(acquired, 3, 3), FrameStep::Fail);
        assert_eq!(next_frame_step(acquired, 0, 0), FrameStep::Fail);
    }
}

#[test]
fn other_failures_are_fatal_at_once() {
    for acquired in [Acquired::Timeout, Acquired::OutOfMemory] {
        assert_eq!(next_frame_step(acquired, 0, 1), FrameStep::Fail);
        assert_eq!(next_frame_step(acquired, 0, u32::MAX), FrameStep::Fail);
    }
}

#[test]
fn one_retry_per_frame() {
    assert_eq!(picture_frame::error::FRAME_RETRIES, 1);
}
