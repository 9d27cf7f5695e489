use voxel_renderer::input::{AppState, EventAction, InputEvent, Key};
use voxel_renderer::pipeline::{
    buffer_size, frame_settings, image_view_settings, layout_transition, pipeline_settings,
    AccessMask, CompareOp, CullMode, FrameAccess, FrameImage, FrameStage, FrontFace, ImageAspect,
    ImageLayout, LoadOp, PipelineStage, PolygonMode, PrimitiveTopology, StoreOp,
};
use voxel_renderer::renderer::ShaderType;
use voxel_renderer::spirv::spv_words;
use voxel_renderer::swapchain::Extent2D;
use voxel_renderer::texture::{
    is_texture_extension, load_texture, select_texture_paths, str_le, texture_upload_size,
    TextureCandidate, TextureError,
};
use voxel_renderer::timing::{append_decimal, log_step, step_message};

#[test]
fn spirv_words_are_little_endian_and_drop_the_tail() {
    let bytes = [0x03, 0x02, 0x23, 0x07, 0x00, 0x00, 0x01, 0x00, 0xff];
    assert_eq!(spv_words(&bytes), vec![0x0723_0203, 0x0001_0000]);
    assert_eq!(spv_words(&[1, 2, 3]), Vec::<u32>::new());
    assert_eq!(spv_words(&[0xff, 0xff, 0xff, 0xff]), vec![u32::MAX]);
}

fn candidate(path: &str, is_file: bool, extension: Option<&str>) -> TextureCandidate {
    TextureCandidate {
        path: path.to_string(),
        is_file,
        extension: extension.map(|e| e.to_string()),
    }
}

#[test]
fn texture_extensions_ignore_case() {
    for e in ["png", "PNG", "Jpg", "jpeg", "JPEG"] {
        assert!(is_texture_extension(e), "{e}");
    }
    for e in ["", "jpe", "pngg", "gif", "tga", "jpég"] {
        assert!(!is_texture_extension(e), "{e}");
    }
}

#[test]
fn textures_are_files_with_image_extensions_sorted() {
    let candidates = vec![
        candidate("textures/stone.PNG", true, Some("PNG")),
        candidate("textures/dir.png", false, Some("png")),
        candidate("textures/readme.txt", true, Some("txt")),
        candidate("textures/Grass.jpg", true, Some("jpg")),
        candidate("textures/noext", true, None),
        candidate("textures/dirt.jpeg", true, Some("jpeg")),
    ];
    let paths = select_texture_paths(&candidates, "textures").unwrap();
    assert_eq!(
        paths,
        vec![
            "textures/Grass.jpg".to_string(),
            "textures/dirt.jpeg".to_string(),
            "textures/stone.PNG".to_string(),
        ]
    );
    let mut expected = paths.clone();
    expected.sort();
    assert_eq!(paths, expected);
}

#[test]
fn no_texture_is_an_error_naming_the_directory() {
    let candidates = vec![candidate("textures/a.txt", true, Some("txt"))];
    match select_texture_paths(&candidates, "textures") {
        Err(TextureError::NoTexturesFound(dir)) => assert_eq!(dir, "textures"),
        Ok(_) => panic!("expected an error"),
    }
}

#[test]
fn string_order_is_strings_order() {
    let words = ["", "a", "ab", "b", "B", "é", "z", "ba"];
    for a in words {
        for b in words {
            assert_eq!(str_le(a, b), a <= b, "{a} {b}");
        }
    }
}

#[test]
fn texture_upload_sizes() {
    assert_eq!(texture_upload_size(16, 16, &vec![0; 1024]), Some(1024));
    assert_eq!(texture_upload_size(0, 5, &vec![]), Some(0));
    assert_eq!(texture_upload_size(16, 16, &vec![0; 1023]), None);
    assert_eq!(texture_upload_size(65536, 16384, &vec![]), None);
    assert_eq!(texture_upload_size(u32::MAX, 2, &vec![]), None);
}

fn png_bytes() -> Vec<u8> {
    // Two pixels wide, two high: the top row red and green, the bottom row
    // blue and white.
    let mut img = image::RgbaImage::new(2, 2);
    img.put_pixel(0, 0, image::Rgba([255, 0, 0, 255]));
    img.put_pixel(1, 0, image::Rgba([0, 255, 0, 255]));
    img.put_pixel(0, 1, image::Rgba([0, 0, 255, 255]));
    img.put_pixel(1, 1, image::Rgba([255, 255, 255, 128]));
    let mut bytes = Vec::new();
    image::DynamicImage::ImageRgba8(img)
        .write_to(&mut std::io::Cursor::new(&mut bytes), image::ImageFormat::Png)
        .unwrap();
    bytes
}

#[test]
fn textures_decode_flipped_to_rgba8() {
    let bytes = png_bytes();
    let texture = load_texture(&bytes, "png").unwrap();
    assert_eq!((texture.width, texture.height), (2, 2));
    assert_eq!(texture.size, 16);
    assert_eq!(
        texture.pixels,
        vec![0, 0, 255, 255, 255, 255, 255, 128, 255, 0, 0, 255, 0, 255, 0, 255]
    );
    assert_eq!(load_texture(&bytes, "PNG").unwrap().pixels, texture.pixels);
}

#[test]
fn textures_that_do_not_decode_are_refused() {
    let bytes = png_bytes();
    assert!(load_texture(&bytes, "txt").is_none());
    assert!(load_texture(&bytes, "").is_none());
    assert!(load_texture(&bytes[..10], "png").is_none());
    assert!(load_texture(&bytes, "jpg").is_none());
}

#[test]
fn step_messages() {
    assert_eq!(step_message("SDL3 intialized", 12, 340), "SDL3 intialized: +12ms (total 340ms)");
    assert_eq!(step_message("x", 0, u128::MAX), format!("x: +0ms (total {}ms)", u128::MAX));
    let mut s = String::from("n=");
    append_decimal(&mut s, 1_000_007);
    assert_eq!(s, "n=1000007");
}

#[test]
fn log_step_moves_last_and_reports() {
    let start = std::time::Instant::now();
    let mut last = start;
    let message = log_step(start, &mut last, "Window created");
    assert!(message.starts_with("Window created: +"));
    assert!(message.ends_with("ms)"));
    assert!(message.contains("ms (total "));
    assert!(last >= start);
}

#[test]
fn events_drive_the_main_loop() {
    let mut state = AppState::new();
    assert!(state.running && !state.wireframe);
    let one = InputEvent::KeyDown { key: Key::Num1, repeat: false };
    assert_eq!(state.handle_event(&one), EventAction::Nothing);
    assert!(state.wireframe);
    state.handle_event(&InputEvent::KeyDown { key: Key::Num1, repeat: true });
    assert!(state.wireframe);
    state.handle_event(&one);
    assert!(!state.wireframe);
    assert_eq!(state.handle_event(&InputEvent::MouseMotion), EventAction::Look);
    assert_eq!(
        state.handle_event(&InputEvent::WindowResized { width: 640, height: 480 }),
        EventAction::Resize(Extent2D { width: 640, height: 480 })
    );
    assert!(state.running);
    state.handle_event(&InputEvent::KeyDown { key: Key::Escape, repeat: true });
    assert!(state.running);
    state.handle_event(&InputEvent::KeyDown { key: Key::Escape, repeat: false });
    assert!(!state.running);
    let mut state = AppState::new();
    state.handle_event(&InputEvent::Quit);
    assert!(!state.running);
}

#[test]
fn pipeline_settings_follow_shader_and_wireframe() {
    let s = pipeline_settings(ShaderType::Color, false, 4, 212);
    assert_eq!(s.polygon_mode, PolygonMode::Fill);
    assert_eq!(s.vertex_attribute_count, 2);
    assert_eq!(s.shader_data_buffer_size, 212 * 512);
    let s = pipeline_settings(ShaderType::BasicBlockOutlineColor, true, 4, 212);
    assert_eq!(s.polygon_mode, PolygonMode::Line);
    assert_eq!(s.vertex_attribute_count, 4);
    assert_eq!(buffer_size(36, 44), 1584);
    let filled = pipeline_settings(ShaderType::BasicBlockOutlineColor, false, 4, 212);
    assert_eq!(
        s,
        voxel_renderer::pipeline::PipelineSettings { polygon_mode: PolygonMode::Line, ..filled }
    );
    assert_eq!(filled.topology, PrimitiveTopology::TriangleList);
    assert_eq!(filled.cull_mode, CullMode::Front);
    assert_eq!(filled.front_face, FrontFace::CounterClockwise);
    assert!(filled.depth_test && filled.depth_write && !filled.blend);
    assert_eq!(filled.depth_compare, CompareOp::Less);
    assert!(filled.dynamic_viewport && filled.dynamic_scissor);
    assert!(filled.write_red && filled.write_green && filled.write_blue && filled.write_alpha);
}

#[test]
fn frames_clear_render_and_present() {
    let f = frame_settings();
    assert_eq!(f.color_barrier.image, FrameImage::SwapchainImage);
    assert_eq!(f.color_barrier.old_layout, ImageLayout::Undefined);
    assert_eq!(f.color_barrier.new_layout, ImageLayout::ColorAttachmentOptimal);
    assert_eq!(f.color_barrier.dst_access, FrameAccess::ColorAttachmentWrite);
    assert_eq!(f.depth_barrier.new_layout, ImageLayout::DepthAttachmentOptimal);
    assert_eq!(f.depth_barrier.src_stage, FrameStage::FragmentTests);
    assert_eq!(f.depth_barrier.aspect, ImageAspect::Depth);
    assert_eq!(f.color_attachment.load_op, LoadOp::Clear);
    assert_eq!(f.color_attachment.store_op, StoreOp::Store);
    assert_eq!(f.depth_attachment.store_op, StoreOp::DontCare);
    assert_eq!((f.clear_red, f.clear_green, f.clear_blue, f.clear_alpha), (0, 0, 0, 1));
    assert_eq!((f.clear_depth, f.clear_stencil), (1, 0));
    assert_eq!(f.present_barrier.old_layout, ImageLayout::ColorAttachmentOptimal);
    assert_eq!(f.present_barrier.new_layout, ImageLayout::PresentSrc);
    assert_eq!(f.present_barrier.dst_stage, FrameStage::BottomOfPipe);
    assert_eq!(f.wait_stage, FrameStage::ColorAttachmentOutput);
}

#[test]
fn image_views_cover_one_level_and_layer() {
    let v = image_view_settings(50, ImageAspect::Color);
    assert_eq!(v.format, 50);
    assert_eq!(v.aspect, ImageAspect::Color);
    assert!(v.two_dimensional && v.identity_swizzle);
    assert_eq!((v.base_mip_level, v.level_count, v.base_array_layer, v.layer_count), (0, 1, 0, 1));
}

#[test]
fn layout_transitions_for_texture_uploads() {
    let t = layout_transition(ImageLayout::Undefined, ImageLayout::TransferDstOptimal).unwrap();
    assert_eq!(t.src_access, AccessMask::NoAccess);
    assert_eq!(t.dst_access, AccessMask::TransferWrite);
    assert_eq!(t.src_stage, PipelineStage::TopOfPipe);
    assert_eq!(t.dst_stage, PipelineStage::Transfer);
    let t = layout_transition(ImageLayout::TransferDstOptimal, ImageLayout::ShaderReadOnlyOptimal)
        .unwrap();
    assert_eq!(t.src_access, AccessMask::TransferWrite);
    assert_eq!(t.dst_access, AccessMask::ShaderRead);
    assert_eq!(t.src_stage, PipelineStage::Transfer);
    assert_eq!(t.dst_stage, PipelineStage::FragmentShader);
    assert!(layout_transition(ImageLayout::Undefined, ImageLayout::ShaderReadOnlyOptimal).is_none());
    assert!(layout_transition(ImageLayout::ColorAttachmentOptimal, ImageLayout::PresentSrc).is_none());
}

#[test]
fn texture_list_ignores_directory_order() {
    let names = ["b.png", "a.JPG", "c.txt", "a.jpeg", "B.png"];
    let forward: Vec<TextureCandidate> = names
        .iter()
        .map(|n| candidate(n, true, n.rsplit('.').next()))
        .collect();
    let backward: Vec<TextureCandidate> = names
        .iter()
        .rev()
        .map(|n| candidate(n, true, n.rsplit('.').next()))
        .collect();
    let a = select_texture_paths(&forward, "t").unwrap();
    let b = select_texture_paths(&backward, "t").unwrap();
    assert_eq!(a, b);
    assert_eq!(a, vec!["B.png", "a.JPG", "a.jpeg", "b.png"]);
}

#[test]
fn a_stopped_loop_stays_stopped() {
    let mut state = AppState::new();
    state.handle_event(&InputEvent::Quit);
    for event in [
        InputEvent::Quit,
        InputEvent::KeyDown { key: Key::Num1, repeat: false },
        InputEvent::KeyDown { key: Key::Other, repeat: false },
        InputEvent::MouseMotion,
        InputEvent::WindowResized { width: 1, height: 1 },
        InputEvent::Other,
    ] {
        state.handle_event(&event);
        assert!(!state.running);
    }
}

#[test]
fn negative_resize_sizes_wrap_like_casts() {
    let mut state = AppState::new();
    assert_eq!(
        state.handle_event(&InputEvent::WindowResized { width: -1, height: 2 }),
        EventAction::Resize(Extent2D { width: u32::MAX, height: 2 })
    );
}
