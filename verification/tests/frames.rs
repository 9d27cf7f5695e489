use voxel_renderer::renderer::{
    next_frame_index, AllocatedBuffer, DrawCommand, Mesh, Renderable, Renderer, ShaderInput,
    ShaderType, FRAMES_IN_FLIGHT, MAX_RENDERABLES_PER_FRAME,
};
use voxel_renderer::swapchain::{
    choose_swapchain_config, Extent2D, PresentMode, SurfaceCapabilities, SurfaceFormat, Swapchain,
};
use voxel_renderer::sync_objects::{sync_object_counts, SyncObjects};

fn capabilities(width: u32, height: u32) -> SurfaceCapabilities {
    SurfaceCapabilities {
        min_image_count: 2,
        max_image_count: 8,
        current_extent: Extent2D { width, height },
        current_transform: 1,
    }
}

fn swapchain() -> Swapchain {
    let caps = capabilities(800, 600);
    let formats = vec![SurfaceFormat { format: 50, color_space: 0 }];
    let config = choose_swapchain_config(&caps, &formats, 1280, 960);
    Swapchain::new(&config, &caps, 99, vec![10, 11, 12], vec![20, 21, 22], 30, 31)
}

fn renderer() -> Renderer {
    let counts = sync_object_counts(3, FRAMES_IN_FLIGHT);
    let sync = SyncObjects::new(&counts, vec![100, 101, 102], vec![200, 201, 202], vec![300, 301]);
    Renderer::new(swapchain(), sync, vec![400, 401], 500, 600)
}

fn mesh(buffer: u64, vertex_count: usize) -> Mesh {
    Mesh::new(AllocatedBuffer { buffer, memory: buffer + 1 }, vertex_count)
}

#[test]
fn swapchain_takes_current_extent_or_swapped_request() {
    let formats = vec![SurfaceFormat { format: 44, color_space: 0 }, SurfaceFormat { format: 50, color_space: 0 }];
    let config = choose_swapchain_config(&capabilities(800, 600), &formats, 1280, 960);
    assert_eq!(config.surface_resolution, Extent2D { width: 800, height: 600 });
    assert_eq!(config.surface_format, formats[0]);
    assert_eq!(config.min_image_count, 3);
    assert_eq!(config.pre_transform, 1);
    assert_eq!(config.present_mode, PresentMode::Mailbox);
    assert_eq!(config.image_array_layers, 1);
    assert!(config.clipped);
    let config = choose_swapchain_config(&capabilities(u32::MAX, u32::MAX), &formats, 1280, 960);
    assert_eq!(config.surface_resolution, Extent2D { width: 960, height: 1280 });
}

#[test]
fn sync_objects_per_image_and_per_frame() {
    let counts = sync_object_counts(3, 2);
    assert_eq!(counts.present_complete_semaphores, 3);
    assert_eq!(counts.render_finished_semaphores, 3);
    assert_eq!(counts.in_flight_fences, 2);
}

#[test]
fn recorded_renderables_are_drawn_in_order_then_cleared() {
    let mut r = renderer();
    let cube = mesh(7, 36);
    r.record_renderable(Renderable::new(ShaderInput::BasicBlockOutlineColor(0), cube, false));
    r.record_renderable(Renderable::new(ShaderInput::Color(1), cube, true));
    let start = r.frame_start(1).unwrap();
    assert_eq!(start.in_flight_fence, 301);
    assert_eq!(start.acquire_semaphore, 101);
    let plan = r.plan_frame(1, 2).unwrap();
    assert_eq!(plan.image, 12);
    assert_eq!(plan.image_view, 22);
    assert_eq!(plan.image_depth, 30);
    assert_eq!(plan.image_view_depth, 31);
    assert_eq!(plan.swapchain, 99);
    assert_eq!(plan.extent, Extent2D { width: 800, height: 600 });
    assert_eq!(plan.command_buffer, 401);
    assert_eq!(plan.descriptor_set, 600);
    assert_eq!(plan.wait_semaphore, 101);
    assert_eq!(plan.signal_semaphore, 202);
    assert_eq!(plan.in_flight_fence, 301);
    assert_eq!(
        plan.draws,
        vec![
            DrawCommand {
                shader_type: ShaderType::BasicBlockOutlineColor,
                wireframe: false,
                renderable_index: 0,
                shader_data: 0,
                vertex_buffer: 7,
                vertex_count: 36,
            },
            DrawCommand {
                shader_type: ShaderType::Color,
                wireframe: true,
                renderable_index: 1,
                shader_data: 1,
                vertex_buffer: 7,
                vertex_count: 36,
            },
        ]
    );
    assert!(r.renderables().is_empty());
    assert!(r.plan_frame(0, 0).unwrap().draws.is_empty());
}

#[test]
fn frame_cannot_be_planned_with_bad_indices_or_too_many_renderables() {
    let mut r = renderer();
    r.record_renderable(Renderable::new(ShaderInput::Color(0), mesh(1, 3), false));
    assert!(r.frame_start(2).is_none());
    assert!(r.plan_frame(2, 0).is_none());
    assert!(r.plan_frame(0, 3).is_none());
    assert_eq!(r.renderables().len(), 1);
    for i in 0..MAX_RENDERABLES_PER_FRAME {
        r.record_renderable(Renderable::new(ShaderInput::Color(i), mesh(1, 3), false));
    }
    assert_eq!(r.renderables().len(), MAX_RENDERABLES_PER_FRAME + 1);
    assert!(r.plan_frame(0, 0).is_none());
    assert_eq!(r.renderables().len(), MAX_RENDERABLES_PER_FRAME + 1);
    let mut r = renderer();
    for i in 0..MAX_RENDERABLES_PER_FRAME {
        r.record_renderable(Renderable::new(ShaderInput::Color(i), mesh(1, 3), false));
    }
    let plan = r.plan_frame(0, 0).unwrap();
    assert_eq!(plan.draws.len(), MAX_RENDERABLES_PER_FRAME);
    assert_eq!(plan.draws[511].renderable_index, 511);
}

#[test]
fn vertex_count_is_truncated_to_u32() {
    let mut r = renderer();
    r.record_renderable(Renderable::new(ShaderInput::Color(3), mesh(1, (1usize << 32) + 5), false));
    let plan = r.plan_frame(0, 0).unwrap();
    assert_eq!(plan.draws[0].vertex_count, 5);
}

#[test]
fn resize_replaces_the_swapchain_only() {
    let mut r = renderer();
    r.record_renderable(Renderable::new(ShaderInput::Color(0), mesh(1, 3), false));
    let caps = capabilities(1024, 768);
    let config = choose_swapchain_config(&caps, &vec![SurfaceFormat { format: 1, color_space: 2 }], 1, 1);
    r.handle_resize(Swapchain::new(&config, &caps, 7, vec![1], vec![2], 3, 4));
    assert_eq!(r.swapchain().handle, 7);
    assert_eq!(r.swapchain().image_count(), 1);
    assert_eq!(r.renderables().len(), 1);
    assert!(r.plan_frame(0, 1).is_none());
    assert_eq!(r.plan_frame(0, 0).unwrap().extent, Extent2D { width: 1024, height: 768 });
}

#[test]
fn frame_index_cycles() {
    assert_eq!(next_frame_index(0, FRAMES_IN_FLIGHT), 1);
    assert_eq!(next_frame_index(1, FRAMES_IN_FLIGHT), 0);
    assert_eq!(next_frame_index(4, 3), 2);
}

#[test]
fn shader_paths_and_offsets() {
    assert_eq!(ShaderType::Color.shader_path(), "shaders\\color.spv");
    assert_eq!(
        ShaderType::BasicBlockOutlineColor.shader_path(),
        "shaders\\BasicBlockOutlineColor.spv"
    );
    assert_eq!(ShaderInput::Color(9).shader_type(), ShaderType::Color);
    assert_eq!(ShaderInput::BasicBlockOutlineColor(9).data_key(), 9);
    assert_eq!(ShaderInput::Color(0).buffer_offset(3, 208), 624);
}
