//! Pipeline and resource settings that depend on the shader and on the
//! data being uploaded.

use vstd::prelude::*;
use crate::renderer::{ShaderType, MAX_RENDERABLES_PER_FRAME};

verus! {

/// How triangles are rasterised.
#[derive(Clone, Copy, Debug, PartialEq, Eq, Structural)]
pub enum PolygonMode {
    Fill,
    Line,
}

/// How vertices are assembled into primitives.
#[derive(Clone, Copy, Debug, PartialEq, Eq, Structural)]
pub enum PrimitiveTopology {
    PointList,
    LineList,
    TriangleList,
    TriangleStrip,
}

/// Which triangle faces are discarded.
#[derive(Clone, Copy, Debug, PartialEq, Eq, Structural)]
pub enum CullMode {
    NoCulling,
    Front,
    Back,
    FrontAndBack,
}

/// Which winding makes a triangle front-facing.
#[derive(Clone, Copy, Debug, PartialEq, Eq, Structural)]
pub enum FrontFace {
    CounterClockwise,
    Clockwise,
}

/// How a fragment's depth is compared with the stored depth.
#[derive(Clone, Copy, Debug, PartialEq, Eq, Structural)]
pub enum CompareOp {
    Never,
    Less,
    Equal,
    LessOrEqual,
    Greater,
    Always,
}

/// Depth image formats.
#[derive(Clone, Copy, Debug, PartialEq, Eq, Structural)]
pub enum DepthFormat {
    D32Sfloat,
}

/// The settings of one of the renderer's graphics pipelines.  Numbers that
/// Vulkan takes as floats (line width, depth-bias slope factor) are whole
/// numbers here.
#[derive(Clone, Copy, Debug, PartialEq, Eq, Structural)]
pub struct PipelineSettings {
    pub polygon_mode: PolygonMode,
    /// How many of the vertex's attributes, from the first, the shader reads.
    pub vertex_attribute_count: usize,
    /// Bytes of each per-frame shader-data buffer.
    pub shader_data_buffer_size: u64,
    pub topology: PrimitiveTopology,
    pub cull_mode: CullMode,
    pub front_face: FrontFace,
    pub depth_clamp: bool,
    pub rasterizer_discard: bool,
    pub depth_bias: bool,
    pub depth_bias_slope_factor: u32,
    pub line_width: u32,
    pub sample_count: u32,
    pub sample_shading: bool,
    pub blend: bool,
    pub write_red: bool,
    pub write_green: bool,
    pub write_blue: bool,
    pub write_alpha: bool,
    pub logic_op: bool,
    pub depth_test: bool,
    pub depth_write: bool,
    pub depth_compare: CompareOp,
    pub depth_bounds_test: bool,
    pub stencil_test: bool,
    pub depth_format: DepthFormat,
    pub viewport_count: u32,
    pub scissor_count: u32,
    pub dynamic_viewport: bool,
    pub dynamic_scissor: bool,
}

/// The settings of the pipeline for `shader_type`, drawn filled or as
/// wireframe.  The colour shader reads the first two vertex attributes and
/// the textured shader all of them; wireframe pipelines rasterise lines;
/// each frame's shader-data buffer holds `MAX_RENDERABLES_PER_FRAME` entries
/// of `shader_data_stride` bytes.  Every pipeline draws triangle lists,
/// culls front faces with counter-clockwise front faces, tests and writes
/// depth with "less", does not blend, writes all colour channels, renders
/// into a 32-bit float depth image, and takes viewport and scissor as
/// dynamic state.
pub open spec fn pipeline_settings_for(
    shader_type: ShaderType,
    wireframe: bool,
    vertex_attribute_total: usize,
    shader_data_stride: usize,
) -> PipelineSettings {
    PipelineSettings {
        polygon_mode: if wireframe {
            PolygonMode::Line
        } else {
            PolygonMode::Fill
        },
        vertex_attribute_count: match shader_type {
            ShaderType::Color => 2,
            ShaderType::BasicBlockOutlineColor => vertex_attribute_total,
        },
        shader_data_buffer_size: (shader_data_stride * MAX_RENDERABLES_PER_FRAME) as u64,
        topology: PrimitiveTopology::TriangleList,
        cull_mode: CullMode::Front,
        front_face: FrontFace::CounterClockwise,
        depth_clamp: false,
        rasterizer_discard: false,
        depth_bias: false,
        depth_bias_slope_factor: 1,
        line_width: 1,
        sample_count: 1,
        sample_shading: false,
        blend: false,
        write_red: true,
        write_green: true,
        write_blue: true,
        write_alpha: true,
        logic_op: false,
        depth_test: true,
        depth_write: true,
        depth_compare: CompareOp::Less,
        depth_bounds_test: false,
        stencil_test: false,
        depth_format: DepthFormat::D32Sfloat,
        viewport_count: 1,
        scissor_count: 1,
        dynamic_viewport: true,
        dynamic_scissor: true,
    }
}

/// The settings of the pipeline for `shader_type`; see
/// `pipeline_settings_for`.
pub fn pipeline_settings(
    shader_type: ShaderType,
    wireframe: bool,
    vertex_attribute_total: usize,
    shader_data_stride: usize,
) -> (r: PipelineSettings)
    requires
        vertex_attribute_total >= 2,
        shader_data_stride * MAX_RENDERABLES_PER_FRAME <= usize::MAX,
    ensures
        r == pipeline_settings_for(shader_type, wireframe, vertex_attribute_total, shader_data_stride),
        r.shader_data_buffer_size == shader_data_stride * MAX_RENDERABLES_PER_FRAME,
        r.polygon_mode == if wireframe {
            PolygonMode::Line
        } else {
            PolygonMode::Fill
        },
        shader_type == ShaderType::Color ==> r.vertex_attribute_count == 2,
        shader_type == ShaderType::BasicBlockOutlineColor ==> r.vertex_attribute_count
            == vertex_attribute_total,
        !r.rasterizer_discard,
        !r.depth_clamp,
        r.topology == PrimitiveTopology::TriangleList,
        r.depth_test && r.depth_write && r.depth_compare == CompareOp::Less,
        r.write_red && r.write_green && r.write_blue && r.write_alpha,
        r.sample_count == 1 && r.line_width == 1,
        r.viewport_count == 1 && r.scissor_count == 1,
{
    let vertex_attribute_count = match shader_type {
        ShaderType::Color => 2,
        ShaderType::BasicBlockOutlineColor => vertex_attribute_total,
    };
    PipelineSettings {
        polygon_mode: if wireframe {
            PolygonMode::Line
        } else {
            PolygonMode::Fill
        },
        vertex_attribute_count,
        shader_data_buffer_size: (shader_data_stride * MAX_RENDERABLES_PER_FRAME) as u64,
        topology: PrimitiveTopology::TriangleList,
        cull_mode: CullMode::Front,
        front_face: FrontFace::CounterClockwise,
        depth_clamp: false,
        rasterizer_discard: false,
        depth_bias: false,
        depth_bias_slope_factor: 1,
        line_width: 1,
        sample_count: 1,
        sample_shading: false,
        blend: false,
        write_red: true,
        write_green: true,
        write_blue: true,
        write_alpha: true,
        logic_op: false,
        depth_test: true,
        depth_write: true,
        depth_compare: CompareOp::Less,
        depth_bounds_test: false,
        stencil_test: false,
        depth_format: DepthFormat::D32Sfloat,
        viewport_count: 1,
        scissor_count: 1,
        dynamic_viewport: true,
        dynamic_scissor: true,
    }
}

/// The wireframe pipeline of a shader differs from its filled pipeline in
/// the polygon mode alone: it rasterises lines where the other fills.
pub proof fn lemma_wireframe_changes_only_polygon_mode(
    shader_type: ShaderType,
    vertex_attribute_total: usize,
    shader_data_stride: usize,
)
    ensures
        pipeline_settings_for(shader_type, false, vertex_attribute_total, shader_data_stride).polygon_mode
            == PolygonMode::Fill,
        pipeline_settings_for(shader_type, true, vertex_attribute_total, shader_data_stride)
            == (PipelineSettings {
            polygon_mode: PolygonMode::Line,
            ..pipeline_settings_for(shader_type, false, vertex_attribute_total, shader_data_stride)
        }),
{
}

/// Every pipeline rasterises what it is given: no pipeline discards its
/// primitives before rasterisation or clamps depth, each draws triangle
/// lists with one sample into one viewport and scissor, writes every colour
/// channel, tests and writes depth with "less", and reads no more vertex
/// attributes than the vertex has: two for the colour shader, all of them
/// for the outline shader.
pub proof fn lemma_every_pipeline_rasterises(
    shader_type: ShaderType,
    wireframe: bool,
    vertex_attribute_total: usize,
    shader_data_stride: usize,
)
    requires
        vertex_attribute_total >= 2,
    ensures
        ({
            let p = pipeline_settings_for(shader_type, wireframe, vertex_attribute_total, shader_data_stride);
            &&& !p.rasterizer_discard
            &&& !p.depth_clamp
            &&& p.topology == PrimitiveTopology::TriangleList
            &&& p.sample_count == 1
            &&& p.viewport_count == 1
            &&& p.scissor_count == 1
            &&& p.write_red && p.write_green && p.write_blue && p.write_alpha
            &&& p.depth_test && p.depth_write && p.depth_compare == CompareOp::Less
            &&& p.vertex_attribute_count <= vertex_attribute_total
            &&& shader_type == ShaderType::Color ==> p.vertex_attribute_count == 2
            &&& shader_type == ShaderType::BasicBlockOutlineColor ==> p.vertex_attribute_count
                == vertex_attribute_total
        }),
{
}

/// The byte size of a buffer of `element_count` elements of `element_size`
/// bytes each.
pub fn buffer_size(element_count: usize, element_size: usize) -> (r: u64)
    requires
        element_count * element_size <= usize::MAX,
    ensures
        r == element_count * element_size,
{
    (element_count * element_size) as u64
}

/// Image layouts the renderer moves images between.
#[derive(Clone, Copy, Debug, PartialEq, Eq, Structural)]
pub enum ImageLayout {
    Undefined,
    TransferDstOptimal,
    ShaderReadOnlyOptimal,
    ColorAttachmentOptimal,
    DepthAttachmentOptimal,
    PresentSrc,
}

/// Memory accesses a layout-transition barrier orders.
#[derive(Clone, Copy, Debug, PartialEq, Eq, Structural)]
pub enum AccessMask {
    NoAccess,
    TransferWrite,
    ShaderRead,
}

/// Pipeline stages a layout-transition barrier waits for and blocks.
#[derive(Clone, Copy, Debug, PartialEq, Eq, Structural)]
pub enum PipelineStage {
    TopOfPipe,
    Transfer,
    FragmentShader,
}

/// The access masks and stages of a barrier that moves a texture image from
/// one layout to another.
#[derive(Clone, Copy, Debug, PartialEq, Eq, Structural)]
pub struct LayoutTransition {
    pub src_access: AccessMask,
    pub dst_access: AccessMask,
    pub src_stage: PipelineStage,
    pub dst_stage: PipelineStage,
}

/// The barrier for a texture upload's layout change: from undefined to
/// transfer destination before the copy, from transfer destination to
/// shader-read after it; `None` for every other pair of layouts.
pub fn layout_transition(old_layout: ImageLayout, new_layout: ImageLayout) -> (r: Option<
    LayoutTransition,
>)
    ensures
        (old_layout == ImageLayout::Undefined && new_layout == ImageLayout::TransferDstOptimal) ==> r
            == Some(
            LayoutTransition {
                src_access: AccessMask::NoAccess,
                dst_access: AccessMask::TransferWrite,
                src_stage: PipelineStage::TopOfPipe,
                dst_stage: PipelineStage::Transfer,
            },
        ),
        (old_layout == ImageLayout::TransferDstOptimal && new_layout
            == ImageLayout::ShaderReadOnlyOptimal) ==> r == Some(
            LayoutTransition {
                src_access: AccessMask::TransferWrite,
                dst_access: AccessMask::ShaderRead,
                src_stage: PipelineStage::Transfer,
                dst_stage: PipelineStage::FragmentShader,
            },
        ),
        !(old_layout == ImageLayout::Undefined && new_layout == ImageLayout::TransferDstOptimal)
            && !(old_layout == ImageLayout::TransferDstOptimal && new_layout
            == ImageLayout::ShaderReadOnlyOptimal) ==> r is None,
{
    match (old_layout, new_layout) {
        (ImageLayout::Undefined, ImageLayout::TransferDstOptimal) => Some(
            LayoutTransition {
                src_access: AccessMask::NoAccess,
                dst_access: AccessMask::TransferWrite,
                src_stage: PipelineStage::TopOfPipe,
                dst_stage: PipelineStage::Transfer,
            },
        ),
        (ImageLayout::TransferDstOptimal, ImageLayout::ShaderReadOnlyOptimal) => Some(
            LayoutTransition {
                src_access: AccessMask::TransferWrite,
                dst_access: AccessMask::ShaderRead,
                src_stage: PipelineStage::Transfer,
                dst_stage: PipelineStage::FragmentShader,
            },
        ),
        _ => None,
    }
}

/// Which aspect of an image a view or barrier covers.
#[derive(Clone, Copy, Debug, PartialEq, Eq, Structural)]
pub enum ImageAspect {
    Color,
    Depth,
}

/// How an image view is set up: a two-dimensional view of one mip level and
/// one array layer from the start, with identity swizzle, of the given
/// format (a raw `VkFormat`) and aspect.
#[derive(Clone, Copy, Debug, PartialEq, Eq, Structural)]
pub struct ImageViewSettings {
    pub format: i32,
    pub aspect: ImageAspect,
    pub two_dimensional: bool,
    pub identity_swizzle: bool,
    pub base_mip_level: u32,
    pub level_count: u32,
    pub base_array_layer: u32,
    pub layer_count: u32,
}

/// The view of an image in `format` covering `aspect`.
pub fn image_view_settings(format: i32, aspect: ImageAspect) -> (r: ImageViewSettings)
    ensures
        r == (ImageViewSettings {
            format,
            aspect,
            two_dimensional: true,
            identity_swizzle: true,
            base_mip_level: 0,
            level_count: 1,
            base_array_layer: 0,
            layer_count: 1,
        }),
{
    ImageViewSettings {
        format,
        aspect,
        two_dimensional: true,
        identity_swizzle: true,
        base_mip_level: 0,
        level_count: 1,
        base_array_layer: 0,
        layer_count: 1,
    }
}

/// Memory accesses a frame's synchronisation-2 barrier orders.
#[derive(Clone, Copy, Debug, PartialEq, Eq, Structural)]
pub enum FrameAccess {
    NoAccess,
    ColorAttachmentWrite,
    DepthStencilAttachmentWrite,
}

/// Pipeline stages a frame's synchronisation-2 barrier waits for and blocks.
#[derive(Clone, Copy, Debug, PartialEq, Eq, Structural)]
pub enum FrameStage {
    ColorAttachmentOutput,
    /// The early and the late fragment tests together.
    FragmentTests,
    BottomOfPipe,
}

/// The image of a frame that a barrier or attachment refers to.
#[derive(Clone, Copy, Debug, PartialEq, Eq, Structural)]
pub enum FrameImage {
    SwapchainImage,
    DepthImage,
}

/// One layout-transition barrier recorded in a frame's command buffer.
#[derive(Clone, Copy, Debug, PartialEq, Eq, Structural)]
pub struct FrameBarrier {
    pub image: FrameImage,
    pub old_layout: ImageLayout,
    pub new_layout: ImageLayout,
    pub src_access: FrameAccess,
    pub dst_access: FrameAccess,
    pub src_stage: FrameStage,
    pub dst_stage: FrameStage,
    pub aspect: ImageAspect,
}

/// What happens to an attachment's contents when rendering starts.
#[derive(Clone, Copy, Debug, PartialEq, Eq, Structural)]
pub enum LoadOp {
    Load,
    Clear,
    DontCare,
}

/// What happens to an attachment's contents when rendering ends.
#[derive(Clone, Copy, Debug, PartialEq, Eq, Structural)]
pub enum StoreOp {
    Store,
    DontCare,
}

/// How an image is attached for rendering.
#[derive(Clone, Copy, Debug, PartialEq, Eq, Structural)]
pub struct AttachmentSettings {
    pub image: FrameImage,
    pub layout: ImageLayout,
    pub load_op: LoadOp,
    pub store_op: StoreOp,
}

/// The fixed Vulkan work around a frame's draws: the barriers that bring the
/// swapchain image and the depth image into their attachment layouts, the
/// two attachments, the clear values (whole numbers; the colour is opaque
/// black and the depth is the far plane), the barrier that hands the
/// swapchain image to presentation, and the stage at which the submission
/// waits for the acquired image.
#[derive(Clone, Copy, Debug, PartialEq, Eq, Structural)]
pub struct FrameSettings {
    pub color_barrier: FrameBarrier,
    pub depth_barrier: FrameBarrier,
    pub color_attachment: AttachmentSettings,
    pub depth_attachment: AttachmentSettings,
    pub clear_red: u32,
    pub clear_green: u32,
    pub clear_blue: u32,
    pub clear_alpha: u32,
    pub clear_depth: u32,
    pub clear_stencil: u32,
    pub present_barrier: FrameBarrier,
    pub wait_stage: FrameStage,
}

pub open spec fn frame_settings_spec() -> FrameSettings {
    FrameSettings {
        color_barrier: FrameBarrier {
            image: FrameImage::SwapchainImage,
            old_layout: ImageLayout::Undefined,
            new_layout: ImageLayout::ColorAttachmentOptimal,
            src_access: FrameAccess::NoAccess,
            dst_access: FrameAccess::ColorAttachmentWrite,
            src_stage: FrameStage::ColorAttachmentOutput,
            dst_stage: FrameStage::ColorAttachmentOutput,
            aspect: ImageAspect::Color,
        },
        depth_barrier: FrameBarrier {
            image: FrameImage::DepthImage,
            old_layout: ImageLayout::Undefined,
            new_layout: ImageLayout::DepthAttachmentOptimal,
            src_access: FrameAccess::DepthStencilAttachmentWrite,
            dst_access: FrameAccess::DepthStencilAttachmentWrite,
            src_stage: FrameStage::FragmentTests,
            dst_stage: FrameStage::FragmentTests,
            aspect: ImageAspect::Depth,
        },
        color_attachment: AttachmentSettings {
            image: FrameImage::SwapchainImage,
            layout: ImageLayout::ColorAttachmentOptimal,
            load_op: LoadOp::Clear,
            store_op: StoreOp::Store,
        },
        depth_attachment: AttachmentSettings {
            image: FrameImage::DepthImage,
            layout: ImageLayout::DepthAttachmentOptimal,
            load_op: LoadOp::Clear,
            store_op: StoreOp::DontCare,
        },
        clear_red: 0,
        clear_green: 0,
        clear_blue: 0,
        clear_alpha: 1,
        clear_depth: 1,
        clear_stencil: 0,
        present_barrier: FrameBarrier {
            image: FrameImage::SwapchainImage,
            old_layout: ImageLayout::ColorAttachmentOptimal,
            new_layout: ImageLayout::PresentSrc,
            src_access: FrameAccess::ColorAttachmentWrite,
            dst_access: FrameAccess::NoAccess,
            src_stage: FrameStage::ColorAttachmentOutput,
            dst_stage: FrameStage::BottomOfPipe,
            aspect: ImageAspect::Color,
        },
        wait_stage: FrameStage::ColorAttachmentOutput,
    }
}

/// The fixed work around every frame's draws; see `frame_settings_spec`.
pub fn frame_settings() -> (r: FrameSettings)
    ensures
        r == frame_settings_spec(),
        r.color_attachment.load_op == LoadOp::Clear,
        r.color_attachment.store_op == StoreOp::Store,
        r.depth_attachment.load_op == LoadOp::Clear,
        r.clear_depth == 1,
        r.clear_alpha == 1,
{
    FrameSettings {
        color_barrier: FrameBarrier {
            image: FrameImage::SwapchainImage,
            old_layout: ImageLayout::Undefined,
            new_layout: ImageLayout::ColorAttachmentOptimal,
            src_access: FrameAccess::NoAccess,
            dst_access: FrameAccess::ColorAttachmentWrite,
            src_stage: FrameStage::ColorAttachmentOutput,
            dst_stage: FrameStage::ColorAttachmentOutput,
            aspect: ImageAspect::Color,
        },
        depth_barrier: FrameBarrier {
            image: FrameImage::DepthImage,
            old_layout: ImageLayout::Undefined,
            new_layout: ImageLayout::DepthAttachmentOptimal,
            src_access: FrameAccess::DepthStencilAttachmentWrite,
            dst_access: FrameAccess::DepthStencilAttachmentWrite,
            src_stage: FrameStage::FragmentTests,
            dst_stage: FrameStage::FragmentTests,
            aspect: ImageAspect::Depth,
        },
        color_attachment: AttachmentSettings {
            image: FrameImage::SwapchainImage,
            layout: ImageLayout::ColorAttachmentOptimal,
            load_op: LoadOp::Clear,
            store_op: StoreOp::Store,
        },
        depth_attachment: AttachmentSettings {
            image: FrameImage::DepthImage,
            layout: ImageLayout::DepthAttachmentOptimal,
            load_op: LoadOp::Clear,
            store_op: StoreOp::DontCare,
        },
        clear_red: 0,
        clear_green: 0,
        clear_blue: 0,
        clear_alpha: 1,
        clear_depth: 1,
        clear_stencil: 0,
        present_barrier: FrameBarrier {
            image: FrameImage::SwapchainImage,
            old_layout: ImageLayout::ColorAttachmentOptimal,
            new_layout: ImageLayout::PresentSrc,
            src_access: FrameAccess::ColorAttachmentWrite,
            dst_access: FrameAccess::NoAccess,
            src_stage: FrameStage::ColorAttachmentOutput,
            dst_stage: FrameStage::BottomOfPipe,
            aspect: ImageAspect::Color,
        },
        wait_stage: FrameStage::ColorAttachmentOutput,
    }
}

/// Within a frame each image is rendered to in the layout its barrier put it
/// in: the swapchain image goes from undefined to the colour-attachment
/// layout, is attached in that layout, and leaves it for presentation; the
/// depth image goes from undefined to the depth-attachment layout it is
/// attached in.
pub proof fn lemma_frame_layouts_chain()
    ensures
        ({
            let f = frame_settings_spec();
            &&& f.color_barrier.image == f.color_attachment.image
            &&& f.color_barrier.old_layout == ImageLayout::Undefined
            &&& f.color_barrier.new_layout == f.color_attachment.layout
            &&& f.present_barrier.image == f.color_attachment.image
            &&& f.present_barrier.old_layout == f.color_attachment.layout
            &&& f.present_barrier.new_layout == ImageLayout::PresentSrc
            &&& f.depth_barrier.image == f.depth_attachment.image
            &&& f.depth_barrier.old_layout == ImageLayout::Undefined
            &&& f.depth_barrier.new_layout == f.depth_attachment.layout
        }),
{
}

/// Every frame starts from cleared attachments: the swapchain image is
/// cleared to opaque black and kept for presentation, and the depth image is
/// cleared to the far plane, 1.  Since every pipeline tests depth with
/// "less", the first fragment drawn at a pixel nearer than the far plane
/// passes the depth test, whatever the frame before left behind.
pub proof fn lemma_frame_starts_cleared(
    shader_type: ShaderType,
    wireframe: bool,
    vertex_attribute_total: usize,
    shader_data_stride: usize,
)
    ensures
        ({
            let f = frame_settings_spec();
            let p = pipeline_settings_for(shader_type, wireframe, vertex_attribute_total, shader_data_stride);
            &&& f.color_attachment.load_op == LoadOp::Clear
            &&& f.color_attachment.store_op == StoreOp::Store
            &&& f.clear_red == 0 && f.clear_green == 0 && f.clear_blue == 0 && f.clear_alpha == 1
            &&& f.depth_attachment.load_op == LoadOp::Clear
            &&& f.clear_depth == 1
            &&& p.depth_test
            &&& p.depth_compare == CompareOp::Less
        }),
{
}

} // verus!
