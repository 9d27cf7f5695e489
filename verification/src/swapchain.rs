//! Swapchain configuration and the swapchain's image bookkeeping.

use vstd::prelude::*;

verus! {

/// A two-dimensional extent in pixels (`VkExtent2D`).
#[derive(Clone, Copy, Debug, PartialEq, Eq, Structural)]
pub struct Extent2D {
    pub width: u32,
    pub height: u32,
}

/// What the logic reads of a surface's capabilities.  `current_transform` is
/// the raw `VkSurfaceTransformFlagBitsKHR` value.
#[derive(Clone, Copy, Debug, PartialEq, Eq, Structural)]
pub struct SurfaceCapabilities {
    pub min_image_count: u32,
    pub max_image_count: u32,
    pub current_extent: Extent2D,
    pub current_transform: u32,
}

/// A surface format: raw `VkFormat` and `VkColorSpaceKHR` values.
#[derive(Clone, Copy, Debug, PartialEq, Eq, Structural)]
pub struct SurfaceFormat {
    pub format: i32,
    pub color_space: i32,
}

/// Presentation modes the renderer can ask for.
#[derive(Clone, Copy, Debug, PartialEq, Eq, Structural)]
pub enum PresentMode {
    Immediate,
    Mailbox,
    Fifo,
    FifoRelaxed,
}

/// Everything the renderer decides about a swapchain before creating it.
#[derive(Clone, Copy, Debug, PartialEq, Eq, Structural)]
pub struct SwapchainConfig {
    pub surface_resolution: Extent2D,
    pub surface_format: SurfaceFormat,
    pub min_image_count: u32,
    pub pre_transform: u32,
    pub present_mode: PresentMode,
    pub image_array_layers: u32,
    pub clipped: bool,
}

/// The resolution of the swapchain images.  A current extent whose width is
/// `u32::MAX` means that the surface lets the swapchain decide; the renderer
/// then takes the requested size, with width and height exchanged.
pub open spec fn surface_resolution_for(
    capabilities: SurfaceCapabilities,
    surface_width: u32,
    surface_height: u32,
) -> Extent2D {
    if capabilities.current_extent.width == u32::MAX {
        Extent2D { width: surface_height, height: surface_width }
    } else {
        capabilities.current_extent
    }
}

/// Chooses the swapchain's settings: its resolution, the first format the
/// surface offers, one image more than the minimum, the surface's current
/// transform, mailbox presentation, one array layer and clipping.
pub fn choose_swapchain_config(
    capabilities: &SurfaceCapabilities,
    formats: &Vec<SurfaceFormat>,
    surface_width: u32,
    surface_height: u32,
) -> (r: SwapchainConfig)
    requires
        formats.len() > 0,
        capabilities.min_image_count < u32::MAX,
    ensures
        r == (SwapchainConfig {
            surface_resolution: surface_resolution_for(*capabilities, surface_width, surface_height),
            surface_format: formats@[0],
            min_image_count: (capabilities.min_image_count + 1) as u32,
            pre_transform: capabilities.current_transform,
            present_mode: PresentMode::Mailbox,
            image_array_layers: 1,
            clipped: true,
        }),
{
    let surface_resolution = if capabilities.current_extent.width == u32::MAX {
        Extent2D { width: surface_height, height: surface_width }
    } else {
        capabilities.current_extent
    };
    SwapchainConfig {
        surface_resolution,
        surface_format: formats[0],
        min_image_count: capabilities.min_image_count + 1,
        pre_transform: capabilities.current_transform,
        present_mode: PresentMode::Mailbox,
        image_array_layers: 1,
        clipped: true,
    }
}

/// A created swapchain: its handle, its images with one view each, the depth
/// image used alongside them, and the settings it was created with.  Handles
/// are raw Vulkan handle values.
pub struct Swapchain {
    pub image_views: Vec<u64>,
    pub images: Vec<u64>,
    pub handle: u64,
    pub surface_capabilities: SurfaceCapabilities,
    pub surface_resolution: Extent2D,
    pub surface_format: SurfaceFormat,
    pub image_depth: u64,
    pub image_view_depth: u64,
}

impl Swapchain {
    /// Every image has its view.
    pub open spec fn well_formed(&self) -> bool {
        self.images.len() == self.image_views.len()
    }

    /// Records a swapchain created with `config` on a surface with
    /// `capabilities`.
    pub fn new(
        config: &SwapchainConfig,
        capabilities: &SurfaceCapabilities,
        handle: u64,
        images: Vec<u64>,
        image_views: Vec<u64>,
        image_depth: u64,
        image_view_depth: u64,
    ) -> (r: Swapchain)
        requires
            images.len() == image_views.len(),
        ensures
            r.well_formed(),
            r.handle == handle,
            r.images@ == images@,
            r.image_views@ == image_views@,
            r.surface_capabilities == *capabilities,
            r.surface_resolution == config.surface_resolution,
            r.surface_format == config.surface_format,
            r.image_depth == image_depth,
            r.image_view_depth == image_view_depth,
    {
        Swapchain {
            image_views,
            images,
            handle,
            surface_capabilities: *capabilities,
            surface_resolution: config.surface_resolution,
            surface_format: config.surface_format,
            image_depth,
            image_view_depth,
        }
    }

    /// The number of images.
    pub fn image_count(&self) -> (r: usize)
        ensures
            r == self.images.len(),
    {
        self.images.len()
    }
}

} // verus!
