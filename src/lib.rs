//! Resource and frame-synchronization core of a small Vulkan renderer.
//!
//! The library holds the decisions of the renderer as plain values: which
//! physical device and queue family to use, how the instance and the
//! swapchain are described for a window, and the per-frame protocol (wait,
//! acquire, record, reset, submit, present) as a state machine. The driver
//! calls themselves are made by the program around it, which hands the
//! results back.

mod device;
mod error;
mod frame;
mod instance;
mod swapchain;
mod sync;
mod version;

pub use device::{
    default_device_extensions, device_rank, device_suitable, device_type_of, family_queues,
    family_suitable, first_suitable_family, is_first_suitable_family, is_selection,
    lemma_selection_unique, queue_indices, queue_layout, select_physical_device, DeviceType,
    PhysicalDeviceInfo, QueueFamilyInfo,
};
pub use error::GraphicsError;
pub use frame::{
    frame_actions, frame_events, frames_events, lemma_fence_follows_count, lemma_frames_rotate,
    lemma_next_keeps_wf, lemma_reset_after_wait, lemma_run_append, lemma_run_len,
    lemma_run_step, lemma_successful_frame, next, rotation, run, FrameAction, FrameCycle,
    FrameCycleView, FrameEvent, FramePhase, MAX_FRAMES_IN_FLIGHT,
};
pub use instance::{
    enumerate_required_extensions, instance_builder, names, platform_surface_extension,
    required_extensions, validation_layer, InstanceBuilder, Platform,
};
pub use swapchain::{
    choose_format, choose_image_count, choose_present_mode, clamp, clamp_extent,
    find_preferred_format, is_preferred_format, is_preferred_present_mode, is_srgb8,
    is_srgb8_format, lemma_plan_extent, lemma_resize_idempotent, present_mode_of,
    raw_of_present_mode, select_present_mode, select_surface_format, swapchain_description,
    swapchain_plan, Extent2D, Extent3D, PresentMode, SurfaceCapabilities, SurfaceFormat,
    Swapchain, SwapchainCreateError, SwapchainDescription, SwapchainImage,
    SwapchainImageDescription, SwapchainView, A8B8G8R8_SRGB_PACK32, B8G8R8A8_SRGB, B8G8R8_SRGB,
    COMPOSITE_ALPHA_OPAQUE, IMAGE_USAGE_COLOR_ATTACHMENT, R8G8B8A8_SRGB, R8G8B8_SRGB, R8G8_SRGB,
    R8_SRGB, SHARING_MODE_EXCLUSIVE, SRGB_NONLINEAR,
};
pub use sync::{GPUTaskError, PresentTask, TaskResult};
pub use version::{make_version, packed_version};
