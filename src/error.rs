use vstd::prelude::*;

use crate::swapchain::SwapchainCreateError;

verus! {

/// Why the renderer could not be set up. Codes are raw `VkResult` values.
#[derive(Debug, Clone, Copy, PartialEq, Eq)]
pub enum GraphicsError {
    /// The Vulkan loader could not be found.
    EntryLoad,
    InstanceCreate(i32),
    SurfaceCreate(i32),
    /// The window belongs to a window system without surface support.
    UnsupportedPlatform,
    /// No device can both draw and present to the window.
    NoSuitableDevice,
    DeviceCreate(i32),
    SwapchainCreate(SwapchainCreateError),
}

} // verus!
