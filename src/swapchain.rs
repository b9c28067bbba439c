use vstd::prelude::*;

use crate::sync::{GPUTaskError, TaskResult};

verus! {

/// `VK_FORMAT_R8_SRGB`: one 8-bit channel, sRGB encoded.
pub const R8_SRGB: i32 = 15;

/// `VK_FORMAT_R8G8_SRGB`.
pub const R8G8_SRGB: i32 = 22;

/// `VK_FORMAT_R8G8B8_SRGB`.
pub const R8G8B8_SRGB: i32 = 29;

/// `VK_FORMAT_B8G8R8_SRGB`.
pub const B8G8R8_SRGB: i32 = 36;

/// `VK_FORMAT_R8G8B8A8_SRGB`.
pub const R8G8B8A8_SRGB: i32 = 43;

/// `VK_FORMAT_B8G8R8A8_SRGB`: 8 bits per channel, sRGB encoded.
pub const B8G8R8A8_SRGB: i32 = 50;

/// `VK_FORMAT_A8B8G8R8_SRGB_PACK32`.
pub const A8B8G8R8_SRGB_PACK32: i32 = 57;

/// `VK_COLOR_SPACE_SRGB_NONLINEAR_KHR`.
pub const SRGB_NONLINEAR: i32 = 0;

/// `VK_SHARING_MODE_EXCLUSIVE`: the images belong to one queue family at a time.
pub const SHARING_MODE_EXCLUSIVE: i32 = 0;

/// `VK_IMAGE_USAGE_COLOR_ATTACHMENT_BIT`.
pub const IMAGE_USAGE_COLOR_ATTACHMENT: u32 = 0x10;

/// `VK_COMPOSITE_ALPHA_OPAQUE_BIT_KHR`.
pub const COMPOSITE_ALPHA_OPAQUE: u32 = 0x1;

/// A size in pixels.
#[derive(Debug, Clone, Copy, PartialEq, Eq, Default)]
pub struct Extent2D {
    pub width: u32,
    pub height: u32,
}

/// A size in texels, with a depth.
#[derive(Debug, Clone, Copy, PartialEq, Eq, Default)]
pub struct Extent3D {
    pub width: u32,
    pub height: u32,
    pub depth: u32,
}

impl Extent2D {
    /// The same width and height, with depth 0.
    pub fn into_extent3d(self) -> (r: Extent3D)
        ensures
            r == (Extent3D { width: self.width, height: self.height, depth: 0 }),
    {
        Extent3D { width: self.width, height: self.height, depth: 0 }
    }
}

/// How the presentation engine queues images (`VkPresentModeKHR`).
#[derive(Debug, Clone, Copy, PartialEq, Eq)]
pub enum PresentMode {
    Immediate,
    Mailbox,
    Fifo,
    FifoRelaxed,
    /// A mode this library does not prefer, by its raw value.
    Other(i32),
}

/// The present mode that a raw `VkPresentModeKHR` value stands for.
pub open spec fn present_mode_of(raw: i32) -> PresentMode {
    if raw == 0 {
        PresentMode::Immediate
    } else if raw == 1 {
        PresentMode::Mailbox
    } else if raw == 2 {
        PresentMode::Fifo
    } else if raw == 3 {
        PresentMode::FifoRelaxed
    } else {
        PresentMode::Other(raw)
    }
}

/// The raw `VkPresentModeKHR` value of a present mode.
pub open spec fn raw_of_present_mode(mode: PresentMode) -> i32 {
    match mode {
        PresentMode::Immediate => 0,
        PresentMode::Mailbox => 1,
        PresentMode::Fifo => 2,
        PresentMode::FifoRelaxed => 3,
        PresentMode::Other(raw) => raw,
    }
}

impl PresentMode {
    pub fn from_raw(raw: i32) -> (r: PresentMode)
        ensures
            r == present_mode_of(raw),
            raw_of_present_mode(r) == raw,
    {
        match raw {
            0 => PresentMode::Immediate,
            1 => PresentMode::Mailbox,
            2 => PresentMode::Fifo,
            3 => PresentMode::FifoRelaxed,
            _ => PresentMode::Other(raw),
        }
    }

    pub fn as_raw(self) -> (r: i32)
        ensures
            r == raw_of_present_mode(self),
    {
        match self {
            PresentMode::Immediate => 0,
            PresentMode::Mailbox => 1,
            PresentMode::Fifo => 2,
            PresentMode::FifoRelaxed => 3,
            PresentMode::Other(raw) => raw,
        }
    }
}

/// A format and color space that a surface supports, by their raw values.
#[derive(Debug, Clone, Copy, PartialEq, Eq)]
pub struct SurfaceFormat {
    pub format: i32,
    pub color_space: i32,
}

/// What a surface allows a swapchain on it to be.
#[derive(Debug, Clone, Copy, PartialEq, Eq)]
pub struct SurfaceCapabilities {
    pub min_image_count: u32,
    /// 0 when there is no maximum.
    pub max_image_count: u32,
    pub min_image_extent: Extent2D,
    pub max_image_extent: Extent2D,
    /// The raw `VkSurfaceTransformFlagBitsKHR` the surface is in.
    pub current_transform: u32,
}

/// The images of a swapchain: format, color space, size, layers, sharing
/// and usage, by their raw values.
#[derive(Debug, Clone, Copy, PartialEq, Eq)]
pub struct SwapchainImageDescription {
    pub format: i32,
    pub color_space: i32,
    pub extent: Extent2D,
    pub array_layers: u32,
    pub sharing_mode: i32,
    pub image_usage: u32,
}

/// Everything the driver is asked for when a swapchain is created.
#[derive(Debug, Clone, Copy, PartialEq, Eq)]
pub struct SwapchainDescription {
    pub min_image_count: u32,
    pub image_description: SwapchainImageDescription,
    pub pre_transform: u32,
    pub composite_alpha: u32,
    pub present_mode: PresentMode,
    /// The raw handle of the swapchain being replaced, if any.
    pub old_swapchain: Option<u64>,
}

/// Why no swapchain could be made.
#[derive(Debug, Clone, Copy, PartialEq, Eq)]
pub enum SwapchainCreateError {
    /// The clamped size has no area, as for a minimized window.
    EmptyExtent,
    /// The surface reports no format at all.
    NoSurfaceFormat,
    /// The driver refused, with this `VkResult` code.
    Native(i32),
}

pub open spec fn is_preferred_present_mode(mode: PresentMode) -> bool {
    mode is Mailbox || mode is Immediate
}

/// The first mailbox or immediate mode in the list, else FIFO, which every
/// surface supports.
pub open spec fn choose_present_mode(modes: Seq<PresentMode>) -> PresentMode
    decreases modes.len(),
{
    if modes.len() == 0 {
        PresentMode::Fifo
    } else if is_preferred_present_mode(modes[0]) {
        modes[0]
    } else {
        choose_present_mode(modes.drop_first())
    }
}

/// The format has 8 bits per channel, sRGB encoded, whatever its channels.
pub open spec fn is_srgb8_format(format: i32) -> bool {
    ||| format == R8_SRGB
    ||| format == R8G8_SRGB
    ||| format == R8G8B8_SRGB
    ||| format == B8G8R8_SRGB
    ||| format == R8G8B8A8_SRGB
    ||| format == B8G8R8A8_SRGB
    ||| format == A8B8G8R8_SRGB_PACK32
}

/// An 8-bit-per-channel sRGB format in the sRGB-nonlinear color space.
pub open spec fn is_preferred_format(f: SurfaceFormat) -> bool {
    is_srgb8_format(f.format) && f.color_space == SRGB_NONLINEAR
}

/// The first format, in the surface's order, with 8 bits per channel, sRGB
/// encoded, in the sRGB-nonlinear color space, if there is one.
pub open spec fn find_preferred_format(formats: Seq<SurfaceFormat>) -> Option<SurfaceFormat>
    decreases formats.len(),
{
    if formats.len() == 0 {
        None
    } else if is_preferred_format(formats[0]) {
        Some(formats[0])
    } else {
        find_preferred_format(formats.drop_first())
    }
}

/// The first 8-bit-per-channel sRGB format in the sRGB-nonlinear color
/// space if the surface has one, else the first format it reports.
pub open spec fn choose_format(formats: Seq<SurfaceFormat>) -> Option<SurfaceFormat> {
    match find_preferred_format(formats) {
        Some(f) => Some(f),
        None => if formats.len() > 0 {
            Some(formats[0])
        } else {
            None
        },
    }
}

/// One more image than the surface's minimum, but not more than its
/// maximum when it has one (and not past the largest count).
pub open spec fn choose_image_count(caps: SurfaceCapabilities) -> u32 {
    let wanted: u32 = if caps.min_image_count == u32::MAX {
        u32::MAX
    } else {
        (caps.min_image_count + 1) as u32
    };
    if caps.max_image_count > 0 && wanted > caps.max_image_count {
        caps.max_image_count
    } else {
        wanted
    }
}

pub open spec fn clamp(v: u32, lo: u32, hi: u32) -> u32 {
    if v < lo {
        lo
    } else if v > hi {
        hi
    } else {
        v
    }
}

/// The requested size brought within the surface's smallest and largest.
pub open spec fn clamp_extent(requested: Extent2D, caps: SurfaceCapabilities) -> Extent2D {
    Extent2D {
        width: clamp(requested.width, caps.min_image_extent.width, caps.max_image_extent.width),
        height: clamp(requested.height, caps.min_image_extent.height, caps.max_image_extent.height),
    }
}

/// The swapchain asked for on a surface with these capabilities, formats and
/// present modes, for a window of size `requested`, replacing `old_swapchain`.
pub open spec fn swapchain_plan(
    caps: SurfaceCapabilities,
    formats: Seq<SurfaceFormat>,
    modes: Seq<PresentMode>,
    requested: Extent2D,
    old_swapchain: Option<u64>,
) -> Result<SwapchainDescription, SwapchainCreateError> {
    let extent = clamp_extent(requested, caps);
    if extent.width == 0 || extent.height == 0 {
        Err(SwapchainCreateError::EmptyExtent)
    } else {
        match choose_format(formats) {
            None => Err(SwapchainCreateError::NoSurfaceFormat),
            Some(f) => Ok(
                SwapchainDescription {
                    min_image_count: choose_image_count(caps),
                    image_description: SwapchainImageDescription {
                        format: f.format,
                        color_space: f.color_space,
                        extent,
                        array_layers: 1,
                        sharing_mode: SHARING_MODE_EXCLUSIVE,
                        image_usage: IMAGE_USAGE_COLOR_ATTACHMENT,
                    },
                    pre_transform: caps.current_transform,
                    composite_alpha: COMPOSITE_ALPHA_OPAQUE,
                    present_mode: choose_present_mode(modes),
                    old_swapchain,
                },
            ),
        }
    }
}

/// The present mode to use: the first mailbox or immediate one, else FIFO.
pub fn select_present_mode(modes: &Vec<PresentMode>) -> (r: PresentMode)
    ensures
        r == choose_present_mode(modes@),
{
    let mut i: usize = 0;
    assert(modes@.subrange(0, modes.len() as int) =~= modes@);
    while i < modes.len()
        invariant
            i <= modes.len(),
            choose_present_mode(modes@) == choose_present_mode(modes@.subrange(i as int, modes.len() as int)),
        decreases modes.len() - i,
    {
        let rest = Ghost(modes@.subrange(i as int, modes.len() as int));
        assert(rest@.drop_first() =~= modes@.subrange(i + 1, modes.len() as int));
        match modes[i] {
            PresentMode::Mailbox | PresentMode::Immediate => {
                return modes[i];
            },
            _ => {},
        }
        i = i + 1;
    }
    assert(modes@.subrange(i as int, modes.len() as int) =~= Seq::<PresentMode>::empty());
    PresentMode::Fifo
}

/// Whether a raw format has 8 bits per channel, sRGB encoded.
pub fn is_srgb8(format: i32) -> (r: bool)
    ensures
        r == is_srgb8_format(format),
{
    format == R8_SRGB || format == R8G8_SRGB || format == R8G8B8_SRGB || format == B8G8R8_SRGB
        || format == R8G8B8A8_SRGB || format == B8G8R8A8_SRGB || format == A8B8G8R8_SRGB_PACK32
}

/// The surface format to use: the first 8-bit-per-channel sRGB format in the
/// sRGB-nonlinear color space, else the first reported, or `None` when the
/// surface reports none.
pub fn select_surface_format(formats: &Vec<SurfaceFormat>) -> (r: Option<SurfaceFormat>)
    ensures
        r == choose_format(formats@),
{
    let mut i: usize = 0;
    assert(formats@.subrange(0, formats.len() as int) =~= formats@);
    while i < formats.len()
        invariant
            i <= formats.len(),
            find_preferred_format(formats@) == find_preferred_format(
                formats@.subrange(i as int, formats.len() as int),
            ),
        decreases formats.len() - i,
    {
        let rest = Ghost(formats@.subrange(i as int, formats.len() as int));
        assert(rest@.drop_first() =~= formats@.subrange(i + 1, formats.len() as int));
        let f = formats[i];
        if is_srgb8(f.format) && f.color_space == SRGB_NONLINEAR {
            return Some(f);
        }
        i = i + 1;
    }
    assert(formats@.subrange(i as int, formats.len() as int) =~= Seq::<SurfaceFormat>::empty());
    if formats.len() > 0 {
        Some(formats[0])
    } else {
        None
    }
}

fn clamp_u32(v: u32, lo: u32, hi: u32) -> (r: u32)
    ensures
        r == clamp(v, lo, hi),
{
    if v < lo {
        lo
    } else if v > hi {
        hi
    } else {
        v
    }
}

/// Describes the swapchain to create on a surface for a window of size
/// `requested`.
///
/// The size is clamped to the surface's limits; a size with no area left is
/// refused. The format is the first 8-bit-per-channel sRGB one in the
/// sRGB-nonlinear color space if the surface has one, else the first it
/// reports. The present mode is the first
/// mailbox or immediate one, else FIFO. One image more than the surface's
/// minimum is asked for, within its maximum.
pub fn swapchain_description(
    capabilities: &SurfaceCapabilities,
    formats: &Vec<SurfaceFormat>,
    present_modes: &Vec<PresentMode>,
    requested: Extent2D,
    old_swapchain: Option<u64>,
) -> (r: Result<SwapchainDescription, SwapchainCreateError>)
    ensures
        r == swapchain_plan(*capabilities, formats@, present_modes@, requested, old_swapchain),
{
    let extent = Extent2D {
        width: clamp_u32(
            requested.width,
            capabilities.min_image_extent.width,
            capabilities.max_image_extent.width,
        ),
        height: clamp_u32(
            requested.height,
            capabilities.min_image_extent.height,
            capabilities.max_image_extent.height,
        ),
    };
    if extent.width == 0 || extent.height == 0 {
        return Err(SwapchainCreateError::EmptyExtent);
    }
    let format = match select_surface_format(formats) {
        Some(f) => f,
        None => {
            return Err(SwapchainCreateError::NoSurfaceFormat);
        },
    };
    let wanted: u32 = if capabilities.min_image_count == u32::MAX {
        u32::MAX
    } else {
        capabilities.min_image_count + 1
    };
    let min_image_count = if capabilities.max_image_count > 0 && wanted
        > capabilities.max_image_count {
        capabilities.max_image_count
    } else {
        wanted
    };
    Ok(
        SwapchainDescription {
            min_image_count,
            image_description: SwapchainImageDescription {
                format: format.format,
                color_space: format.color_space,
                extent,
                array_layers: 1,
                sharing_mode: SHARING_MODE_EXCLUSIVE,
                image_usage: IMAGE_USAGE_COLOR_ATTACHMENT,
            },
            pre_transform: capabilities.current_transform,
            composite_alpha: COMPOSITE_ALPHA_OPAQUE,
            present_mode: select_present_mode(present_modes),
            old_swapchain,
        },
    )
}

/// One presentable image of a swapchain and the view made on it, by their
/// raw handles.
#[derive(Debug, Clone, Copy, PartialEq, Eq)]
pub struct SwapchainImage {
    pub image: u64,
    pub image_view: u64,
    pub format: i32,
    pub extent: Extent3D,
}

impl SwapchainImage {
    pub fn new(image: u64, image_view: u64, format: i32, extent: Extent3D) -> (r: Self)
        ensures
            r == (SwapchainImage { image, image_view, format, extent }),
    {
        SwapchainImage { image, image_view, format, extent }
    }
}

/// The model of a [`Swapchain`].
pub struct SwapchainView {
    pub handle: u64,
    pub images: Seq<SwapchainImage>,
    pub image_format: i32,
    pub present_mode: PresentMode,
    pub extent: Extent2D,
}

/// A swapchain that the driver made from a [`SwapchainDescription`]: its
/// handle, its images in the driver's order, and what it was made with.
#[derive(Debug)]
pub struct Swapchain {
    images: Vec<SwapchainImage>,
    handle: u64,
    image_format: i32,
    present_mode: PresentMode,
    extent: Extent2D,
}

impl View for Swapchain {
    type V = SwapchainView;

    closed spec fn view(&self) -> SwapchainView {
        SwapchainView {
            handle: self.handle,
            images: self.images@,
            image_format: self.image_format,
            present_mode: self.present_mode,
            extent: self.extent,
        }
    }
}

impl Swapchain {
    /// The swapchain `handle` that the driver created from `description`,
    /// with the images it reported: at least as many as the description asks
    /// for, each in the description's format.
    pub fn new(description: &SwapchainDescription, handle: u64, images: Vec<SwapchainImage>) -> (r:
        Self)
        requires
            images@.len() >= description.min_image_count,
            forall|i: int|
                0 <= i < images@.len() ==> (#[trigger] images@[i]).format
                    == description.image_description.format,
        ensures
            r@ == (SwapchainView {
                handle,
                images: images@,
                image_format: description.image_description.format,
                present_mode: description.present_mode,
                extent: description.image_description.extent,
            }),
    {
        Swapchain {
            images,
            handle,
            image_format: description.image_description.format,
            present_mode: description.present_mode,
            extent: description.image_description.extent,
        }
    }

    pub fn handle(&self) -> (r: u64)
        ensures
            r == self@.handle,
    {
        self.handle
    }

    pub fn extent(&self) -> (r: Extent2D)
        ensures
            r == self@.extent,
    {
        self.extent
    }

    pub fn image_format(&self) -> (r: i32)
        ensures
            r == self@.image_format,
    {
        self.image_format
    }

    pub fn present_mode(&self) -> (r: PresentMode)
        ensures
            r == self@.present_mode,
    {
        self.present_mode
    }

    pub fn images(&self) -> (r: &Vec<SwapchainImage>)
        ensures
            r@ == self@.images,
    {
        &self.images
    }

    /// The image that acquiring handed out: `acquired` is what the driver
    /// answered, the image index and whether the swapchain is suboptimal. An
    /// index past the images is an acquire error.
    pub fn get_current_image(&self, acquired: TaskResult<(u32, bool)>) -> (r: TaskResult<
        (SwapchainImage, u32, bool),
    >)
        ensures
            match acquired {
                Ok((index, suboptimal)) => if index < self@.images.len() {
                    r == Ok::<(SwapchainImage, u32, bool), GPUTaskError>(
                        (self@.images[index as int], index, suboptimal),
                    )
                } else {
                    r == Err::<(SwapchainImage, u32, bool), GPUTaskError>(GPUTaskError::AcquireError)
                },
                Err(e) => r == Err::<(SwapchainImage, u32, bool), GPUTaskError>(e),
            },
    {
        match acquired {
            Ok((index, suboptimal)) => {
                if (index as usize) < self.images.len() {
                    Ok((self.images[index as usize], index, suboptimal))
                } else {
                    Err(GPUTaskError::AcquireError)
                }
            },
            Err(e) => Err(e),
        }
    }
}

/// Round trip of the size: a swapchain planned for `requested` is planned at
/// `requested` brought within the surface's limits: at `requested` itself
/// when it lies within them, at the nearest limit when it lies below or above.
/// [`Swapchain::new`] keeps that size, and [`Swapchain::extent`] returns it.
pub proof fn lemma_plan_extent(
    caps: SurfaceCapabilities,
    formats: Seq<SurfaceFormat>,
    modes: Seq<PresentMode>,
    requested: Extent2D,
    old_swapchain: Option<u64>,
)
    requires
        swapchain_plan(caps, formats, modes, requested, old_swapchain) is Ok,
    ensures
        ({
            let e = swapchain_plan(caps, formats, modes, requested, old_swapchain)->Ok_0.image_description.extent;
            &&& e == clamp_extent(requested, caps)
            &&& caps.min_image_extent.width <= requested.width <= caps.max_image_extent.width
                ==> e.width == requested.width
            &&& caps.min_image_extent.height <= requested.height <= caps.max_image_extent.height
                ==> e.height == requested.height
            &&& requested.width < caps.min_image_extent.width ==> e.width == caps.min_image_extent.width
            &&& requested.height < caps.min_image_extent.height ==> e.height == caps.min_image_extent.height
            &&& caps.min_image_extent.width <= caps.max_image_extent.width < requested.width
                ==> e.width == caps.max_image_extent.width
            &&& caps.min_image_extent.height <= caps.max_image_extent.height < requested.height
                ==> e.height == caps.max_image_extent.height
            &&& e.width > 0 && e.height > 0
        }),
{
}

/// Resizing twice to the same size asks for the same swapchain: the same
/// image count, image format, size and present mode. Only the swapchain being
/// replaced differs.
pub proof fn lemma_resize_idempotent(
    caps: SurfaceCapabilities,
    formats: Seq<SurfaceFormat>,
    modes: Seq<PresentMode>,
    size: Extent2D,
    first_old: Option<u64>,
    second_old: Option<u64>,
)
    ensures
        ({
            let first = swapchain_plan(caps, formats, modes, size, first_old);
            let second = swapchain_plan(caps, formats, modes, size, second_old);
            &&& first is Ok <==> second is Ok
            &&& first is Err ==> first == second
            &&& first is Ok ==> {
                &&& second->Ok_0.min_image_count == first->Ok_0.min_image_count
                &&& second->Ok_0.image_description == first->Ok_0.image_description
                &&& second->Ok_0.present_mode == first->Ok_0.present_mode
                &&& second->Ok_0.old_swapchain == second_old
            }
        }),
{
}

} // verus!
