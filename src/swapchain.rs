use vstd::prelude::*;

use crate::error::RendererError;

verus! {

/// Width value a surface reports when it leaves the extent to the swapchain.
pub const UNDEFINED_EXTENT: u32 = 0xFFFF_FFFF;

/// Raw code of the undefined color format.
pub const FORMAT_UNDEFINED: i32 = 0;

/// Raw code of the B8G8R8 unsigned-normalized color format, used where the surface
/// leaves the format open.
pub const FORMAT_B8G8R8_UNORM: i32 = 30;

/// Bit of the identity surface transform.
pub const TRANSFORM_IDENTITY: u32 = 1;

#[derive(Clone, Copy, Debug, PartialEq, Eq, Structural)]
pub struct Extent2D {
    pub width: u32,
    pub height: u32,
}

/// What a surface reports about the swapchains it accepts.
#[derive(Clone, Copy, Debug, PartialEq, Eq, Structural)]
pub struct SurfaceCapabilities {
    pub min_image_count: u32,
    /// Zero means that the surface sets no upper bound.
    pub max_image_count: u32,
    /// Width `UNDEFINED_EXTENT` means that the swapchain decides the extent.
    pub current_extent: Extent2D,
    pub supported_transforms: u32,
    pub current_transform: u32,
}

impl SurfaceCapabilities {
    /// The surface's bounds are consistent: a reported maximum is at least the minimum.
    pub open spec fn valid(&self) -> bool {
        self.max_image_count > 0 ==> self.min_image_count <= self.max_image_count
    }

    /// The image count policy can be applied without overflow.
    pub open spec fn count_fits(&self) -> bool {
        self.max_image_count > 0 || self.min_image_count < u32::MAX
    }
}

#[derive(Clone, Copy, Debug, PartialEq, Eq, Structural)]
pub enum PresentMode {
    Immediate,
    Mailbox,
    Fifo,
    FifoRelaxed,
}

#[derive(Clone, Copy, Debug, PartialEq, Eq, Structural)]
pub struct SurfaceFormat {
    pub format: i32,
    pub color_space: i32,
}

/// Everything the swapchain is built with, decided from the surface's state.
#[derive(Clone, Copy, Debug, PartialEq, Eq, Structural)]
pub struct SwapchainConfig {
    pub image_count: u32,
    pub extent: Extent2D,
    pub format: SurfaceFormat,
    pub present_mode: PresentMode,
    pub pre_transform: u32,
}

/// One more image than the minimum, capped by the maximum when there is one.
pub open spec fn image_count_spec(caps: SurfaceCapabilities) -> int {
    if caps.max_image_count > 0 && caps.min_image_count as int + 1 > caps.max_image_count as int {
        caps.max_image_count as int
    } else {
        caps.min_image_count as int + 1
    }
}

pub open spec fn extent_spec(caps: SurfaceCapabilities, width: u32, height: u32) -> Extent2D {
    if caps.current_extent.width == UNDEFINED_EXTENT {
        Extent2D { width, height }
    } else {
        caps.current_extent
    }
}

pub open spec fn present_mode_spec(modes: Seq<PresentMode>) -> PresentMode {
    if modes.contains(PresentMode::Mailbox) {
        PresentMode::Mailbox
    } else {
        PresentMode::Fifo
    }
}

pub open spec fn normalized_format(f: SurfaceFormat) -> SurfaceFormat {
    if f.format == FORMAT_UNDEFINED {
        SurfaceFormat { format: FORMAT_B8G8R8_UNORM, color_space: f.color_space }
    } else {
        f
    }
}

pub open spec fn pre_transform_spec(caps: SurfaceCapabilities) -> u32 {
    if caps.supported_transforms & TRANSFORM_IDENTITY == TRANSFORM_IDENTITY {
        TRANSFORM_IDENTITY
    } else {
        caps.current_transform
    }
}

pub open spec fn config_spec(
    caps: SurfaceCapabilities,
    formats: Seq<SurfaceFormat>,
    modes: Seq<PresentMode>,
    width: u32,
    height: u32,
) -> SwapchainConfig
    recommends
        formats.len() > 0,
{
    SwapchainConfig {
        image_count: image_count_spec(caps) as u32,
        extent: extent_spec(caps, width, height),
        format: normalized_format(formats[0]),
        present_mode: present_mode_spec(modes),
        pre_transform: pre_transform_spec(caps),
    }
}

/// Number of images to ask the swapchain for: `min(max, min + 1)` when the surface
/// reports a maximum, else `min + 1`, so that host and device need not run in lockstep.
pub fn choose_image_count(caps: &SurfaceCapabilities) -> (r: u32)
    requires
        caps.count_fits(),
    ensures
        r == image_count_spec(*caps),
{
    if caps.max_image_count > 0 && caps.min_image_count >= caps.max_image_count {
        caps.max_image_count
    } else {
        caps.min_image_count + 1
    }
}

/// The extent of the swapchain's images: the caller's size when the surface reports
/// the undefined sentinel, the surface's own extent otherwise.
pub fn choose_extent(caps: &SurfaceCapabilities, width: u32, height: u32) -> (r: Extent2D)
    ensures
        r == extent_spec(*caps, width, height),
{
    if caps.current_extent.width == UNDEFINED_EXTENT {
        Extent2D { width, height }
    } else {
        caps.current_extent
    }
}

/// Mailbox (low latency, non-blocking) when the surface offers it, else FIFO, which
/// every surface supports.
pub fn choose_present_mode(modes: &Vec<PresentMode>) -> (r: PresentMode)
    ensures
        r == present_mode_spec(modes@),
{
    let mut i: usize = 0;
    while i < modes.len()
        invariant
            0 <= i <= modes@.len(),
            forall|j: int| 0 <= j < i ==> modes@[j] != PresentMode::Mailbox,
        decreases modes@.len() - i,
    {
        if modes[i] == PresentMode::Mailbox {
            assert(modes@.contains(PresentMode::Mailbox)) by {
                assert(modes@[i as int] == PresentMode::Mailbox);
            }
            return PresentMode::Mailbox;
        }
        i += 1;
    }
    assert(!modes@.contains(PresentMode::Mailbox));
    PresentMode::Fifo
}

/// The first format the surface reports; an undefined format leaves the choice open
/// and is replaced by B8G8R8 unsigned-normalized in the same color space.
pub fn choose_surface_format(formats: &Vec<SurfaceFormat>) -> (r: Result<SurfaceFormat, RendererError>)
    ensures
        formats@.len() == 0 <==> r == Err::<SurfaceFormat, RendererError>(RendererError::NoSurfaceFormat),
        formats@.len() > 0 ==> r == Ok::<SurfaceFormat, RendererError>(normalized_format(formats@[0])),
{
    if formats.len() == 0 {
        return Err(RendererError::NoSurfaceFormat);
    }
    let f = formats[0];
    if f.format == FORMAT_UNDEFINED {
        Ok(SurfaceFormat { format: FORMAT_B8G8R8_UNORM, color_space: f.color_space })
    } else {
        Ok(f)
    }
}

/// The identity transform when the surface supports it, else the surface's current one.
pub fn choose_pre_transform(caps: &SurfaceCapabilities) -> (r: u32)
    ensures
        r == pre_transform_spec(*caps),
{
    if caps.supported_transforms & TRANSFORM_IDENTITY == TRANSFORM_IDENTITY {
        TRANSFORM_IDENTITY
    } else {
        caps.current_transform
    }
}

/// Applies every swapchain policy to the surface's current state.
pub fn create_swapchain(
    caps: &SurfaceCapabilities,
    formats: &Vec<SurfaceFormat>,
    modes: &Vec<PresentMode>,
    width: u32,
    height: u32,
) -> (r: Result<SwapchainConfig, RendererError>)
    requires
        caps.count_fits(),
    ensures
        formats@.len() == 0 <==> r == Err::<SwapchainConfig, RendererError>(RendererError::NoSurfaceFormat),
        formats@.len() > 0 ==> r == Ok::<SwapchainConfig, RendererError>(
            config_spec(*caps, formats@, modes@, width, height),
        ),
{
    let format = match choose_surface_format(formats) {
        Ok(f) => f,
        Err(e) => return Err(e),
    };
    Ok(SwapchainConfig {
        image_count: choose_image_count(caps),
        extent: choose_extent(caps, width, height),
        format,
        present_mode: choose_present_mode(modes),
        pre_transform: choose_pre_transform(caps),
    })
}

/// The image count lies within the surface's bounds when it reports a maximum, and is
/// one more than the minimum when it does not.
pub proof fn lemma_image_count_in_bounds(caps: SurfaceCapabilities)
    requires
        caps.valid(),
        caps.count_fits(),
    ensures
        caps.max_image_count > 0 ==> caps.min_image_count <= image_count_spec(caps)
            <= caps.max_image_count,
        caps.max_image_count == 0 ==> image_count_spec(caps) == caps.min_image_count + 1,
{
}

/// When the surface reports the undefined sentinel, the extent used is exactly the
/// caller's size, never the sentinel.
pub proof fn lemma_sentinel_extent_uses_request(caps: SurfaceCapabilities, width: u32, height: u32)
    requires
        caps.current_extent.width == UNDEFINED_EXTENT,
    ensures
        extent_spec(caps, width, height) == (Extent2D { width, height }),
{
}

} // verus!
