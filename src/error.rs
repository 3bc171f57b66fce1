use vstd::prelude::*;

verus! {

/// How the frame loop reacts to an error.
#[derive(Clone, Copy, Debug, PartialEq, Eq, Structural)]
pub enum ErrorKind {
    /// The renderer cannot continue; the error is handed to the caller and never retried.
    Unrecoverable,
    /// A resource request cannot be met; retrying the same request cannot succeed.
    Resource,
    /// A component was used before the one it depends on was created.
    Sequencing,
}

/// Every failure the renderer core reports.
///
/// The `No*` variants are sequencing errors: each names the prerequisite that was
/// missing when a later construction step asked for it.
#[derive(Clone, Copy, Debug, PartialEq, Eq, Structural)]
pub enum RendererError {
    NoEntry,
    NoInstance,
    NoDevice,
    NoWindow,
    NoWidth,
    NoHeight,
    NoDebugReport,
    NoDebugReportCallbackEXT,
    NoPhysicalDevice,
    NoMemoryProperties,
    NoqueueFamilyIndex,
    NoQueue,
    NoSurfaceLoader,
    NoSurface,
    NoSurfaceFormat,
    NoSurfaceResolution,
    NoExtent2D,
    NoSwapchainLoader,
    NoSwapchain,
    NoPresentImages,
    NoPresentImageViews,
    NoDepthImage,
    NoDepthImageView,
    NoDepthImageMemory,
    NoRenderPass,
    NoGraphicsPipeline,
    NoFramebuffers,
    NoVertexBuffer,
    NoCommandPool,
    NoCommandBuffers,
    NoSemaphore,
    /// No enumerated adapter has a queue family that supports graphics and can
    /// present to the target surface.
    NoSuitableDevice,
    /// Creating the logical device failed; carries the driver's result code.
    DeviceCreationFailed(i32),
    /// No memory type allowed by the requirement has the requested properties.
    NoSuitableMemoryType,
    /// Creating a buffer or an image failed; carries the driver's result code.
    ResourceCreationFailed(i32),
    /// The destination buffer is smaller than the data to be transferred into it.
    BufferTooSmall,
    /// The swapchain was still out of date after it had been rebuilt once.
    SwapchainOutOfDate,
    /// The presentation engine handed back an image index the swapchain does not have.
    InvalidImageIndex,
    /// The device was lost mid-session.
    DeviceLost,
    /// A transfer was started while the staging buffer still serves an earlier one.
    StagingBusy,
    /// A frame-loop operation was called in a state that does not allow it.
    InvalidFrameState,
}

pub open spec fn kind_of(e: RendererError) -> ErrorKind {
    match e {
        RendererError::NoSuitableDevice => ErrorKind::Unrecoverable,
        RendererError::DeviceCreationFailed(_) => ErrorKind::Unrecoverable,
        RendererError::SwapchainOutOfDate => ErrorKind::Unrecoverable,
        RendererError::InvalidImageIndex => ErrorKind::Unrecoverable,
        RendererError::DeviceLost => ErrorKind::Unrecoverable,
        RendererError::NoSuitableMemoryType => ErrorKind::Resource,
        RendererError::ResourceCreationFailed(_) => ErrorKind::Resource,
        RendererError::BufferTooSmall => ErrorKind::Resource,
        _ => ErrorKind::Sequencing,
    }
}

pub open spec fn message_of(e: RendererError) -> Seq<char> {
    match e {
        RendererError::NoEntry => "No entry specified"@,
        RendererError::NoInstance => "No instance specified"@,
        RendererError::NoDevice => "No device specified"@,
        RendererError::NoWindow => "No window specified"@,
        RendererError::NoWidth => "No width specified"@,
        RendererError::NoHeight => "No height specified"@,
        RendererError::NoDebugReport => "No debug report specified"@,
        RendererError::NoDebugReportCallbackEXT => "No debug report callback specified"@,
        RendererError::NoPhysicalDevice => "No physical device specified"@,
        RendererError::NoMemoryProperties => "No physical device memory properties specified"@,
        RendererError::NoqueueFamilyIndex => "No queue family index specified"@,
        RendererError::NoQueue => "No queue specified"@,
        RendererError::NoSurfaceLoader => "No surface loader specified"@,
        RendererError::NoSurface => "No surface specified"@,
        RendererError::NoSurfaceFormat => "No surface format specified"@,
        RendererError::NoSurfaceResolution => "No surface resolution specified"@,
        RendererError::NoExtent2D => "No 2D extent specified"@,
        RendererError::NoSwapchainLoader => "No swapchain loader specified"@,
        RendererError::NoSwapchain => "No swapchain specified"@,
        RendererError::NoPresentImages => "No present images specified"@,
        RendererError::NoPresentImageViews => "No present image views specified"@,
        RendererError::NoDepthImage => "No depth image specified"@,
        RendererError::NoDepthImageView => "No depth image view specified"@,
        RendererError::NoDepthImageMemory => "No depth image memory specified"@,
        RendererError::NoRenderPass => "No render pass specified"@,
        RendererError::NoGraphicsPipeline => "No graphics pipeline specified"@,
        RendererError::NoFramebuffers => "No framebuffers specified"@,
        RendererError::NoVertexBuffer => "No vertex buffer specified"@,
        RendererError::NoCommandPool => "No command pool specified"@,
        RendererError::NoCommandBuffers => "No command buffers specified"@,
        RendererError::NoSemaphore => "No semaphore specified"@,
        RendererError::NoSuitableDevice => "No adapter supports graphics and presentation to the surface"@,
        RendererError::DeviceCreationFailed(_) => "Logical device creation failed"@,
        RendererError::NoSuitableMemoryType => "No suitable memory type"@,
        RendererError::ResourceCreationFailed(_) => "Buffer or image creation failed"@,
        RendererError::BufferTooSmall => "Destination buffer is too small for the transfer"@,
        RendererError::SwapchainOutOfDate => "Swapchain still out of date after recreation"@,
        RendererError::InvalidImageIndex => "Acquired image index is out of range"@,
        RendererError::DeviceLost => "Device lost"@,
        RendererError::StagingBusy => "Staging buffer still in use by an earlier transfer"@,
        RendererError::InvalidFrameState => "Frame operation called out of order"@,
    }
}

impl RendererError {
    /// A human-readable description of the error.
    pub fn message(&self) -> (r: &'static str)
        ensures
            r@ == message_of(*self),
    {
        match self {
            RendererError::NoEntry => "No entry specified",
            RendererError::NoInstance => "No instance specified",
            RendererError::NoDevice => "No device specified",
            RendererError::NoWindow => "No window specified",
            RendererError::NoWidth => "No width specified",
            RendererError::NoHeight => "No height specified",
            RendererError::NoDebugReport => "No debug report specified",
            RendererError::NoDebugReportCallbackEXT => "No debug report callback specified",
            RendererError::NoPhysicalDevice => "No physical device specified",
            RendererError::NoMemoryProperties => "No physical device memory properties specified",
            RendererError::NoqueueFamilyIndex => "No queue family index specified",
            RendererError::NoQueue => "No queue specified",
            RendererError::NoSurfaceLoader => "No surface loader specified",
            RendererError::NoSurface => "No surface specified",
            RendererError::NoSurfaceFormat => "No surface format specified",
            RendererError::NoSurfaceResolution => "No surface resolution specified",
            RendererError::NoExtent2D => "No 2D extent specified",
            RendererError::NoSwapchainLoader => "No swapchain loader specified",
            RendererError::NoSwapchain => "No swapchain specified",
            RendererError::NoPresentImages => "No present images specified",
            RendererError::NoPresentImageViews => "No present image views specified",
            RendererError::NoDepthImage => "No depth image specified",
            RendererError::NoDepthImageView => "No depth image view specified",
            RendererError::NoDepthImageMemory => "No depth image memory specified",
            RendererError::NoRenderPass => "No render pass specified",
            RendererError::NoGraphicsPipeline => "No graphics pipeline specified",
            RendererError::NoFramebuffers => "No framebuffers specified",
            RendererError::NoVertexBuffer => "No vertex buffer specified",
            RendererError::NoCommandPool => "No command pool specified",
            RendererError::NoCommandBuffers => "No command buffers specified",
            RendererError::NoSemaphore => "No semaphore specified",
            RendererError::NoSuitableDevice => "No adapter supports graphics and presentation to the surface",
            RendererError::DeviceCreationFailed(_) => "Logical device creation failed",
            RendererError::NoSuitableMemoryType => "No suitable memory type",
            RendererError::ResourceCreationFailed(_) => "Buffer or image creation failed",
            RendererError::BufferTooSmall => "Destination buffer is too small for the transfer",
            RendererError::SwapchainOutOfDate => "Swapchain still out of date after recreation",
            RendererError::InvalidImageIndex => "Acquired image index is out of range",
            RendererError::DeviceLost => "Device lost",
            RendererError::StagingBusy => "Staging buffer still in use by an earlier transfer",
            RendererError::InvalidFrameState => "Frame operation called out of order",
        }
    }

    /// Classifies the error by how the caller is expected to react to it.
    pub fn kind(&self) -> (r: ErrorKind)
        ensures
            r == kind_of(*self),
    {
        match self {
            RendererError::NoSuitableDevice => ErrorKind::Unrecoverable,
            RendererError::DeviceCreationFailed(_) => ErrorKind::Unrecoverable,
            RendererError::SwapchainOutOfDate => ErrorKind::Unrecoverable,
            RendererError::InvalidImageIndex => ErrorKind::Unrecoverable,
            RendererError::DeviceLost => ErrorKind::Unrecoverable,
            RendererError::NoSuitableMemoryType => ErrorKind::Resource,
            RendererError::ResourceCreationFailed(_) => ErrorKind::Resource,
            RendererError::BufferTooSmall => ErrorKind::Resource,
            _ => ErrorKind::Sequencing,
        }
    }
}

} // verus!
