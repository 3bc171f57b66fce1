use vstd::prelude::*;

use crate::error::RendererError;

verus! {

/// A part of the renderer that later construction steps depend on.
#[derive(Clone, Copy, Debug, PartialEq, Eq, Structural)]
pub enum Component {
    Entry,
    Instance,
    Window,
    DebugReport,
    SurfaceLoader,
    Surface,
    PhysicalDevice,
    QueueFamilyIndex,
    Device,
    Queue,
    SurfaceFormat,
    SurfaceResolution,
    SwapchainLoader,
    Swapchain,
    PresentImageViews,
    DepthImage,
    DepthImageView,
    RenderPass,
    GraphicsPipeline,
    Framebuffers,
    CommandPool,
    CommandBuffers,
    VertexBuffer,
    Semaphores,
}

/// A construction step of the renderer.
#[derive(Clone, Copy, Debug, PartialEq, Eq, Structural)]
pub enum SetupStep {
    SetDebugCallback,
    CreateSurfaceLoader,
    CreateSurface,
    PickPhysicalDevice,
    ChooseSurfaceFormat,
    ChooseSurfaceResolution,
    CreateLogicalDevice,
    CreateSwapchain,
    CreateImageViews,
    CreateDepthView,
    CreateRenderPass,
    CreateGraphicsPipeline,
    CreateFramebuffers,
    CreateCommandPool,
    CreateCommandBuffers,
    CreateVertexBuffer,
    CreateSemaphores,
}

/// The sequencing error that names a missing component.
pub open spec fn missing_error(c: Component) -> RendererError {
    match c {
        Component::Entry => RendererError::NoEntry,
        Component::Instance => RendererError::NoInstance,
        Component::Window => RendererError::NoWindow,
        Component::DebugReport => RendererError::NoDebugReport,
        Component::SurfaceLoader => RendererError::NoSurfaceLoader,
        Component::Surface => RendererError::NoSurface,
        Component::PhysicalDevice => RendererError::NoPhysicalDevice,
        Component::QueueFamilyIndex => RendererError::NoqueueFamilyIndex,
        Component::Device => RendererError::NoDevice,
        Component::Queue => RendererError::NoQueue,
        Component::SurfaceFormat => RendererError::NoSurfaceFormat,
        Component::SurfaceResolution => RendererError::NoSurfaceResolution,
        Component::SwapchainLoader => RendererError::NoSwapchainLoader,
        Component::Swapchain => RendererError::NoSwapchain,
        Component::PresentImageViews => RendererError::NoPresentImageViews,
        Component::DepthImage => RendererError::NoDepthImage,
        Component::DepthImageView => RendererError::NoDepthImageView,
        Component::RenderPass => RendererError::NoRenderPass,
        Component::GraphicsPipeline => RendererError::NoGraphicsPipeline,
        Component::Framebuffers => RendererError::NoFramebuffers,
        Component::CommandPool => RendererError::NoCommandPool,
        Component::CommandBuffers => RendererError::NoCommandBuffers,
        Component::VertexBuffer => RendererError::NoVertexBuffer,
        Component::Semaphores => RendererError::NoSemaphore,
    }
}

/// What a step needs, in the order in which it looks for it.
pub open spec fn prerequisites_spec(step: SetupStep) -> Seq<Component> {
    match step {
        SetupStep::SetDebugCallback => seq![Component::Entry, Component::Instance],
        SetupStep::CreateSurfaceLoader => seq![Component::Entry, Component::Instance],
        SetupStep::CreateSurface => seq![Component::Entry, Component::Instance, Component::Window],
        SetupStep::PickPhysicalDevice => seq![Component::Instance, Component::Surface, Component::SurfaceLoader],
        SetupStep::ChooseSurfaceFormat => seq![Component::PhysicalDevice, Component::Surface, Component::SurfaceLoader],
        SetupStep::ChooseSurfaceResolution => seq![Component::PhysicalDevice, Component::Surface, Component::SurfaceLoader],
        SetupStep::CreateLogicalDevice => seq![Component::Instance, Component::QueueFamilyIndex, Component::PhysicalDevice],
        SetupStep::CreateSwapchain => seq![Component::Device, Component::Surface, Component::SurfaceFormat, Component::SurfaceResolution],
        SetupStep::CreateImageViews => seq![Component::SurfaceFormat, Component::Device, Component::Swapchain, Component::SwapchainLoader],
        SetupStep::CreateDepthView => seq![Component::SurfaceResolution, Component::Instance, Component::Device, Component::PhysicalDevice],
        SetupStep::CreateRenderPass => seq![Component::Device, Component::SurfaceFormat],
        SetupStep::CreateGraphicsPipeline => seq![Component::Device, Component::RenderPass, Component::SurfaceResolution],
        SetupStep::CreateFramebuffers => seq![Component::Device, Component::RenderPass, Component::SurfaceResolution, Component::PresentImageViews, Component::DepthImageView],
        SetupStep::CreateCommandPool => seq![Component::Instance, Component::QueueFamilyIndex, Component::Device],
        SetupStep::CreateCommandBuffers => seq![Component::CommandPool, Component::Device, Component::Framebuffers],
        SetupStep::CreateVertexBuffer => seq![Component::Device, Component::Instance, Component::PhysicalDevice],
        SetupStep::CreateSemaphores => seq![Component::Device],
    }
}

/// What a step creates.
pub open spec fn products_spec(step: SetupStep) -> Seq<Component> {
    match step {
        SetupStep::SetDebugCallback => seq![Component::DebugReport],
        SetupStep::CreateSurfaceLoader => seq![Component::SurfaceLoader],
        SetupStep::CreateSurface => seq![Component::Surface],
        SetupStep::PickPhysicalDevice => seq![Component::PhysicalDevice, Component::QueueFamilyIndex],
        SetupStep::ChooseSurfaceFormat => seq![Component::SurfaceFormat],
        SetupStep::ChooseSurfaceResolution => seq![Component::SurfaceResolution],
        SetupStep::CreateLogicalDevice => seq![Component::Device, Component::Queue],
        SetupStep::CreateSwapchain => seq![Component::SwapchainLoader, Component::Swapchain],
        SetupStep::CreateImageViews => seq![Component::PresentImageViews],
        SetupStep::CreateDepthView => seq![Component::DepthImage, Component::DepthImageView],
        SetupStep::CreateRenderPass => seq![Component::RenderPass],
        SetupStep::CreateGraphicsPipeline => seq![Component::GraphicsPipeline],
        SetupStep::CreateFramebuffers => seq![Component::Framebuffers],
        SetupStep::CreateCommandPool => seq![Component::CommandPool],
        SetupStep::CreateCommandBuffers => seq![Component::CommandBuffers],
        SetupStep::CreateVertexBuffer => seq![Component::VertexBuffer],
        SetupStep::CreateSemaphores => seq![Component::Semaphores],
    }
}

pub fn missing_component_error(c: Component) -> (r: RendererError)
    ensures
        r == missing_error(c),
{
    match c {
        Component::Entry => RendererError::NoEntry,
        Component::Instance => RendererError::NoInstance,
        Component::Window => RendererError::NoWindow,
        Component::DebugReport => RendererError::NoDebugReport,
        Component::SurfaceLoader => RendererError::NoSurfaceLoader,
        Component::Surface => RendererError::NoSurface,
        Component::PhysicalDevice => RendererError::NoPhysicalDevice,
        Component::QueueFamilyIndex => RendererError::NoqueueFamilyIndex,
        Component::Device => RendererError::NoDevice,
        Component::Queue => RendererError::NoQueue,
        Component::SurfaceFormat => RendererError::NoSurfaceFormat,
        Component::SurfaceResolution => RendererError::NoSurfaceResolution,
        Component::SwapchainLoader => RendererError::NoSwapchainLoader,
        Component::Swapchain => RendererError::NoSwapchain,
        Component::PresentImageViews => RendererError::NoPresentImageViews,
        Component::DepthImage => RendererError::NoDepthImage,
        Component::DepthImageView => RendererError::NoDepthImageView,
        Component::RenderPass => RendererError::NoRenderPass,
        Component::GraphicsPipeline => RendererError::NoGraphicsPipeline,
        Component::Framebuffers => RendererError::NoFramebuffers,
        Component::CommandPool => RendererError::NoCommandPool,
        Component::CommandBuffers => RendererError::NoCommandBuffers,
        Component::VertexBuffer => RendererError::NoVertexBuffer,
        Component::Semaphores => RendererError::NoSemaphore,
    }
}

pub fn prerequisites(step: SetupStep) -> (r: Vec<Component>)
    ensures
        r@ == prerequisites_spec(step),
{
    match step {
        SetupStep::SetDebugCallback => vec![Component::Entry, Component::Instance],
        SetupStep::CreateSurfaceLoader => vec![Component::Entry, Component::Instance],
        SetupStep::CreateSurface => vec![Component::Entry, Component::Instance, Component::Window],
        SetupStep::PickPhysicalDevice => vec![Component::Instance, Component::Surface, Component::SurfaceLoader],
        SetupStep::ChooseSurfaceFormat => vec![Component::PhysicalDevice, Component::Surface, Component::SurfaceLoader],
        SetupStep::ChooseSurfaceResolution => vec![Component::PhysicalDevice, Component::Surface, Component::SurfaceLoader],
        SetupStep::CreateLogicalDevice => vec![Component::Instance, Component::QueueFamilyIndex, Component::PhysicalDevice],
        SetupStep::CreateSwapchain => vec![Component::Device, Component::Surface, Component::SurfaceFormat, Component::SurfaceResolution],
        SetupStep::CreateImageViews => vec![Component::SurfaceFormat, Component::Device, Component::Swapchain, Component::SwapchainLoader],
        SetupStep::CreateDepthView => vec![Component::SurfaceResolution, Component::Instance, Component::Device, Component::PhysicalDevice],
        SetupStep::CreateRenderPass => vec![Component::Device, Component::SurfaceFormat],
        SetupStep::CreateGraphicsPipeline => vec![Component::Device, Component::RenderPass, Component::SurfaceResolution],
        SetupStep::CreateFramebuffers => vec![Component::Device, Component::RenderPass, Component::SurfaceResolution, Component::PresentImageViews, Component::DepthImageView],
        SetupStep::CreateCommandPool => vec![Component::Instance, Component::QueueFamilyIndex, Component::Device],
        SetupStep::CreateCommandBuffers => vec![Component::CommandPool, Component::Device, Component::Framebuffers],
        SetupStep::CreateVertexBuffer => vec![Component::Device, Component::Instance, Component::PhysicalDevice],
        SetupStep::CreateSemaphores => vec![Component::Device],
    }
}

pub fn products(step: SetupStep) -> (r: Vec<Component>)
    ensures
        r@ == products_spec(step),
{
    match step {
        SetupStep::SetDebugCallback => vec![Component::DebugReport],
        SetupStep::CreateSurfaceLoader => vec![Component::SurfaceLoader],
        SetupStep::CreateSurface => vec![Component::Surface],
        SetupStep::PickPhysicalDevice => vec![Component::PhysicalDevice, Component::QueueFamilyIndex],
        SetupStep::ChooseSurfaceFormat => vec![Component::SurfaceFormat],
        SetupStep::ChooseSurfaceResolution => vec![Component::SurfaceResolution],
        SetupStep::CreateLogicalDevice => vec![Component::Device, Component::Queue],
        SetupStep::CreateSwapchain => vec![Component::SwapchainLoader, Component::Swapchain],
        SetupStep::CreateImageViews => vec![Component::PresentImageViews],
        SetupStep::CreateDepthView => vec![Component::DepthImage, Component::DepthImageView],
        SetupStep::CreateRenderPass => vec![Component::RenderPass],
        SetupStep::CreateGraphicsPipeline => vec![Component::GraphicsPipeline],
        SetupStep::CreateFramebuffers => vec![Component::Framebuffers],
        SetupStep::CreateCommandPool => vec![Component::CommandPool],
        SetupStep::CreateCommandBuffers => vec![Component::CommandBuffers],
        SetupStep::CreateVertexBuffer => vec![Component::VertexBuffer],
        SetupStep::CreateSemaphores => vec![Component::Semaphores],
    }
}

/// `needs[i]` is the first component of `needs` that `present` lacks.
pub open spec fn first_missing(present: Seq<Component>, needs: Seq<Component>, i: int) -> bool {
    &&& 0 <= i < needs.len()
    &&& !present.contains(needs[i])
    &&& forall|j: int| 0 <= j < i ==> present.contains(#[trigger] needs[j])
}

pub open spec fn all_present(present: Seq<Component>, needs: Seq<Component>) -> bool {
    forall|j: int| 0 <= j < needs.len() ==> present.contains(#[trigger] needs[j])
}

fn contains(v: &Vec<Component>, c: Component) -> (r: bool)
    ensures
        r == v@.contains(c),
{
    let mut i: usize = 0;
    while i < v.len()
        invariant
            i <= v@.len(),
            forall|j: int| 0 <= j < i ==> v@[j] != c,
        decreases v@.len() - i,
    {
        if v[i] == c {
            assert(v@[i as int] == c);
            return true;
        }
        i += 1;
    }
    false
}

/// Tracks which components of the renderer exist, so that each construction step can
/// name the first prerequisite it lacks instead of running on missing state.
pub struct RendererSetup {
    present: Vec<Component>,
}

impl View for RendererSetup {
    type V = Seq<Component>;

    closed spec fn view(&self) -> Seq<Component> {
        self.present@
    }
}

impl RendererSetup {
    pub fn new() -> (r: RendererSetup)
        ensures
            forall|c: Component| !r@.contains(c),
    {
        RendererSetup { present: Vec::new() }
    }

    fn add(&mut self, c: Component)
        ensures
            forall|x: Component| final(self)@.contains(x) <==> (old(self)@.contains(x) || x == c),
    {
        if !contains(&self.present, c) {
            self.present.push(c);
            assert forall|x: Component| self@.contains(x) <==> (old(self)@.contains(x) || x == c) by {
                if old(self)@.contains(x) {
                    let k = choose|k: int| 0 <= k < old(self)@.len() && old(self)@[k] == x;
                    assert(self@[k] == x);
                }
                if x == c {
                    assert(self@[self@.len() - 1] == c);
                }
            }
        }
    }

    /// Records a component that the caller supplies (the entry, instance or window).
    pub fn provide(&mut self, c: Component)
        ensures
            forall|x: Component| final(self)@.contains(x) <==> (old(self)@.contains(x) || x == c),
    {
        self.add(c);
    }

    pub fn has(&self, c: Component) -> (r: bool)
        ensures
            r == self@.contains(c),
    {
        contains(&self.present, c)
    }

    /// Checks a step's prerequisites in order: `Ok` when all exist, else the sequencing
    /// error of the first one missing.
    pub fn check(&self, step: SetupStep) -> (r: Result<(), RendererError>)
        ensures
            r is Ok <==> all_present(self@, prerequisites_spec(step)),
            match r {
                Ok(_) => true,
                Err(e) => exists|i: int|
                    first_missing(self@, prerequisites_spec(step), i) && e == missing_error(
                        prerequisites_spec(step)[i],
                    ),
            },
    {
        let needs = prerequisites(step);
        let mut i: usize = 0;
        while i < needs.len()
            invariant
                needs@ == prerequisites_spec(step),
                i <= needs@.len(),
                forall|j: int| 0 <= j < i ==> self@.contains(#[trigger] needs@[j]),
            decreases needs@.len() - i,
        {
            if !contains(&self.present, needs[i]) {
                let e = missing_component_error(needs[i]);
                assert(first_missing(self@, needs@, i as int));
                return Err(e);
            }
            i += 1;
        }
        Ok(())
    }

    /// Records that `step` ran and created its components.
    pub fn complete(&mut self, step: SetupStep)
        ensures
            forall|x: Component|
                final(self)@.contains(x) <==> (old(self)@.contains(x) || products_spec(step).contains(x)),
    {
        let made = products(step);
        let mut i: usize = 0;
        while i < made.len()
            invariant
                made@ == products_spec(step),
                i <= made@.len(),
                forall|x: Component|
                    self@.contains(x) <==> (old(self)@.contains(x) || exists|k: int|
                        0 <= k < i && made@[k] == x),
            decreases made@.len() - i,
        {
            let c = made[i];
            self.add(c);
            assert forall|x: Component|
                self@.contains(x) <==> (old(self)@.contains(x) || exists|k: int|
                    0 <= k < i + 1 && made@[k] == x) by {
                if x == c {
                    assert(made@[i as int] == c);
                }
            }
            i += 1;
        }
    }
}

} // verus!
