pub mod opengl;
pub mod vulkan;

use vstd::prelude::*;
use crate::io::{LiquidError, LiquidErrorKind};
use crate::renderer::opengl::LiquidOpenGLRenderer;
use crate::renderer::vulkan::{LiquidVulkanRenderer, VulkanSetup};

verus! {

/// The steps of bringing up the Vulkan backend, in the order they run.
#[derive(Clone, Copy, Debug, PartialEq, Eq, Structural)]
pub enum VulkanStep {
    LoadEntry,
    CreateInstance,
    InstallDebugMessenger,
    EnumerateDevices,
    QueryQueueFamilies,
    CreateDevice,
    Complete,
    Failed,
}

/// The rendering backend, chosen once when the engine is built.
#[derive(Clone, Copy, Debug, PartialEq, Eq, Structural)]
pub enum LiquidRendererTypes {
    Vulkan,
    OpenGL,
}

pub struct LiquidCreateRendererInfo {
    pub application_name: String,
    pub version_variant: u32,
    pub version_major: u32,
    pub version_minor: u32,
    pub version_patch: u32,
    pub renderer_type: LiquidRendererTypes,
}

/// What is recorded of a discovered physical device.
#[derive(Debug)]
pub struct LiquidRendererDevices {
    pub name: String,
    pub vendor_id: u32,
    pub device_id: u32,
}

/// The live rendering backend: exactly one variant per engine.
#[derive(Debug)]
pub enum LiquidRenderer {
    Vulkan(LiquidVulkanRenderer),
    OpenGL(LiquidOpenGLRenderer),
}

impl LiquidRenderer {
    pub open spec fn backend(&self) -> LiquidRendererTypes {
        match self {
            LiquidRenderer::Vulkan(_) => LiquidRendererTypes::Vulkan,
            LiquidRenderer::OpenGL(_) => LiquidRendererTypes::OpenGL,
        }
    }

    /// Builds the backend that `create_renderer_info` selects. For Vulkan,
    /// `vulkan_setup` is the finished construction protocol: the renderer exists
    /// only if every step succeeded, else its error comes back. OpenGL is not
    /// implemented and fails with `UnsupportedBackend`.
    pub fn new(create_renderer_info: &LiquidCreateRendererInfo, vulkan_setup: VulkanSetup) -> (r:
        Result<LiquidRenderer, LiquidError>)
        requires
            create_renderer_info.renderer_type == LiquidRendererTypes::Vulkan ==> vulkan_setup.wf()
                && vulkan_setup.finished(),
        ensures
            create_renderer_info.renderer_type == LiquidRendererTypes::Vulkan ==> (r is Ok
                <==> vulkan_setup.step() == VulkanStep::Complete),
            create_renderer_info.renderer_type == LiquidRendererTypes::Vulkan
                && vulkan_setup.step() == VulkanStep::Failed ==> (r matches Err(e) && e.kind
                == vulkan_setup.error_kind() && e.msg@ == vulkan_setup.error_msg()),
            r matches Ok(renderer) ==> renderer.backend() == create_renderer_info.renderer_type,
            r matches Ok(LiquidRenderer::Vulkan(v)) ==> v.wf() && v.devices()
                == vulkan_setup.devices() && v.has_debug_messenger() == vulkan_setup.debug(),
            create_renderer_info.renderer_type == LiquidRendererTypes::OpenGL ==> (r matches Err(e)
                && e.kind == LiquidErrorKind::UnsupportedBackend),
    {
        match create_renderer_info.renderer_type {
            LiquidRendererTypes::Vulkan => match LiquidVulkanRenderer::new(vulkan_setup) {
                Ok(v) => Ok(LiquidRenderer::Vulkan(v)),
                Err(e) => Err(e),
            },
            LiquidRendererTypes::OpenGL => match LiquidOpenGLRenderer::new(create_renderer_info) {
                Ok(g) => Ok(LiquidRenderer::OpenGL(g)),
                Err(e) => Err(e),
            },
        }
    }
}

/// Names the window a renderer is to draw into.
pub struct LiquidAttachRendererToWindowInfo {
    pub window_uuid: u128,
}

} // verus!
