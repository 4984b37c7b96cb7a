use vstd::prelude::*;
use crate::io::{LiquidError, LiquidErrorKind};
use crate::renderer::{LiquidCreateRendererInfo, LiquidRendererDevices};

verus! {

/// The OpenGL backend, which is not implemented and holds no GPU objects.
#[derive(Debug)]
pub struct LiquidOpenGLRenderer {
    pub screen_width: u32,
    pub screen_height: u32,
    pub renderer_devices: Vec<LiquidRendererDevices>,
}

impl LiquidOpenGLRenderer {
    /// The OpenGL backend is not implemented: construction fails at once with
    /// an unsupported-backend error rather than hand out a renderer that
    /// cannot draw.
    pub fn new(_create_renderer_info: &LiquidCreateRendererInfo) -> (r: Result<
        LiquidOpenGLRenderer,
        LiquidError,
    >)
        ensures
            r matches Err(e) && e.kind == LiquidErrorKind::UnsupportedBackend,
    {
        Err(
            LiquidError::at(
                LiquidErrorKind::UnsupportedBackend,
                "The OpenGL renderer is not supported yet",
                "src/renderer/opengl.rs",
                27,
                13,
            ),
        )
    }
}

} // verus!
