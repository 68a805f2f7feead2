//! The presentation backend the client runs on, for diagnostics only.

use vstd::prelude::*;

verus! {

/// Presentation backend selected for the current client. Diagnostic state
/// only; it never enters Workshop commands, archives, revisions or digests.
#[derive(Clone, Copy, Debug, PartialEq, Eq, Hash, Structural)]
pub enum BackendKind {
    Metal,
    Dx12,
    Vulkan,
    Gl,
    WebGpu,
    WebGl2Low,
}

/// The graphics API an adapter reports.
#[derive(Clone, Copy, Debug, PartialEq, Eq, Hash, Structural)]
pub enum GraphicsBackend {
    Noop,
    Vulkan,
    Metal,
    Dx12,
    Gl,
    BrowserWebGpu,
}

pub open spec fn backend_label(kind: BackendKind) -> Seq<char> {
    match kind {
        BackendKind::Metal => "METAL"@,
        BackendKind::Dx12 => "DX12"@,
        BackendKind::Vulkan => "VULKAN"@,
        BackendKind::Gl => "GL"@,
        BackendKind::WebGpu => "WEBGPU"@,
        BackendKind::WebGl2Low => "WEBGL2 LOW"@,
    }
}

/// The diagnostic a native client reports for an adapter's API; the noop
/// test backend has none.
pub open spec fn native_backend_kind(backend: GraphicsBackend) -> Option<BackendKind> {
    match backend {
        GraphicsBackend::Noop => None,
        GraphicsBackend::Vulkan => Some(BackendKind::Vulkan),
        GraphicsBackend::Metal => Some(BackendKind::Metal),
        GraphicsBackend::Dx12 => Some(BackendKind::Dx12),
        GraphicsBackend::Gl => Some(BackendKind::Gl),
        GraphicsBackend::BrowserWebGpu => Some(BackendKind::WebGpu),
    }
}

impl BackendKind {
    /// Converts an adapter's API into the diagnostic a native client shows.
    pub fn from_wgpu(backend: GraphicsBackend) -> (kind: Option<Self>)
        ensures
            kind == native_backend_kind(backend),
    {
        match backend {
            GraphicsBackend::Noop => None,
            GraphicsBackend::Vulkan => Some(BackendKind::Vulkan),
            GraphicsBackend::Metal => Some(BackendKind::Metal),
            GraphicsBackend::Dx12 => Some(BackendKind::Dx12),
            GraphicsBackend::Gl => Some(BackendKind::Gl),
            GraphicsBackend::BrowserWebGpu => Some(BackendKind::WebGpu),
        }
    }

    pub fn label(self) -> (label: &'static str)
        ensures
            label@ == backend_label(self),
    {
        match self {
            BackendKind::Metal => "METAL",
            BackendKind::Dx12 => "DX12",
            BackendKind::Vulkan => "VULKAN",
            BackendKind::Gl => "GL",
            BackendKind::WebGpu => "WEBGPU",
            BackendKind::WebGl2Low => "WEBGL2 LOW",
        }
    }

    pub fn is_low_capability(self) -> (low: bool)
        ensures
            low == (self == BackendKind::WebGl2Low),
    {
        matches!(self, BackendKind::WebGl2Low)
    }
}

} // verus!
