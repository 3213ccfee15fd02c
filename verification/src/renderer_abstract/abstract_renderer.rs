//! Renderer kinds, and the back ends that only keep their surface size.
use vstd::prelude::*;

verus! {

/// The kinds of renderer.
#[derive(Debug, Clone, Copy, PartialEq, Eq)]
pub enum RendererType {
    Wgpu,
    Dom,
    TinySkia,
    Pdf,
}

/// The surface size every back end starts with.
pub open spec fn default_surface() -> (u32, u32) {
    (800, 600)
}

/// A DOM back end that does not draw yet; it keeps its surface size.
pub struct DomRenderer {
    size: (u32, u32),
}

/// A tiny-skia back end that does not draw yet; it keeps its surface size.
pub struct TinySkiaRenderer {
    size: (u32, u32),
}

/// A PDF back end that does not draw yet; it keeps its surface size.
pub struct PdfRenderer {
    size: (u32, u32),
}

impl DomRenderer {
    pub closed spec fn spec_size(&self) -> (u32, u32) {
        self.size
    }

    /// A renderer with an 800 x 600 surface.
    pub fn new() -> (r: DomRenderer)
        ensures
            r.spec_size() == default_surface(),
    {
        DomRenderer { size: (800, 600) }
    }

    pub fn renderer_type(&self) -> (t: RendererType)
        ensures
            t == RendererType::Dom,
    {
        RendererType::Dom
    }

    /// The surface size, (width, height).
    pub fn size(&self) -> (s: (u32, u32))
        ensures
            s == self.spec_size(),
    {
        self.size
    }

    /// Changes the surface size.
    pub fn resize(&mut self, new_size: (u32, u32))
        ensures
            final(self).spec_size() == new_size,
    {
        self.size = new_size;
    }
}

impl TinySkiaRenderer {
    pub closed spec fn spec_size(&self) -> (u32, u32) {
        self.size
    }

    /// A renderer with an 800 x 600 surface.
    pub fn new() -> (r: TinySkiaRenderer)
        ensures
            r.spec_size() == default_surface(),
    {
        TinySkiaRenderer { size: (800, 600) }
    }

    pub fn renderer_type(&self) -> (t: RendererType)
        ensures
            t == RendererType::TinySkia,
    {
        RendererType::TinySkia
    }

    /// The surface size, (width, height).
    pub fn size(&self) -> (s: (u32, u32))
        ensures
            s == self.spec_size(),
    {
        self.size
    }

    /// Changes the surface size.
    pub fn resize(&mut self, new_size: (u32, u32))
        ensures
            final(self).spec_size() == new_size,
    {
        self.size = new_size;
    }
}

impl PdfRenderer {
    pub closed spec fn spec_size(&self) -> (u32, u32) {
        self.size
    }

    /// A renderer with an 800 x 600 surface.
    pub fn new() -> (r: PdfRenderer)
        ensures
            r.spec_size() == default_surface(),
    {
        PdfRenderer { size: (800, 600) }
    }

    pub fn renderer_type(&self) -> (t: RendererType)
        ensures
            t == RendererType::Pdf,
    {
        RendererType::Pdf
    }

    /// The surface size, (width, height).
    pub fn size(&self) -> (s: (u32, u32))
        ensures
            s == self.spec_size(),
    {
        self.size
    }

    /// Changes the surface size.
    pub fn resize(&mut self, new_size: (u32, u32))
        ensures
            final(self).spec_size() == new_size,
    {
        self.size = new_size;
    }
}

} // verus!
