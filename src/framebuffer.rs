use vstd::prelude::*;

verus! {

/// The object names of a render-to-texture framebuffer: its colour texture,
/// its depth renderbuffer and the framebuffer object itself. Zero means none.
#[derive(Clone, Copy, Debug, PartialEq, Eq, Structural)]
pub struct GlFramebuffer {
    pub texture_id: u32,
    pub renderbuffer_id: u32,
    pub fbo_id: u32,
}

/// Binding of a framebuffer for the current scope; unbinding restores the
/// default framebuffer (name zero).
#[derive(Clone, Copy, Debug, PartialEq, Eq, Structural)]
pub struct BindGuard {
    pub fbo_id: u32,
}

impl BindGuard {
    /// The framebuffer bound when the guard ends.
    pub fn unbind_target(&self) -> (r: u32)
        ensures
            r == 0,
    {
        0
    }
}

impl GlFramebuffer {
    /// A framebuffer with no objects yet.
    pub fn new() -> (r: GlFramebuffer)
        ensures
            r == (GlFramebuffer { texture_id: 0, renderbuffer_id: 0, fbo_id: 0 }),
    {
        GlFramebuffer { texture_id: 0, renderbuffer_id: 0, fbo_id: 0 }
    }

    /// Forgets every object, returning the names to delete: framebuffer,
    /// texture, renderbuffer.
    pub fn destroy(&mut self) -> (r: (u32, u32, u32))
        ensures
            r == (old(self).fbo_id, old(self).texture_id, old(self).renderbuffer_id),
            *final(self) == (GlFramebuffer { texture_id: 0, renderbuffer_id: 0, fbo_id: 0 }),
    {
        let r = (self.fbo_id, self.texture_id, self.renderbuffer_id);
        self.fbo_id = 0;
        self.texture_id = 0;
        self.renderbuffer_id = 0;
        r
    }

    /// Whether a resize must first destroy the objects that exist.
    pub fn resize_needs_destroy(&self) -> (r: bool)
        ensures
            r == (self.fbo_id != 0),
    {
        self.fbo_id != 0
    }

    /// Records the objects a resize created.
    pub fn resized(&mut self, texture_id: u32, renderbuffer_id: u32, fbo_id: u32)
        ensures
            *final(self) == (GlFramebuffer { texture_id, renderbuffer_id, fbo_id }),
    {
        self.texture_id = texture_id;
        self.renderbuffer_id = renderbuffer_id;
        self.fbo_id = fbo_id;
    }

    pub fn as_raw(&self) -> (r: u32)
        ensures
            r == self.fbo_id,
    {
        self.fbo_id
    }

    pub fn texture_id(&self) -> (r: u32)
        ensures
            r == self.texture_id,
    {
        self.texture_id
    }

    /// Binds this framebuffer for the guard's scope.
    pub fn bind(&self) -> (r: BindGuard)
        ensures
            r.fbo_id == self.fbo_id,
    {
        BindGuard { fbo_id: self.fbo_id }
    }

    /// Whether a buffer of `len` pixels holds a `width` by `height` read-back.
    pub fn read_pixels_fits(len: usize, width: u32, height: u32) -> (r: bool)
        ensures
            r == (len == width * height),
    {
        proof {
            assert((width as u64) * (height as u64) <= u64::MAX) by (nonlinear_arith)
                requires
                    width <= u32::MAX,
                    height <= u32::MAX,
            ;
        }
        (len as u64) == (width as u64) * (height as u64)
    }
}

} // verus!
