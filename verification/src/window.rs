use vstd::prelude::*;

verus! {

/// A native graphics context bound to one window.
///
/// A context is obtained only from [`Window::gl_create_context`] and records
/// which window it was created for. It is deliberately neither `Clone` nor
/// `Copy`: whoever holds it owns the underlying context, and dropping the
/// value is what releases it, exactly once.
pub struct GlContext {
    window_id: u32,
}

impl GlContext {
    /// The identifier of the window this context is bound to.
    pub closed spec fn window_id(&self) -> u32 {
        self.window_id
    }
}

/// What the adapter reads of a platform window: its identifier, the current
/// size in pixels of its drawable surface, and whether the platform can bind
/// a native graphics context to it.
///
/// The drawable size is whatever the window system says right now; it changes
/// whenever the window is resized, which [`Window::set_drawable_size`]
/// records.
pub struct Window {
    /// Identifier the window system gave this window.
    pub id: u32,
    /// Current width in pixels of the drawable surface.
    pub drawable_width: u32,
    /// Current height in pixels of the drawable surface.
    pub drawable_height: u32,
    /// Whether a native graphics context can be created for this window.
    pub gl_supported: bool,
    /// How many frames the window has been asked to present. Ghost: the
    /// frames themselves are visible only on the display.
    pub presented: Ghost<nat>,
}

impl Window {
    /// This window after a resize to `width` by `height` pixels.
    pub open spec fn spec_resized(self, width: u32, height: u32) -> Window {
        Window { drawable_width: width, drawable_height: height, ..self }
    }

    /// A window as the window system first hands it over: nothing presented
    /// on it yet.
    pub fn new(id: u32, width: u32, height: u32, gl_supported: bool) -> (r: Window)
        ensures
            r.id == id,
            r.drawable_width == width,
            r.drawable_height == height,
            r.gl_supported == gl_supported,
            r.presented@ == 0,
    {
        Window {
            id,
            drawable_width: width,
            drawable_height: height,
            gl_supported,
            presented: Ghost(0),
        }
    }

    /// The size in pixels of the window's drawable surface, as it is now.
    pub fn drawable_size(&self) -> (r: (u32, u32))
        ensures
            r.0 == self.drawable_width,
            r.1 == self.drawable_height,
    {
        (self.drawable_width, self.drawable_height)
    }

    /// Record that the window was resized to `width` by `height` pixels.
    pub fn set_drawable_size(&mut self, width: u32, height: u32)
        ensures
            *final(self) == old(self).spec_resized(width, height),
    {
        self.drawable_width = width;
        self.drawable_height = height;
    }

    /// Create a native graphics context bound to this window.
    ///
    /// This succeeds exactly when the platform supports such a context for
    /// the window; the context returned is bound to this window and to no
    /// other.
    pub fn gl_create_context(&self) -> (r: Option<GlContext>)
        ensures
            r is Some <==> self.gl_supported,
            r is Some ==> (r->Some_0).window_id() == self.id,
    {
        if self.gl_supported {
            Some(GlContext { window_id: self.id })
        } else {
            None
        }
    }

    /// Ask the window system to swap the window's front and back buffers,
    /// presenting the most recently rendered frame. Nothing the adapter
    /// reads of the window changes.
    pub fn gl_swap_window(&mut self)
        ensures
            final(self).presented@ == old(self).presented@ + 1,
            final(self).id == old(self).id,
            final(self).drawable_width == old(self).drawable_width,
            final(self).drawable_height == old(self).drawable_height,
            final(self).gl_supported == old(self).gl_supported,
    {
        self.presented = Ghost(self.presented@ + 1);
    }
}

} // verus!
