use vstd::prelude::*;

use crate::backend::FrameBuffer;
use crate::window::GlContext;
use crate::window::Window;

verus! {

/// Flag for the color buffer of a render target.
pub const COLOR: u8 = 1;

/// Flag for the depth buffer of a render target.
pub const DEPTH: u8 = 2;

/// Flag for the stencil buffer of a render target.
pub const STENCIL: u8 = 4;

/// The full mask: color, depth and stencil all present.
pub const MASK_ALL: u8 = 7;

/// Whether a buffer mask declares the color buffer present.
pub open spec fn has_color(mask: u8) -> bool {
    mask & COLOR != 0
}

/// Whether a buffer mask declares the depth buffer present.
pub open spec fn has_depth(mask: u8) -> bool {
    mask & DEPTH != 0
}

/// Whether a buffer mask declares the stencil buffer present.
pub open spec fn has_stencil(mask: u8) -> bool {
    mask & STENCIL != 0
}

/// The bridge between a platform window and the graphics pipeline: a render
/// target that reports the window's drawable size live, always offers the
/// main frame buffer, always declares the full buffer mask, and presents
/// frames by swapping the window's buffers.
pub struct Output {
    /// The platform window the output was created for.
    pub window: Window,
    /// The native graphics context for the window. The output owns it, so
    /// the context lives exactly as long as the output and is released,
    /// once, when the output is dropped.
    pub context: GlContext,
    /// Handle to the main frame buffer, fetched from the backend factory at
    /// construction; the factory owns the resource behind it.
    pub frame: FrameBuffer,
}

impl Output {
    /// A well-formed output holds a context bound to its own window.
    pub open spec fn wf(&self) -> bool {
        self.context.window_id() == self.window.id
    }

    /// The drawable size the output reports: the window's current size,
    /// reduced to the 16-bit size type render targets use.
    pub open spec fn spec_size(&self) -> (u16, u16) {
        (
            (self.window.drawable_width % 0x10000) as u16,
            (self.window.drawable_height % 0x10000) as u16,
        )
    }

    /// The render target to draw into. There always is one: the main frame
    /// buffer stored at construction.
    pub fn get_handle(&self) -> (r: Option<&FrameBuffer>)
        ensures
            r is Some,
            r == Some(&self.frame),
    {
        Some(&self.frame)
    }

    /// The current size in pixels of the drawable surface, read from the
    /// window now, never cached.
    pub fn get_size(&self) -> (r: (u16, u16))
        ensures
            r == self.spec_size(),
            self.window.drawable_width <= 0xFFFF && self.window.drawable_height <= 0xFFFF
                ==> r == ((self.window.drawable_width as u16, self.window.drawable_height as u16)),
    {
        let (w, h) = self.window.drawable_size();
        proof {
            assert(w as u16 == (w % 0x10000) as u16) by (bit_vector);
            assert(h as u16 == (h % 0x10000) as u16) by (bit_vector);
        }
        (#[verifier::truncate] (w as u16), #[verifier::truncate] (h as u16))
    }

    /// The buffer mask of the target: color, depth and stencil are always
    /// declared present, whatever pixel format the window actually has.
    pub fn get_mask(&self) -> (r: u8)
        ensures
            r == MASK_ALL,
            r == (COLOR | DEPTH | STENCIL),
            has_color(r) && has_depth(r) && has_stencil(r),
    {
        proof {
            assert((1u8 | 2u8 | 4u8) == 7u8) by (bit_vector);
            assert(7u8 & 1u8 != 0 && 7u8 & 2u8 != 0 && 7u8 & 4u8 != 0) by (bit_vector);
        }
        COLOR | DEPTH | STENCIL
    }

    /// Present the most recently rendered frame by swapping the window's
    /// buffers. Nothing the output reports changes: the size stays live, the
    /// target and the mask stay what they were.
    pub fn swap_buffers(&mut self)
        ensures
            final(self).window.presented@ == old(self).window.presented@ + 1,
            final(self).window.id == old(self).window.id,
            final(self).window.drawable_width == old(self).window.drawable_width,
            final(self).window.drawable_height == old(self).window.drawable_height,
            final(self).window.gl_supported == old(self).window.gl_supported,
            final(self).context == old(self).context,
            final(self).frame == old(self).frame,
            old(self).wf() ==> final(self).wf(),
    {
        self.window.gl_swap_window();
    }
}

/// A render stream: the graphics pipeline's bundle of an output with the
/// command queue that draws into it. Only the output is modeled here; it is
/// owned by the stream.
pub struct Stream {
    /// The output the stream draws into and presents on.
    pub out: Output,
}

/// The drawable size is read from the window live. After the window of any
/// well-formed output is resized, the output reports exactly the new size
/// (reduced to the 16-bit size type), whatever it reported before.
pub proof fn lemma_live_size(o: Output, width: u32, height: u32)
    requires
        o.wf(),
    ensures
        ({
            let r = (Output { window: o.window.spec_resized(width, height), ..o });
            &&& r.wf()
            &&& r.spec_size() == (((width % 0x10000) as u16, (height % 0x10000) as u16))
            &&& width <= 0xFFFF && height <= 0xFFFF ==> r.spec_size() == ((width as u16, height as u16))
        }),
{
    assert((width % 0x10000) as u16 == width as u16) by (bit_vector);
    assert((height % 0x10000) as u16 == height as u16) by (bit_vector);
}

} // verus!
