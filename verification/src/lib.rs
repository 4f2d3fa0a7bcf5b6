//! Verified core of a bridge between a platform window and a graphics
//! pipeline: a window with a native graphics context bound to it is wrapped
//! as a render output that reports its drawable size live, always offers the
//! main frame buffer as target, always declares color, depth and stencil
//! buffers present, and presents finished frames by swapping the window's
//! buffers.

use vstd::prelude::*;

mod backend;
mod output;
mod window;

pub use backend::Device;
pub use backend::Factory;
pub use backend::FrameBuffer;
pub use backend::MAIN_FRAME_BUFFER;
pub use backend::create;
pub use output::COLOR;
pub use output::DEPTH;
pub use output::MASK_ALL;
pub use output::Output;
pub use output::STENCIL;
pub use output::Stream;
pub use output::has_color;
pub use output::has_depth;
pub use output::has_stencil;
pub use output::lemma_live_size;
pub use window::GlContext;
pub use window::Window;

use vstd::pervasive::unreached;

verus! {

/// Create a render stream, a device and a factory for the given window.
///
/// A native graphics context is created for the window and moved, with the
/// window and the factory's main frame buffer, into the output that the
/// stream draws into. The platform must support such a context for the
/// window: on a window where context creation fails there is nothing to
/// build, and the caller is expected to have given up already.
pub fn init(window: Window) -> (r: (Stream, Device, Factory))
    requires
        window.gl_supported,
    ensures
        r.0.out.wf(),
        r.0.out.window == window,
        r.0.out.context.window_id() == window.id,
        r.0.out.frame.raw == MAIN_FRAME_BUFFER,
        r.0.out.frame.raw == r.2.main_fbo,
        r.2.main_fbo == MAIN_FRAME_BUFFER,
{
    let context = match window.gl_create_context() {
        Some(c) => c,
        None => unreached(),
    };
    let (device, mut factory) = create();
    let out = Output { window, context, frame: factory.get_main_frame_buffer() };
    let stream = factory.create_stream(out);
    (stream, device, factory)
}

} // verus!
