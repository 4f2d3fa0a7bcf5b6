use vstd::prelude::*;

use crate::output::Output;
use crate::output::Stream;

verus! {

/// Raw name of the backend's main frame buffer: the surface the window
/// itself shows.
pub const MAIN_FRAME_BUFFER: u32 = 0;

/// Handle to a frame buffer that the backend factory owns. The adapter only
/// holds such a handle and hands it out again; the factory stays responsible
/// for the resource behind it.
#[derive(Clone, Copy, PartialEq, Eq, Structural, Debug)]
pub struct FrameBuffer {
    /// The backend's raw name for the frame buffer.
    pub raw: u32,
}

/// Model of the backend graphics device: the half of the backend that
/// executes command buffers. The adapter passes it through untouched.
pub struct Device {}

/// Model of the backend factory: the half of the backend that creates
/// resources. The adapter asks it only for the main frame buffer and for a
/// stream.
pub struct Factory {
    /// Raw name of the main frame buffer this factory was created with.
    pub main_fbo: u32,
}

impl Factory {
    /// Hand out a handle to the factory's main frame buffer.
    pub fn get_main_frame_buffer(&mut self) -> (r: FrameBuffer)
        ensures
            r.raw == old(self).main_fbo,
            *final(self) == *old(self),
    {
        FrameBuffer { raw: self.main_fbo }
    }

    /// Bundle an output into a render stream that draws into it.
    pub fn create_stream(&mut self, out: Output) -> (r: Stream)
        ensures
            r.out == out,
            *final(self) == *old(self),
    {
        Stream { out }
    }
}

/// Models the backend entry point that binds the native graphics interface
/// and yields a device and a factory for it. The factory's main frame buffer
/// is the window surface.
pub fn create() -> (r: (Device, Factory))
    ensures
        r.1.main_fbo == MAIN_FRAME_BUFFER,
{
    (Device {}, Factory { main_fbo: MAIN_FRAME_BUFFER })
}

} // verus!
