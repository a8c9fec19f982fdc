//! A graphics context bound to a window: the window, its event queue and the OpenGL 3.3
//! backend state, created once the initialization protocol of `surface` is `Ready`.
use vstd::prelude::*;
use crate::backend::FramebufferError;
use crate::context::GraphicsContext;
use crate::events::EventQueue;
use crate::gl33::{spec_back_buffer, BackBuffer, GraphicsState, GL33};

verus! {

/// The size in pixels of a framebuffer that the window system reports as `(width, height)`.
pub open spec fn spec_pixel_size(framebuffer_size: (i32, i32)) -> [u32; 2] {
    [framebuffer_size.0 as u32, framebuffer_size.1 as u32]
}

/// The size in pixels of a framebuffer that the window system reports as `(width, height)`.
pub fn pixel_size(framebuffer_size: (i32, i32)) -> (r: [u32; 2])
    ensures
        r == spec_pixel_size(framebuffer_size),
{
    [framebuffer_size.0 as u32, framebuffer_size.1 as u32]
}

/// A surface: a window of type `W`, the queue of its events of type `E`, and the backend state.
pub struct GlfwSurface<W, E> {
    /// The window.
    pub window: W,
    /// The window's events, oldest first.
    pub events_rx: EventQueue<E>,
    /// The OpenGL 3.3 state.
    gl: GL33,
}

impl<W, E> GlfwSurface<W, E> {
    /// The window.
    pub closed spec fn spec_window(&self) -> W {
        self.window
    }

    /// The events not drained yet, oldest first.
    pub closed spec fn spec_events(&self) -> Seq<E> {
        self.events_rx@
    }

    /// The backend state.
    pub closed spec fn spec_gl(&self) -> GL33 {
        self.gl
    }

    /// Bundle a window, its event queue and the backend state acquired for it.
    pub fn new(window: W, events_rx: EventQueue<E>, gl: GL33) -> (r: GlfwSurface<W, E>)
        ensures
            r.spec_window() == window,
            r.spec_events() == events_rx@,
    {
        GlfwSurface { window, events_rx, gl }
    }

    /// The back buffer, sized to the framebuffer size that the window reports.
    pub fn back_buffer(&mut self, framebuffer_size: (i32, i32)) -> (r: Result<
        BackBuffer,
        FramebufferError,
    >)
        ensures
            r == spec_back_buffer(spec_pixel_size(framebuffer_size)),
            final(self).spec_window() == old(self).spec_window(),
            final(self).spec_events() == old(self).spec_events(),
    {
        let size = pixel_size(framebuffer_size);
        self.gl.back_buffer(size)
    }

    /// Take the surface apart, giving its backend state back to the thread's graphics state.
    pub fn release(self, state: &mut GraphicsState) -> (r: (W, EventQueue<E>))
        ensures
            r.0 == self.spec_window(),
            r.1@ == self.spec_events(),
            !final(state).is_acquired(),
    {
        state.release(self.gl);
        (self.window, self.events_rx)
    }
}

impl<W, E> GraphicsContext for GlfwSurface<W, E> {
    type Backend = GL33;

    open spec fn spec_backend(&self) -> GL33 {
        self.spec_gl()
    }

    fn backend(&mut self) -> (r: &mut GL33)
        ensures
            final(self).spec_window() == old(self).spec_window(),
            final(self).spec_events() == old(self).spec_events(),
    {
        &mut self.gl
    }
}

/// Asking for the back buffer twice while the framebuffer size stays the same gives the same
/// outcome both times; where it is a back buffer, its size is the one the window reports, in
/// pixels.
pub proof fn lemma_back_buffer_stable(first: (i32, i32), second: (i32, i32))
    requires
        first == second,
    ensures
        spec_back_buffer(spec_pixel_size(first)) is Ok <==> spec_back_buffer(
            spec_pixel_size(second),
        ) is Ok,
        spec_back_buffer(spec_pixel_size(first)) is Ok ==> spec_back_buffer(
            spec_pixel_size(first),
        )->Ok_0.size == spec_back_buffer(spec_pixel_size(second))->Ok_0.size,
        spec_back_buffer(spec_pixel_size(first)) is Ok ==> spec_back_buffer(
            spec_pixel_size(first),
        )->Ok_0.size == [first.0 as u32, first.1 as u32],
{
}

} // verus!
