//! The OpenGL 3.3 backend's state, and the once-per-thread rule for acquiring it.
use vstd::prelude::*;
use crate::backend::FramebufferError;

verus! {

/// Why the graphics state could not be obtained.
#[derive(Clone, Copy, Debug, PartialEq, Eq, Structural)]
pub enum StateQueryError {
    /// The graphics state has already been acquired on this thread.
    UnavailableGLState,
    /// A piece of initial state could not be queried from the active context.
    UnknownInitialState,
}

impl StateQueryError {
    /// Description of the error.
    pub open spec fn spec_message(&self) -> Seq<char> {
        match self {
            StateQueryError::UnavailableGLState => "unavailable graphics state"@,
            StateQueryError::UnknownInitialState => "unknown initial graphics state"@,
        }
    }

    /// Description of the error.
    pub fn message(&self) -> (r: String)
        ensures
            r@ == self.spec_message(),
    {
        match self {
            StateQueryError::UnavailableGLState => "unavailable graphics state".to_owned(),
            StateQueryError::UnknownInitialState => "unknown initial graphics state".to_owned(),
        }
    }
}

/// State of the OpenGL 3.3 backend, owned by exactly one graphics context. Only
/// `GraphicsState::acquire` makes one.
#[derive(Debug)]
pub struct GL33 {
    state: (),
}

/// The default framebuffer of a window: where what is rendered to it is shown.
#[derive(Clone, Copy, Debug)]
pub struct BackBuffer {
    /// Width and height, in pixels.
    pub size: [u32; 2],
}

/// The back buffer for a framebuffer of `size` pixels: rejected as incomplete when a dimension is
/// zero.
pub open spec fn spec_back_buffer(size: [u32; 2]) -> Result<BackBuffer, FramebufferError> {
    if size[0] == 0 || size[1] == 0 {
        Err(FramebufferError::Incomplete)
    } else {
        Ok(BackBuffer { size })
    }
}

impl GL33 {
    /// Specify the default framebuffer at `size` pixels.
    pub fn back_buffer(&mut self, size: [u32; 2]) -> (r: Result<BackBuffer, FramebufferError>)
        ensures
            r == spec_back_buffer(size),
            *final(self) == *old(self),
    {
        if size[0] == 0 || size[1] == 0 {
            Err(FramebufferError::Incomplete)
        } else {
            Ok(BackBuffer { size })
        }
    }
}

/// The graphics state of one thread: it is handed out at most once until it is given back.
#[derive(Debug)]
pub struct GraphicsState {
    acquired: bool,
}

impl GraphicsState {
    /// Whether the state is currently held by a backend.
    pub closed spec fn is_acquired(&self) -> bool {
        self.acquired
    }

    /// The state of a thread on which nothing has been acquired yet.
    pub fn new() -> (r: GraphicsState)
        ensures
            !r.is_acquired(),
    {
        GraphicsState { acquired: false }
    }

    /// Whether the state is currently held by a backend.
    pub fn acquired(&self) -> (r: bool)
        ensures
            r == self.is_acquired(),
    {
        self.acquired
    }

    /// Acquire the backend state: fails with `UnavailableGLState`, leaving everything as it
    /// was, when it is already held; otherwise hands it out and marks it held.
    pub fn acquire(&mut self) -> (r: Result<GL33, StateQueryError>)
        ensures
            acquire_outcome(*old(self), *final(self), r),
    {
        if self.acquired {
            Err(StateQueryError::UnavailableGLState)
        } else {
            self.acquired = true;
            Ok(GL33 { state: () })
        }
    }

    /// Give the backend state back, so that it can be acquired again on this thread.
    pub fn release(&mut self, gl: GL33)
        ensures
            !final(self).is_acquired(),
    {
        let _ = gl;
        self.acquired = false;
    }
}

/// What one acquisition does: from a held state it fails with `UnavailableGLState` and changes
/// nothing; from a free state it succeeds and leaves the state held.
pub open spec fn acquire_outcome(
    before: GraphicsState,
    after: GraphicsState,
    r: Result<GL33, StateQueryError>,
) -> bool {
    if before.is_acquired() {
        r == Err::<GL33, StateQueryError>(StateQueryError::UnavailableGLState) && after == before
    } else {
        r is Ok && after.is_acquired()
    }
}

/// Acquiring the graphics state a second time on a thread, after a first success and without
/// giving it back, fails with `UnavailableGLState`; the state stays held.
pub proof fn lemma_second_acquisition_fails(
    s0: GraphicsState,
    s1: GraphicsState,
    s2: GraphicsState,
    first: Result<GL33, StateQueryError>,
    second: Result<GL33, StateQueryError>,
)
    requires
        acquire_outcome(s0, s1, first),
        first is Ok,
        acquire_outcome(s1, s2, second),
    ensures
        second == Err::<GL33, StateQueryError>(StateQueryError::UnavailableGLState),
        s2.is_acquired(),
{
}

} // verus!
