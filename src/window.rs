//! Window options: the configuration a surface is created from.
use vstd::prelude::*;

verus! {

/// Dimension mode of a window.
#[derive(Clone, Copy, Debug, PartialEq, Eq, Structural)]
pub enum WindowDim {
    /// A window of a fixed size, in screen coordinates.
    Windowed { width: u32, height: u32 },
    /// Fullscreen on the primary monitor, at the monitor's current video mode.
    Fullscreen,
    /// Fullscreen on the primary monitor, at an explicit size.
    FullscreenRestricted { width: u32, height: u32 },
}

/// Visibility and capture of the cursor over the window.
#[derive(Clone, Copy, Debug, PartialEq, Eq, Structural)]
pub enum CursorMode {
    /// The cursor is shown and moves freely.
    Visible,
    /// The cursor is hidden while over the window, but moves freely.
    Invisible,
    /// The cursor is hidden and captured by the window.
    Disabled,
}

/// Options of a window, consumed when the surface is created.
#[derive(Clone, Copy, Debug, PartialEq, Eq, Structural)]
pub struct WindowOpt {
    /// Dimension mode.
    pub dim: WindowDim,
    /// Cursor mode.
    pub cursor_mode: CursorMode,
    /// Number of samples for multisampling; `None` leaves the window system's default.
    pub num_samples: Option<u32>,
}

impl WindowOpt {
    /// Options of a windowed 960 x 540 surface with a visible cursor and no multisampling request.
    pub fn new() -> (r: WindowOpt)
        ensures
            r.dim == (WindowDim::Windowed { width: 960, height: 540 }),
            r.cursor_mode == CursorMode::Visible,
            r.num_samples is None,
    {
        WindowOpt {
            dim: WindowDim::Windowed { width: 960, height: 540 },
            cursor_mode: CursorMode::Visible,
            num_samples: None,
        }
    }

    /// Set the dimension mode.
    pub fn set_dim(self, dim: WindowDim) -> (r: WindowOpt)
        ensures
            r == (WindowOpt { dim, ..self }),
    {
        WindowOpt { dim, ..self }
    }

    /// Set the cursor mode.
    pub fn set_cursor_mode(self, cursor_mode: CursorMode) -> (r: WindowOpt)
        ensures
            r == (WindowOpt { cursor_mode, ..self }),
    {
        WindowOpt { cursor_mode, ..self }
    }

    /// Set the number of samples for multisampling.
    pub fn set_num_samples(self, num_samples: Option<u32>) -> (r: WindowOpt)
        ensures
            r == (WindowOpt { num_samples, ..self }),
    {
        WindowOpt { num_samples, ..self }
    }

    /// The cursor mode.
    pub fn cursor_mode(&self) -> (r: CursorMode)
        ensures
            r == self.cursor_mode,
    {
        self.cursor_mode
    }

    /// The number of samples for multisampling.
    pub fn num_samples(&self) -> (r: Option<u32>)
        ensures
            r == self.num_samples,
    {
        self.num_samples
    }
}

} // verus!
