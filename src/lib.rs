//! Windowing surface for a capability-based graphics context: window options, the surface's
//! initialization protocol and its error taxonomy, the once-per-thread graphics state, the event
//! queue, and the graphics context trait through which resources are created.
pub mod backend;
pub mod context;
pub mod events;
pub mod gl33;
pub mod glfw_surface;
pub mod surface;
pub mod window;

pub use context::GraphicsContext;
pub use events::EventQueue;
pub use gl33::{GraphicsState, StateQueryError, GL33};
pub use glfw_surface::GlfwSurface;
pub use surface::{GlfwSurfaceError, InitError, SurfaceInit};
pub use window::{CursorMode, WindowDim, WindowOpt};
