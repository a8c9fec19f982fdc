//! The surface's initialization protocol: the decisions taken between window-system calls, and
//! the errors it ends with.
//!
//! A driver performs the action that `SurfaceInit::action` names, reports what came of it with
//! `SurfaceInit::handle`, and repeats until the action is `Finish` or `Abort`.
use vstd::prelude::*;
use vstd::string::StringExecFns;
use crate::gl33::{acquire_outcome, GraphicsState, StateQueryError, GL33};
use crate::window::{CursorMode, WindowDim, WindowOpt};

verus! {

/// Why the window system could not be initialized.
#[derive(Clone, Copy, Debug, PartialEq, Eq, Structural)]
pub enum InitError {
    /// The window system was already initialized.
    AlreadyInitialized,
    /// An internal error of the window system.
    Internal,
}

/// Error that can be risen while creating a surface.
#[non_exhaustive]
#[derive(Clone, Copy, Debug, PartialEq, Eq, Structural)]
pub enum GlfwSurfaceError {
    /// Initialization of the window system went wrong.
    InitError(InitError),
    /// Window creation failed.
    WindowCreationFailed,
    /// No primary monitor detected.
    NoPrimaryMonitor,
    /// No available video mode.
    NoVideoMode,
    /// The graphics state is not available, for instance because it has already been acquired on
    /// this thread.
    GraphicsStateError(StateQueryError),
}

impl InitError {
    /// Description of the error.
    pub open spec fn spec_message(&self) -> Seq<char> {
        match self {
            InitError::AlreadyInitialized => "Already Initialized"@,
            InitError::Internal => "Internal Initialization Error"@,
        }
    }

    /// Description of the error.
    pub fn message(&self) -> (r: String)
        ensures
            r@ == self.spec_message(),
    {
        match self {
            InitError::AlreadyInitialized => "Already Initialized".to_owned(),
            InitError::Internal => "Internal Initialization Error".to_owned(),
        }
    }
}

impl GlfwSurfaceError {
    /// Description of the error.
    pub open spec fn spec_message(&self) -> Seq<char> {
        match self {
            GlfwSurfaceError::InitError(e) => "initialization error: "@ + e.spec_message(),
            GlfwSurfaceError::WindowCreationFailed => "failed to create window"@,
            GlfwSurfaceError::NoPrimaryMonitor => "no primary monitor"@,
            GlfwSurfaceError::NoVideoMode => "no video mode"@,
            GlfwSurfaceError::GraphicsStateError(e) => "failed to get graphics state: "@
                + e.spec_message(),
        }
    }

    /// Description of the error.
    pub fn message(&self) -> (r: String)
        ensures
            r@ == self.spec_message(),
    {
        match self {
            GlfwSurfaceError::InitError(e) => {
                let m = e.message();
                "initialization error: ".to_owned().concat(m.as_str())
            },
            GlfwSurfaceError::WindowCreationFailed => "failed to create window".to_owned(),
            GlfwSurfaceError::NoPrimaryMonitor => "no primary monitor".to_owned(),
            GlfwSurfaceError::NoVideoMode => "no video mode".to_owned(),
            GlfwSurfaceError::GraphicsStateError(e) => {
                let m = e.message();
                "failed to get graphics state: ".to_owned().concat(m.as_str())
            },
        }
    }
}

/// What is asked of the rendering context before the window is created.
#[derive(Clone, Copy, Debug, PartialEq, Eq, Structural)]
pub struct ContextHints {
    /// Request a core profile.
    pub core_profile: bool,
    /// Request a forward-compatible context.
    pub forward_compat: bool,
    /// Major version of the API.
    pub version_major: u32,
    /// Minor version of the API.
    pub version_minor: u32,
    /// Number of samples for multisampling.
    pub samples: Option<u32>,
}

/// Whether a window is a plain window or fullscreen on the primary monitor.
#[derive(Clone, Copy, Debug, PartialEq, Eq, Structural)]
pub enum ScreenMode {
    /// A plain window.
    Windowed,
    /// Fullscreen on the primary monitor.
    FullScreenOnPrimary,
}

/// The window to create.
#[derive(Clone, Copy, Debug, PartialEq, Eq, Structural)]
pub struct WindowRequest {
    /// Width, in screen coordinates.
    pub width: u32,
    /// Height, in screen coordinates.
    pub height: u32,
    /// Plain window or fullscreen.
    pub mode: ScreenMode,
}

/// How input is set up once the window's context is current.
#[derive(Clone, Copy, Debug, PartialEq, Eq, Structural)]
pub struct InputSetup {
    /// Cursor mode to apply.
    pub cursor: CursorMode,
    /// Whether every kind of window event is delivered to the event queue.
    pub poll_all_events: bool,
    /// Number of screen refreshes to wait for between buffer swaps.
    pub swap_interval: u32,
}

/// Where the initialization stands.
#[derive(Clone, Copy, Debug, PartialEq, Eq, Structural)]
pub enum InitStage {
    /// The window system is to be initialized.
    WindowSystem,
    /// The context hints are to be applied.
    Hints,
    /// The primary monitor is to be looked up.
    Monitor,
    /// The primary monitor's video mode is to be looked up.
    VideoMode,
    /// The window is to be created.
    Window(WindowRequest),
    /// The window, created as requested, is to have its context made current and input
    /// configured.
    Input(WindowRequest),
    /// The graphics API's symbols are to be loaded for the window created as requested.
    Symbols(WindowRequest),
    /// The backend state is to be acquired for the window created as requested.
    Backend(WindowRequest),
    /// Everything is in place, with the window created as requested.
    Ready(WindowRequest),
    /// Initialization stopped on an error.
    Failed(GlfwSurfaceError),
}

/// What the driver is to do next.
#[derive(Clone, Copy, Debug, PartialEq, Eq, Structural)]
pub enum InitAction {
    /// Initialize the window system.
    InitWindowSystem,
    /// Apply these context hints.
    ApplyHints(ContextHints),
    /// Look up the primary monitor.
    QueryPrimaryMonitor,
    /// Look up the primary monitor's current video mode.
    QueryVideoMode,
    /// Create this window.
    CreateWindow(WindowRequest),
    /// Make the window's context current and apply this input setup.
    ConfigureInput(InputSetup),
    /// Load the graphics API's symbols.
    LoadSymbols,
    /// Acquire the backend state.
    AcquireBackend,
    /// Bundle the window, created as requested, its event queue and the backend state into a
    /// surface.
    Finish(WindowRequest),
    /// Release what was acquired and report this error.
    Abort(GlfwSurfaceError),
}

/// What came of the last action.
#[derive(Clone, Copy, Debug)]
pub enum InitEvent {
    /// The window system was initialized, or not.
    WindowSystem(Result<(), InitError>),
    /// The context hints were applied.
    HintsApplied,
    /// Whether a primary monitor is present.
    PrimaryMonitor(bool),
    /// The primary monitor's current video mode, as width and height, if it has one.
    VideoMode(Option<[u32; 2]>),
    /// Whether the window was created.
    WindowCreated(bool),
    /// The context is current and input is configured.
    InputConfigured,
    /// The graphics API's symbols are loaded.
    SymbolsLoaded,
    /// The backend state was acquired, or not.
    BackendAcquired(Result<(), StateQueryError>),
}

/// Context hints for a window: a forward-compatible core profile of version 3.3, with the
/// configured number of samples.
pub open spec fn spec_context_hints(opt: WindowOpt) -> ContextHints {
    ContextHints {
        core_profile: true,
        forward_compat: true,
        version_major: 3,
        version_minor: 3,
        samples: opt.num_samples,
    }
}

/// Input setup for a window: the configured cursor mode, every event kind delivered, and buffer
/// swaps synchronized with each screen refresh.
pub open spec fn spec_input_setup(opt: WindowOpt) -> InputSetup {
    InputSetup { cursor: opt.cursor_mode, poll_all_events: true, swap_interval: 1 }
}

/// The stage that follows `stage` when `ev` is reported; an event that does not answer the
/// stage's action leaves the stage as it is.
pub open spec fn next_stage(opt: WindowOpt, stage: InitStage, ev: InitEvent) -> InitStage {
    match (stage, ev) {
        (InitStage::WindowSystem, InitEvent::WindowSystem(Ok(()))) => InitStage::Hints,
        (InitStage::WindowSystem, InitEvent::WindowSystem(Err(e))) => InitStage::Failed(
            GlfwSurfaceError::InitError(e),
        ),
        (InitStage::Hints, InitEvent::HintsApplied) => match opt.dim {
            WindowDim::Windowed { width, height } => InitStage::Window(
                WindowRequest { width, height, mode: ScreenMode::Windowed },
            ),
            _ => InitStage::Monitor,
        },
        (InitStage::Monitor, InitEvent::PrimaryMonitor(present)) => if !present {
            InitStage::Failed(GlfwSurfaceError::NoPrimaryMonitor)
        } else {
            match opt.dim {
                WindowDim::Fullscreen => InitStage::VideoMode,
                WindowDim::FullscreenRestricted { width, height } => InitStage::Window(
                    WindowRequest { width, height, mode: ScreenMode::FullScreenOnPrimary },
                ),
                WindowDim::Windowed { .. } => stage,
            }
        },
        (InitStage::VideoMode, InitEvent::VideoMode(mode)) => match mode {
            None => InitStage::Failed(GlfwSurfaceError::NoVideoMode),
            Some(size) => InitStage::Window(
                WindowRequest {
                    width: size[0],
                    height: size[1],
                    mode: ScreenMode::FullScreenOnPrimary,
                },
            ),
        },
        (InitStage::Window(req), InitEvent::WindowCreated(created)) => if created {
            InitStage::Input(req)
        } else {
            InitStage::Failed(GlfwSurfaceError::WindowCreationFailed)
        },
        (InitStage::Input(req), InitEvent::InputConfigured) => InitStage::Symbols(req),
        (InitStage::Symbols(req), InitEvent::SymbolsLoaded) => InitStage::Backend(req),
        (InitStage::Backend(req), InitEvent::BackendAcquired(Ok(()))) => InitStage::Ready(req),
        (InitStage::Backend(_), InitEvent::BackendAcquired(Err(e))) => InitStage::Failed(
            GlfwSurfaceError::GraphicsStateError(e),
        ),
        _ => stage,
    }
}

/// The action that a stage asks for.
pub open spec fn action_of(opt: WindowOpt, stage: InitStage) -> InitAction {
    match stage {
        InitStage::WindowSystem => InitAction::InitWindowSystem,
        InitStage::Hints => InitAction::ApplyHints(spec_context_hints(opt)),
        InitStage::Monitor => InitAction::QueryPrimaryMonitor,
        InitStage::VideoMode => InitAction::QueryVideoMode,
        InitStage::Window(req) => InitAction::CreateWindow(req),
        InitStage::Input(_) => InitAction::ConfigureInput(spec_input_setup(opt)),
        InitStage::Symbols(_) => InitAction::LoadSymbols,
        InitStage::Backend(_) => InitAction::AcquireBackend,
        InitStage::Ready(req) => InitAction::Finish(req),
        InitStage::Failed(e) => InitAction::Abort(e),
    }
}

/// Whether a window request is the one the options call for: the configured size where one is
/// given, a plain window only when windowed.
pub open spec fn request_fits(opt: WindowOpt, req: WindowRequest) -> bool {
    match opt.dim {
        WindowDim::Windowed { width, height } => req == (WindowRequest {
            width,
            height,
            mode: ScreenMode::Windowed,
        }),
        WindowDim::FullscreenRestricted { width, height } => req == (WindowRequest {
            width,
            height,
            mode: ScreenMode::FullScreenOnPrimary,
        }),
        WindowDim::Fullscreen => req.mode == ScreenMode::FullScreenOnPrimary,
    }
}

/// The stages that a window's dimension mode can lead to: a monitor is looked up only for
/// fullscreen, a video mode only for fullscreen on the primary display, every window request is
/// the one the options call for, and the monitor errors come only from the paths that look one
/// up.
pub open spec fn stage_fits(opt: WindowOpt, stage: InitStage) -> bool {
    match stage {
        InitStage::Monitor => !(opt.dim is Windowed),
        InitStage::VideoMode => opt.dim is Fullscreen,
        InitStage::Window(req) => request_fits(opt, req),
        InitStage::Input(req) => request_fits(opt, req),
        InitStage::Symbols(req) => request_fits(opt, req),
        InitStage::Backend(req) => request_fits(opt, req),
        InitStage::Ready(req) => request_fits(opt, req),
        InitStage::Failed(e) => (e is NoPrimaryMonitor ==> !(opt.dim is Windowed)) && (
        e is NoVideoMode ==> opt.dim is Fullscreen),
        _ => true,
    }
}

/// The stage reached from `stage` after the events `evs`, in order.
pub open spec fn run(opt: WindowOpt, stage: InitStage, evs: Seq<InitEvent>) -> InitStage
    decreases evs.len(),
{
    if evs.len() == 0 {
        stage
    } else {
        run(opt, next_stage(opt, stage, evs[0]), evs.subrange(1, evs.len() as int))
    }
}

/// An initialization in progress: the window options and the stage reached.
#[derive(Clone, Copy, Debug)]
pub struct SurfaceInit {
    /// The options the surface is created from.
    pub opt: WindowOpt,
    /// The stage reached.
    pub stage: InitStage,
}

impl SurfaceInit {
    /// Whether the stage is one that the options can lead to.
    pub open spec fn wf(&self) -> bool {
        stage_fits(self.opt, self.stage)
    }

    /// Start an initialization: the window system is to be initialized first.
    pub fn new(opt: WindowOpt) -> (r: SurfaceInit)
        ensures
            r.opt == opt,
            r.stage == InitStage::WindowSystem,
            r.wf(),
    {
        SurfaceInit { opt, stage: InitStage::WindowSystem }
    }

    /// The action that the current stage asks for.
    pub fn action(&self) -> (r: InitAction)
        ensures
            r == action_of(self.opt, self.stage),
    {
        match self.stage {
            InitStage::WindowSystem => InitAction::InitWindowSystem,
            InitStage::Hints => InitAction::ApplyHints(context_hints(&self.opt)),
            InitStage::Monitor => InitAction::QueryPrimaryMonitor,
            InitStage::VideoMode => InitAction::QueryVideoMode,
            InitStage::Window(req) => InitAction::CreateWindow(req),
            InitStage::Input(_) => InitAction::ConfigureInput(input_setup(&self.opt)),
            InitStage::Symbols(_) => InitAction::LoadSymbols,
            InitStage::Backend(_) => InitAction::AcquireBackend,
            InitStage::Ready(req) => InitAction::Finish(req),
            InitStage::Failed(e) => InitAction::Abort(e),
        }
    }

    /// Report what came of the last action and move to the stage that follows.
    pub fn handle(&mut self, ev: InitEvent)
        ensures
            final(self).opt == old(self).opt,
            final(self).stage == next_stage(old(self).opt, old(self).stage, ev),
            old(self).wf() ==> final(self).wf(),
    {
        let next = match (self.stage, ev) {
            (InitStage::WindowSystem, InitEvent::WindowSystem(Ok(()))) => InitStage::Hints,
            (InitStage::WindowSystem, InitEvent::WindowSystem(Err(e))) => InitStage::Failed(
                GlfwSurfaceError::InitError(e),
            ),
            (InitStage::Hints, InitEvent::HintsApplied) => match self.opt.dim {
                WindowDim::Windowed { width, height } => InitStage::Window(
                    WindowRequest { width, height, mode: ScreenMode::Windowed },
                ),
                _ => InitStage::Monitor,
            },
            (InitStage::Monitor, InitEvent::PrimaryMonitor(present)) => if !present {
                InitStage::Failed(GlfwSurfaceError::NoPrimaryMonitor)
            } else {
                match self.opt.dim {
                    WindowDim::Fullscreen => InitStage::VideoMode,
                    WindowDim::FullscreenRestricted { width, height } => InitStage::Window(
                        WindowRequest { width, height, mode: ScreenMode::FullScreenOnPrimary },
                    ),
                    WindowDim::Windowed { .. } => self.stage,
                }
            },
            (InitStage::VideoMode, InitEvent::VideoMode(mode)) => match mode {
                None => InitStage::Failed(GlfwSurfaceError::NoVideoMode),
                Some(size) => InitStage::Window(
                    WindowRequest {
                        width: size[0],
                        height: size[1],
                        mode: ScreenMode::FullScreenOnPrimary,
                    },
                ),
            },
            (InitStage::Window(req), InitEvent::WindowCreated(created)) => if created {
                InitStage::Input(req)
            } else {
                InitStage::Failed(GlfwSurfaceError::WindowCreationFailed)
            },
            (InitStage::Input(req), InitEvent::InputConfigured) => InitStage::Symbols(req),
            (InitStage::Symbols(req), InitEvent::SymbolsLoaded) => InitStage::Backend(req),
            (InitStage::Backend(req), InitEvent::BackendAcquired(Ok(()))) => InitStage::Ready(req),
            (InitStage::Backend(_), InitEvent::BackendAcquired(Err(e))) => InitStage::Failed(
                GlfwSurfaceError::GraphicsStateError(e),
            ),
            _ => self.stage,
        };
        self.stage = next;
    }
}

/// Context hints for a window: a forward-compatible core profile of version 3.3, with the
/// configured number of samples.
pub fn context_hints(opt: &WindowOpt) -> (r: ContextHints)
    ensures
        r == spec_context_hints(*opt),
{
    ContextHints {
        core_profile: true,
        forward_compat: true,
        version_major: 3,
        version_minor: 3,
        samples: opt.num_samples,
    }
}

/// Input setup for a window: the configured cursor mode, every event kind delivered, and buffer
/// swaps synchronized with each screen refresh.
pub fn input_setup(opt: &WindowOpt) -> (r: InputSetup)
    ensures
        r == spec_input_setup(*opt),
{
    InputSetup { cursor: opt.cursor_mode, poll_all_events: true, swap_interval: 1 }
}

/// The event that reports an acquisition of the backend state.
pub open spec fn spec_backend_event(r: Result<GL33, StateQueryError>) -> InitEvent {
    match r {
        Ok(_) => InitEvent::BackendAcquired(Ok(())),
        Err(e) => InitEvent::BackendAcquired(Err(e)),
    }
}

/// The event that reports an acquisition of the backend state.
pub fn backend_event(r: &Result<GL33, StateQueryError>) -> (ev: InitEvent)
    ensures
        ev == spec_backend_event(*r),
{
    match r {
        Ok(_) => InitEvent::BackendAcquired(Ok(())),
        Err(e) => InitEvent::BackendAcquired(Err(*e)),
    }
}

/// Every stage that the options can lead to is followed, whatever is reported, by one that they
/// can lead to.
pub proof fn lemma_run_fits(opt: WindowOpt, stage: InitStage, evs: Seq<InitEvent>)
    requires
        stage_fits(opt, stage),
    ensures
        stage_fits(opt, run(opt, stage, evs)),
    decreases evs.len(),
{
    if evs.len() > 0 {
        lemma_run_fits(opt, next_stage(opt, stage, evs[0]), evs.subrange(1, evs.len() as int));
    }
}

/// A windowed surface never looks up a monitor or a video mode, never fails for want of one,
/// the only window it asks for is a plain one of exactly the configured size, and a surface that
/// gets ready has that window.
pub proof fn lemma_windowed_construction(opt: WindowOpt, evs: Seq<InitEvent>)
    requires
        opt.dim is Windowed,
    ensures
        ({
            let st = run(opt, InitStage::WindowSystem, evs);
            &&& !(st is Monitor)
            &&& !(st is VideoMode)
            &&& st is Window ==> st->Window_0 == (WindowRequest {
                width: opt.dim->Windowed_width,
                height: opt.dim->Windowed_height,
                mode: ScreenMode::Windowed,
            })
            &&& st is Ready ==> st->Ready_0 == (WindowRequest {
                width: opt.dim->Windowed_width,
                height: opt.dim->Windowed_height,
                mode: ScreenMode::Windowed,
            })
            &&& st is Failed ==> !(st->Failed_0 is NoPrimaryMonitor) && !(
            st->Failed_0 is NoVideoMode)
        }),
{
    lemma_run_fits(opt, InitStage::WindowSystem, evs);
}

/// Whatever the dimension mode, a surface that gets ready has the window its options call for:
/// the configured size where one is given, fullscreen on the primary monitor unless windowed.
pub proof fn lemma_ready_window_fits(opt: WindowOpt, evs: Seq<InitEvent>)
    ensures
        run(opt, InitStage::WindowSystem, evs) is Ready ==> request_fits(
            opt,
            run(opt, InitStage::WindowSystem, evs)->Ready_0,
        ),
{
    lemma_run_fits(opt, InitStage::WindowSystem, evs);
}

/// The stages a fullscreen surface can be in while no primary monitor has been found.
pub open spec fn without_monitor(stage: InitStage) -> bool {
    ||| stage is WindowSystem
    ||| stage is Hints
    ||| stage is Monitor
    ||| stage == InitStage::Failed(GlfwSurfaceError::NoPrimaryMonitor)
    ||| stage is Failed && stage->Failed_0 is InitError
}

proof fn lemma_run_without_monitor(opt: WindowOpt, stage: InitStage, evs: Seq<InitEvent>)
    requires
        !(opt.dim is Windowed),
        without_monitor(stage),
        forall|i: int| 0 <= i < evs.len() ==> evs[i] != InitEvent::PrimaryMonitor(true),
    ensures
        without_monitor(run(opt, stage, evs)),
    decreases evs.len(),
{
    if evs.len() > 0 {
        let rest = evs.subrange(1, evs.len() as int);
        assert forall|i: int| 0 <= i < rest.len() implies rest[i] != InitEvent::PrimaryMonitor(
            true,
        ) by {
            assert(rest[i] == evs[i + 1]);
        }
        lemma_run_without_monitor(opt, next_stage(opt, stage, evs[0]), rest);
    }
}

/// On a host without a primary monitor, a fullscreen surface (at the monitor's mode or at an
/// explicit size) never gets as far as creating a window: once the window system is up, the
/// only way it ends is `NoPrimaryMonitor`.
pub proof fn lemma_fullscreen_without_monitor(opt: WindowOpt, evs: Seq<InitEvent>)
    requires
        !(opt.dim is Windowed),
        forall|i: int| 0 <= i < evs.len() ==> evs[i] != InitEvent::PrimaryMonitor(true),
    ensures
        without_monitor(run(opt, InitStage::WindowSystem, evs)),
{
    lemma_run_without_monitor(opt, InitStage::WindowSystem, evs);
}

/// A second surface created on a thread whose backend state a first surface still holds stops
/// at the backend stage with `GraphicsStateError(UnavailableGLState)`.
pub proof fn lemma_second_surface_fails(
    opt: WindowOpt,
    req: WindowRequest,
    s0: GraphicsState,
    s1: GraphicsState,
    s2: GraphicsState,
    first: Result<GL33, StateQueryError>,
    second: Result<GL33, StateQueryError>,
)
    requires
        acquire_outcome(s0, s1, first),
        first is Ok,
        acquire_outcome(s1, s2, second),
    ensures
        next_stage(opt, InitStage::Backend(req), spec_backend_event(second)) == InitStage::Failed(
            GlfwSurfaceError::GraphicsStateError(StateQueryError::UnavailableGLState),
        ),
{
    crate::gl33::lemma_second_acquisition_fails(s0, s1, s2, first, second);
}

} // verus!
