use luminance_glfw::gl33::{BackBuffer, GraphicsState, StateQueryError, GL33};
use luminance_glfw::backend::FramebufferError;
use luminance_glfw::context::GraphicsContext;
use luminance_glfw::events::EventQueue;
use luminance_glfw::surface::{
    backend_event, context_hints, input_setup, ContextHints, GlfwSurfaceError, InitAction,
    InitError, InitEvent, InitStage, InputSetup, ScreenMode, SurfaceInit, WindowRequest,
};
use luminance_glfw::window::{CursorMode, WindowDim, WindowOpt};
use luminance_glfw::GlfwSurface;

/// What a host answers, for driving the initialization protocol without a window system.
struct Host {
    init: Result<(), InitError>,
    primary_monitor: bool,
    video_mode: Option<[u32; 2]>,
    window_created: bool,
}

fn good_host() -> Host {
    Host { init: Ok(()), primary_monitor: true, video_mode: Some([1920, 1080]), window_created: true }
}

/// Runs the protocol against `host`; returns every action asked for and, on success, the backend.
fn drive(opt: WindowOpt, host: &Host, state: &mut GraphicsState) -> (Vec<InitAction>, Option<GL33>) {
    let mut init = SurfaceInit::new(opt);
    let mut actions = Vec::new();
    let mut gl = None;
    for _ in 0..20 {
        let action = init.action();
        actions.push(action);
        let ev = match action {
            InitAction::InitWindowSystem => InitEvent::WindowSystem(host.init),
            InitAction::ApplyHints(_) => InitEvent::HintsApplied,
            InitAction::QueryPrimaryMonitor => InitEvent::PrimaryMonitor(host.primary_monitor),
            InitAction::QueryVideoMode => InitEvent::VideoMode(host.video_mode),
            InitAction::CreateWindow(_) => InitEvent::WindowCreated(host.window_created),
            InitAction::ConfigureInput(_) => InitEvent::InputConfigured,
            InitAction::LoadSymbols => InitEvent::SymbolsLoaded,
            InitAction::AcquireBackend => {
                let r = state.acquire();
                let ev = backend_event(&r);
                gl = r.ok();
                ev
            }
            InitAction::Finish(_) | InitAction::Abort(_) => return (actions, gl),
        };
        init.handle(ev);
    }
    panic!("initialization did not end");
}

fn windowed(width: u32, height: u32) -> WindowOpt {
    WindowOpt::new().set_dim(WindowDim::Windowed { width, height })
}

#[test]
fn windowed_800_600_end_to_end() {
    let mut state = GraphicsState::new();
    let opt = windowed(800, 600).set_cursor_mode(CursorMode::Visible).set_num_samples(Some(0));
    let (actions, gl) = drive(opt, &good_host(), &mut state);
    assert_eq!(
        actions,
        vec![
            InitAction::InitWindowSystem,
            InitAction::ApplyHints(ContextHints {
                core_profile: true,
                forward_compat: true,
                version_major: 3,
                version_minor: 3,
                samples: Some(0),
            }),
            InitAction::CreateWindow(WindowRequest { width: 800, height: 600, mode: ScreenMode::Windowed }),
            InitAction::ConfigureInput(InputSetup {
                cursor: CursorMode::Visible,
                poll_all_events: true,
                swap_interval: 1,
            }),
            InitAction::LoadSymbols,
            InitAction::AcquireBackend,
            InitAction::Finish(WindowRequest { width: 800, height: 600, mode: ScreenMode::Windowed }),
        ]
    );
    let mut surface: GlfwSurface<(), u32> = GlfwSurface::new((), EventQueue::new(), gl.unwrap());
    let _backend: &mut GL33 = surface.backend();
    let bb = surface.back_buffer((800, 600)).unwrap();
    assert_eq!(bb.size, [800, 600]);
}

#[test]
fn fullscreen_restricted_1024_768() {
    let mut state = GraphicsState::new();
    let opt = WindowOpt::new().set_dim(WindowDim::FullscreenRestricted { width: 1024, height: 768 });
    let (actions, gl) = drive(opt, &good_host(), &mut state);
    assert!(gl.is_some());
    assert!(actions.contains(&InitAction::QueryPrimaryMonitor));
    assert!(!actions.contains(&InitAction::QueryVideoMode));
    let window = WindowRequest { width: 1024, height: 768, mode: ScreenMode::FullScreenOnPrimary };
    assert!(actions.contains(&InitAction::CreateWindow(window)));
    assert_eq!(actions.last(), Some(&InitAction::Finish(window)));
}

#[test]
fn fullscreen_uses_video_mode_size() {
    let mut state = GraphicsState::new();
    let opt = WindowOpt::new().set_dim(WindowDim::Fullscreen);
    let (actions, _) = drive(opt, &good_host(), &mut state);
    let window = WindowRequest { width: 1920, height: 1080, mode: ScreenMode::FullScreenOnPrimary };
    assert!(actions.contains(&InitAction::CreateWindow(window)));
    assert_eq!(actions.last(), Some(&InitAction::Finish(window)));
}

#[test]
fn fullscreen_without_video_mode_fails() {
    let mut state = GraphicsState::new();
    let host = Host { video_mode: None, ..good_host() };
    let (actions, gl) = drive(WindowOpt::new().set_dim(WindowDim::Fullscreen), &host, &mut state);
    assert!(gl.is_none());
    assert_eq!(actions.last(), Some(&InitAction::Abort(GlfwSurfaceError::NoVideoMode)));
    assert!(!state.acquired());
}

#[test]
fn fullscreen_without_monitor_fails() {
    for dim in [WindowDim::Fullscreen, WindowDim::FullscreenRestricted { width: 640, height: 480 }] {
        let mut state = GraphicsState::new();
        let host = Host { primary_monitor: false, ..good_host() };
        let (actions, _) = drive(WindowOpt::new().set_dim(dim), &host, &mut state);
        assert_eq!(actions.last(), Some(&InitAction::Abort(GlfwSurfaceError::NoPrimaryMonitor)));
        assert!(!actions.iter().any(|a| matches!(a, InitAction::CreateWindow(_))));
    }
}

#[test]
fn windowed_ignores_missing_monitor() {
    let mut state = GraphicsState::new();
    let host = Host { primary_monitor: false, video_mode: None, ..good_host() };
    let (actions, gl) = drive(windowed(320, 200), &host, &mut state);
    assert!(gl.is_some());
    assert!(!actions.contains(&InitAction::QueryPrimaryMonitor));
}

#[test]
fn windowed_creation_failure() {
    let mut state = GraphicsState::new();
    let host = Host { window_created: false, ..good_host() };
    let (actions, gl) = drive(windowed(800, 600), &host, &mut state);
    assert!(gl.is_none());
    assert_eq!(actions.last(), Some(&InitAction::Abort(GlfwSurfaceError::WindowCreationFailed)));
}

#[test]
fn window_system_failure() {
    let mut state = GraphicsState::new();
    let host = Host { init: Err(InitError::Internal), ..good_host() };
    let (actions, _) = drive(windowed(800, 600), &host, &mut state);
    assert_eq!(
        actions,
        vec![
            InitAction::InitWindowSystem,
            InitAction::Abort(GlfwSurfaceError::InitError(InitError::Internal)),
        ]
    );
}

#[test]
fn second_construction_on_thread_fails() {
    let mut state = GraphicsState::new();
    let (_, first) = drive(windowed(800, 600), &good_host(), &mut state);
    assert!(first.is_some());
    let (actions, second) = drive(windowed(800, 600), &good_host(), &mut state);
    assert!(second.is_none());
    assert_eq!(
        actions.last(),
        Some(&InitAction::Abort(GlfwSurfaceError::GraphicsStateError(
            StateQueryError::UnavailableGLState
        )))
    );
    let surface: GlfwSurface<(), u32> = GlfwSurface::new((), EventQueue::new(), first.unwrap());
    surface.release(&mut state);
    let (_, third) = drive(windowed(800, 600), &good_host(), &mut state);
    assert!(third.is_some());
}

#[test]
fn acquire_twice_fails() {
    let mut state = GraphicsState::new();
    assert!(!state.acquired());
    let first = state.acquire();
    assert!(first.is_ok());
    assert!(state.acquired());
    assert!(matches!(state.acquire(), Err(StateQueryError::UnavailableGLState)));
    state.release(first.unwrap());
    assert!(!state.acquired());
}

#[test]
fn unexpected_event_is_ignored() {
    let mut init = SurfaceInit::new(windowed(10, 10));
    init.handle(InitEvent::SymbolsLoaded);
    assert_eq!(init.stage, InitStage::WindowSystem);
    assert_eq!(init.action(), InitAction::InitWindowSystem);
}

#[test]
fn hints_and_input_setup() {
    let opt = WindowOpt::new().set_num_samples(Some(4)).set_cursor_mode(CursorMode::Disabled);
    assert_eq!(
        context_hints(&opt),
        ContextHints { core_profile: true, forward_compat: true, version_major: 3, version_minor: 3, samples: Some(4) }
    );
    assert_eq!(
        input_setup(&opt),
        InputSetup { cursor: CursorMode::Disabled, poll_all_events: true, swap_interval: 1 }
    );
}

#[test]
fn window_opt_defaults_and_setters() {
    let opt = WindowOpt::new();
    assert_eq!(opt.dim, WindowDim::Windowed { width: 960, height: 540 });
    assert_eq!(opt.cursor_mode(), CursorMode::Visible);
    assert_eq!(opt.num_samples(), None);
    let opt = opt.set_cursor_mode(CursorMode::Invisible).set_num_samples(Some(8));
    assert_eq!(opt.cursor_mode(), CursorMode::Invisible);
    assert_eq!(opt.num_samples(), Some(8));
}

#[test]
fn back_buffer_twice_same_size() {
    let mut state = GraphicsState::new();
    let gl = state.acquire().unwrap();
    let mut surface: GlfwSurface<(), u32> = GlfwSurface::new((), EventQueue::new(), gl);
    let a: BackBuffer = surface.back_buffer((1280, 720)).unwrap();
    let b: BackBuffer = surface.back_buffer((1280, 720)).unwrap();
    assert_eq!(a.size, b.size);
    assert_eq!(a.size, [1280, 720]);
}

#[test]
fn back_buffer_zero_size_rejected() {
    let mut state = GraphicsState::new();
    let gl = state.acquire().unwrap();
    let mut surface: GlfwSurface<(), u32> = GlfwSurface::new((), EventQueue::new(), gl);
    assert!(matches!(surface.back_buffer((0, 720)), Err(FramebufferError::Incomplete)));
    assert!(matches!(surface.back_buffer((1280, 0)), Err(FramebufferError::Incomplete)));
}

#[test]
fn event_queue_drains_in_order() {
    let mut q = EventQueue::new();
    assert!(q.is_empty());
    q.push((1, 'a'));
    q.push((2, 'b'));
    assert_eq!(q.len(), 2);
    assert_eq!(q.drain(), vec![(1, 'a'), (2, 'b')]);
    assert!(q.is_empty());
    q.push((3, 'c'));
    assert_eq!(q.drain(), vec![(3, 'c')]);
    assert_eq!(q.drain(), Vec::<(i32, char)>::new());
}

#[test]
fn surface_keeps_events() {
    let mut state = GraphicsState::new();
    let gl = state.acquire().unwrap();
    let mut q = EventQueue::new();
    q.push(7u32);
    let mut surface = GlfwSurface::new("window", q, gl);
    surface.events_rx.push(8);
    assert_eq!(surface.events_rx.drain(), vec![7, 8]);
    let (window, rest) = surface.release(&mut state);
    assert_eq!(window, "window");
    assert!(rest.is_empty());
    assert!(!state.acquired());
}

#[test]
fn error_messages() {
    assert_eq!(
        GlfwSurfaceError::InitError(InitError::Internal).message(),
        "initialization error: Internal Initialization Error"
    );
    assert_eq!(
        GlfwSurfaceError::InitError(InitError::AlreadyInitialized).message(),
        "initialization error: Already Initialized"
    );
    assert_eq!(GlfwSurfaceError::WindowCreationFailed.message(), "failed to create window");
    assert_eq!(GlfwSurfaceError::NoPrimaryMonitor.message(), "no primary monitor");
    assert_eq!(GlfwSurfaceError::NoVideoMode.message(), "no video mode");
    assert_eq!(
        GlfwSurfaceError::GraphicsStateError(StateQueryError::UnavailableGLState).message(),
        "failed to get graphics state: unavailable graphics state"
    );
    assert_eq!(
        StateQueryError::UnknownInitialState.message(),
        "unknown initial graphics state"
    );
}

#[test]
fn backend_access_keeps_window_and_events() {
    let mut state = GraphicsState::new();
    let gl = state.acquire().unwrap();
    let mut q = EventQueue::new();
    q.push(1u32);
    q.push(2u32);
    let mut surface = GlfwSurface::new("window", q, gl);
    let _backend: &mut GL33 = surface.backend();
    let _again: &mut GL33 = surface.backend();
    assert_eq!(surface.window, "window");
    assert_eq!(surface.events_rx.drain(), vec![1, 2]);
}
