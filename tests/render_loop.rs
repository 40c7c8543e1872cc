use katke_desktop::context::{GpuProbe, GraphicsContext, Recovery};
use katke_desktop::frame::{AcquireError, ClearColor};
use katke_desktop::render_loop::{LoopAction, LoopState, RenderLoop, WindowEvent};
use katke_desktop::surface::{AlphaMode, SurfaceCapabilities, TextureFormat};

fn context(width: u32, height: u32) -> GraphicsContext {
    let p = GpuProbe {
        surface_created: true,
        adapter_found: true,
        device_granted: true,
        capabilities: SurfaceCapabilities {
            formats: vec![TextureFormat::Bgra8UnormSrgb],
            alpha_modes: vec![AlphaMode::Opaque],
        },
    };
    GraphicsContext::initialize(&p, width, height).unwrap()
}

const PURPLE: ClearColor = ClearColor { r: 400, g: 100, b: 400, a: 1000 };

#[test]
fn startup_frame_is_uniform_background() {
    let mut ctx = context(800, 600);
    let mut rl = RenderLoop::new();
    match rl.handle_event(&mut ctx, WindowEvent::RedrawRequested) {
        LoopAction::Present(p) => {
            assert_eq!(p.width, 800);
            assert_eq!(p.height, 600);
            assert_eq!(p.color, PURPLE);
            assert_eq!(p.draw_calls, 0);
        },
        other => panic!("expected a presented frame, got {:?}", other),
    }
    assert!(rl.is_running());
}

#[test]
fn resize_then_redraw_presents_new_size() {
    let mut ctx = context(800, 600);
    let mut rl = RenderLoop::new();
    let a = rl.handle_event(&mut ctx, WindowEvent::Resized { width: 400, height: 300 });
    assert_eq!(a, LoopAction::Configure(ctx.config()));
    match rl.handle_event(&mut ctx, WindowEvent::RedrawRequested) {
        LoopAction::Present(p) => {
            assert_eq!((p.width, p.height), (400, 300));
        },
        other => panic!("expected a presented frame, got {:?}", other),
    }
}

#[test]
fn zero_sized_resize_is_not_forwarded() {
    let mut ctx = context(800, 600);
    let mut rl = RenderLoop::new();
    let before = ctx.config();
    assert_eq!(rl.handle_event(&mut ctx, WindowEvent::Resized { width: 0, height: 300 }), LoopAction::Nothing);
    assert_eq!(rl.handle_event(&mut ctx, WindowEvent::Resized { width: 400, height: 0 }), LoopAction::Nothing);
    assert_eq!(ctx.config(), before);
    assert_eq!(rl.state(), LoopState::Running);
}

#[test]
fn hundred_idle_cycles_render_identically() {
    let mut ctx = context(800, 600);
    let mut rl = RenderLoop::new();
    let mut first = None;
    for _ in 0..100 {
        assert_eq!(rl.handle_event(&mut ctx, WindowEvent::AboutToWait), LoopAction::RequestRedraw);
        let a = rl.handle_event(&mut ctx, WindowEvent::RedrawRequested);
        match a {
            LoopAction::Present(p) => assert_eq!(p.draw_calls, 0),
            other => panic!("expected a presented frame, got {:?}", other),
        }
        match first {
            None => first = Some(a),
            Some(f) => assert_eq!(a, f),
        }
        assert_eq!(rl.state(), LoopState::Running);
    }
}

#[test]
fn close_request_is_terminal() {
    let mut ctx = context(800, 600);
    let mut rl = RenderLoop::new();
    assert_eq!(rl.handle_event(&mut ctx, WindowEvent::CloseRequested), LoopAction::Exit);
    assert_eq!(rl.state(), LoopState::Terminating);
    let before = ctx.config();
    let queued = [
        WindowEvent::RedrawRequested,
        WindowEvent::Resized { width: 400, height: 300 },
        WindowEvent::AboutToWait,
        WindowEvent::CloseRequested,
        WindowEvent::Other,
    ];
    for e in queued {
        assert_eq!(rl.handle_event(&mut ctx, e), LoopAction::Nothing);
    }
    assert_eq!(ctx.config(), before);
    assert!(!rl.is_running());
}

#[test]
fn other_events_are_ignored() {
    let mut ctx = context(800, 600);
    let mut rl = RenderLoop::new();
    assert_eq!(rl.handle_event(&mut ctx, WindowEvent::Other), LoopAction::Nothing);
    assert!(rl.is_running());
}

#[test]
fn acquire_errors_decide_retry_or_end() {
    let ctx = context(800, 600);
    let mut rl = RenderLoop::new();
    assert_eq!(
        rl.handle_acquire_error(&ctx, AcquireError::SurfaceOutdated, 0),
        Recovery::ReconfigureAndRetry(ctx.config())
    );
    assert!(rl.is_running());
    assert_eq!(rl.handle_acquire_error(&ctx, AcquireError::DeviceLost, 0), Recovery::Terminate);
    assert_eq!(rl.state(), LoopState::Terminating);
    assert_eq!(rl.handle_acquire_error(&ctx, AcquireError::SurfaceLost, 0), Recovery::Terminate);
}
