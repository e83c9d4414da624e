use imgui_editor::application::Application;
use imgui_editor::editor::Editor;
use imgui_editor::event::{is_close_requested, ui_input, StateEvent, WindowEvent};
use imgui_editor::limiter::FrameLimiter;
use imgui_editor::pipeline::{ClearTarget, Pipeline, RenderOp, Stage};
use imgui_editor::transition::{Call, TransKind};
use imgui_editor::ui::{FrameError, UiCommand, UiContext};

const BLACK: ClearTarget = ClearTarget { r: 0, g: 0, b: 0, a: 255, depth: 65535 };

#[test]
fn a_second_open_frame_fails_and_leaves_the_context_usable() {
    let mut ui = UiContext::new();
    ui.begin_tick(true);
    assert_eq!(ui.open_frame(), Ok(()));
    ui.compose(UiCommand::DemoWindow);
    assert_eq!(ui.open_frame(), Err(FrameError::AlreadyOpen));
    assert!(ui.open);
    assert_eq!(ui.commands, vec![UiCommand::DemoWindow]);
    ui.close_frame();
    assert!(!ui.open);
    assert_eq!(ui.submitted.as_ref().map(|d| d.commands.clone()), Some(vec![UiCommand::DemoWindow]));
    assert_eq!(ui.open_frame(), Err(FrameError::AlreadyUsed));

    ui.begin_tick(true);
    assert!(ui.submitted.is_none());
    assert_eq!(ui.open_frame(), Ok(()));
    ui.close_frame();
    assert_eq!(ui.submitted.as_ref().map(|d| d.commands.len()), Some(0));
}

#[test]
fn open_frame_is_unavailable_while_the_surface_is_not_ready() {
    let mut ui = UiContext::new();
    ui.begin_tick(false);
    assert_eq!(ui.open_frame(), Err(FrameError::Unavailable));
    assert!(!ui.open);
    ui.close_frame();
    assert!(ui.submitted.is_none());
}

#[test]
fn input_gathered_between_frames_reaches_the_next_frame() {
    let mut ui = UiContext::new();
    ui.inject(WindowEvent::Text('x'));
    ui.begin_tick(false);
    ui.inject(WindowEvent::CursorMoved(3, -4));
    ui.begin_tick(true);
    assert_eq!(ui.open_frame(), Ok(()));
    ui.close_frame();
    let drawn = ui.submitted.as_ref().map(|d| d.input.clone());
    assert_eq!(drawn, Some(vec![WindowEvent::Text('x'), WindowEvent::CursorMoved(3, -4)]));
    assert!(ui.input.is_empty());
}

#[test]
fn limiter_at_144_hz_waits_out_the_rest_of_the_frame() {
    let limiter = FrameLimiter::new(144, 2_000_000);
    assert_eq!(limiter.period(), 6_944_444);
    let pause = limiter.pause(1_000_000);
    assert_eq!(pause.sleep_ns + pause.yield_ns, 5_944_444);
    assert_eq!(pause.yield_ns, 2_000_000);
    assert_eq!(pause.sleep_ns, 3_944_444);
    let expected_ms = 1000.0_f64 / 144.0 - 1.0;
    let got_ms = (pause.sleep_ns + pause.yield_ns) as f64 / 1_000_000.0;
    assert!((got_ms - expected_ms).abs() < 2.0);
}

#[test]
fn limiter_never_waits_after_a_long_tick() {
    let limiter = FrameLimiter::new(144, 2_000_000);
    let pause = limiter.pause(10_000_000);
    assert_eq!((pause.sleep_ns, pause.yield_ns), (0, 0));
}

#[test]
fn limiter_yields_only_near_the_end_of_the_frame() {
    let limiter = FrameLimiter::new(100, 2_000_000);
    let pause = limiter.pause(9_000_000);
    assert_eq!((pause.sleep_ns, pause.yield_ns), (0, 1_000_000));
}

#[test]
fn limiter_without_a_rate_does_not_pace() {
    let limiter = FrameLimiter::new(0, 2_000_000);
    assert_eq!(limiter.period(), 0);
    let pause = limiter.pause(0);
    assert_eq!((pause.sleep_ns, pause.yield_ns), (0, 0));
}

#[test]
fn pipeline_runs_its_stages_in_order() {
    let red = ClearTarget { r: 255, g: 0, b: 0, a: 255, depth: 0 };
    let pipe = Pipeline::build()
        .with_stage(Stage::Clear(red))
        .with_stage(Stage::DrawUi)
        .with_stage(Stage::Clear(BLACK));
    assert_eq!(pipe.len(), 3);
    assert_eq!(
        pipe.execute(Some(4)),
        vec![RenderOp::Clear(red), RenderOp::DrawUi(4), RenderOp::Clear(BLACK)]
    );
    assert_eq!(pipe.execute(None), vec![RenderOp::Clear(red), RenderOp::Clear(BLACK)]);
}

#[test]
fn editor_pipeline_clears_then_draws_the_ui() {
    let pipe = Pipeline::editor();
    assert_eq!(pipe.execute(Some(1)), vec![RenderOp::Clear(BLACK), RenderOp::DrawUi(1)]);
}

#[test]
fn close_request_is_recognised() {
    assert!(is_close_requested(&WindowEvent::CloseRequested));
    assert!(!is_close_requested(&WindowEvent::Resized(640, 480)));
    assert!(!is_close_requested(&WindowEvent::Minimized(true)));
}

#[test]
fn only_window_events_reach_the_ui() {
    assert_eq!(ui_input(&StateEvent::Window(WindowEvent::Focused(true))), Some(WindowEvent::Focused(true)));
    assert_eq!(ui_input(&StateEvent::Ui), None);
    assert_eq!(ui_input(&StateEvent::Input), None);
}

#[test]
fn editor_quits_on_a_close_request() {
    let mut app = Application::new(Editor::new(), Pipeline::editor());
    let report = app.tick(&vec![StateEvent::Window(WindowEvent::CloseRequested)], true);
    assert_eq!(report.returned, vec![TransKind::Quit, TransKind::Stay]);
    assert_eq!(report.applied, TransKind::Quit);
    assert_eq!(report.hooks, vec![Call::Stop(0)]);
    assert_eq!(report.error, None);
    assert!(!app.is_running());
}

#[test]
fn editor_ignores_other_events() {
    let mut app = Application::new(Editor::new(), Pipeline::editor());
    let events = vec![
        StateEvent::Window(WindowEvent::Resized(800, 600)),
        StateEvent::Ui,
        StateEvent::Input,
    ];
    let report = app.tick(&events, true);
    assert_eq!(report.applied, TransKind::Stay);
    assert!(app.is_running());
    let drawn = app.ui().submitted.as_ref().map(|d| d.input.clone());
    assert_eq!(drawn, Some(vec![WindowEvent::Resized(800, 600)]));
}

#[test]
fn editor_skips_the_ui_while_minimized() {
    let mut app = Application::new(Editor::new(), Pipeline::editor());
    for _ in 0..3 {
        let report = app.tick(&vec![], false);
        assert_eq!(report.calls, vec![Call::Update]);
        assert_eq!(report.render, vec![RenderOp::Clear(BLACK)]);
        assert!(!app.ui().open);
    }
    let report = app.tick(&vec![], true);
    assert_eq!(report.calls, vec![Call::Update]);
    assert_eq!(report.render, vec![RenderOp::Clear(BLACK), RenderOp::DrawUi(1)]);
    let drawn = app.ui().submitted.as_ref().map(|d| d.commands.clone());
    assert_eq!(drawn, Some(vec![UiCommand::DemoWindow]));
    assert!(app.is_running());
}
