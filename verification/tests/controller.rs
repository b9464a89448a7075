use video_underlay::actions::Action;
use video_underlay::controller::FrameSyncController;
use video_underlay::controller::HostEvent;
use video_underlay::controller::PlaybackCommandState;
use video_underlay::controller::TickInput;

fn idle_cmd() -> PlaybackCommandState {
    PlaybackCommandState {
        requested_pause: false,
        requested_seek_permille: 0,
        seek_acknowledged: true,
        last_known_position_seconds: 0,
        last_known_duration_seconds: 0,
    }
}

fn plain_input() -> TickInput {
    TickInput { width: 640, height: 480, position: Some(30), duration: Some(120) }
}

fn is_release(a: &Action) -> bool {
    matches!(
        a,
        Action::DestroyRenderContext
            | Action::DestroyEngineContext
            | Action::DeleteProgram
            | Action::DeleteQuadBuffer
            | Action::DeleteQuadVertexArray
            | Action::DeleteColorTexture
            | Action::DeleteDepthTexture
            | Action::DeleteFramebuffer
    )
}

#[test]
fn setup_creates_surface_before_bridge() {
    let mut controller = FrameSyncController::new();
    let mut cmd = idle_cmd();
    let out = controller.handle_event(HostEvent::Setup { width: 640, height: 480 }, &mut cmd);
    let first_engine = out
        .actions
        .iter()
        .position(|a| *a == Action::CreateEngineContext)
        .unwrap();
    let last_surface = out
        .actions
        .iter()
        .rposition(|a| {
            matches!(
                a,
                Action::CreateCompositeProgram
                    | Action::CreateQuadGeometry
                    | Action::CreateRenderTarget { .. }
            )
        })
        .unwrap();
    assert!(last_surface < first_engine);
    let render_ctx = out
        .actions
        .iter()
        .position(|a| *a == Action::CreateRenderContext)
        .unwrap();
    assert!(first_engine < render_ctx);
}

#[test]
fn teardown_releases_bridge_before_surface() {
    let mut controller = FrameSyncController::new();
    let mut cmd = idle_cmd();
    let mut trace: Vec<Action> = Vec::new();

    controller.handle_event(HostEvent::Setup { width: 640, height: 480 }, &mut cmd);
    for i in 0..5u32 {
        let input = TickInput {
            width: 640 + (i % 2) * 10,
            height: 480,
            position: Some(i as i64),
            duration: Some(120),
        };
        let out = controller.handle_event(HostEvent::BeforeDraw { input }, &mut cmd);
        assert!(out.actions.iter().all(|a| !is_release(a)));
        trace.extend(out.actions);
    }
    let out = controller.handle_event(HostEvent::Teardown, &mut cmd);
    trace.extend(out.actions);

    let last_bridge_release = trace
        .iter()
        .rposition(|a| {
            matches!(a, Action::DestroyRenderContext | Action::DestroyEngineContext)
        })
        .unwrap();
    let first_surface_release = trace
        .iter()
        .position(|a| {
            matches!(
                a,
                Action::DeleteProgram
                    | Action::DeleteQuadBuffer
                    | Action::DeleteQuadVertexArray
                    | Action::DeleteColorTexture
                    | Action::DeleteDepthTexture
                    | Action::DeleteFramebuffer
            )
        })
        .unwrap();
    assert!(last_bridge_release < first_surface_release);

    let destroy_render = trace
        .iter()
        .position(|a| *a == Action::DestroyRenderContext)
        .unwrap();
    let destroy_engine = trace
        .iter()
        .position(|a| *a == Action::DestroyEngineContext)
        .unwrap();
    assert!(destroy_render < destroy_engine);
}

#[test]
fn seek_target_is_fraction_times_duration() {
    let mut controller = FrameSyncController::new();
    let mut cmd = idle_cmd();
    controller.handle_event(HostEvent::Setup { width: 640, height: 480 }, &mut cmd);

    cmd.requested_seek_permille = 500;
    cmd.seek_acknowledged = false;
    let input = TickInput { width: 640, height: 480, position: Some(10), duration: Some(100) };
    let out = controller.handle_event(HostEvent::BeforeDraw { input }, &mut cmd);

    let seeks: Vec<&Action> = out
        .actions
        .iter()
        .filter(|a| matches!(a, Action::SeekAbsolute { .. }))
        .collect();
    assert_eq!(seeks.len(), 1);
    let Action::SeekAbsolute { target_milliseconds } = seeks[0] else {
        unreachable!()
    };
    assert_eq!(*target_milliseconds, 50_000);
    let fraction = 500.0_f64 / 1000.0;
    let duration = 100.0_f64;
    let target_seconds = *target_milliseconds as f64 / 1000.0;
    assert!((target_seconds - fraction * duration).abs() < 1e-6);
    assert!(cmd.seek_acknowledged);
}

#[test]
fn seek_forwarded_once_per_request_not_per_tick() {
    let mut controller = FrameSyncController::new();
    let mut cmd = idle_cmd();
    controller.handle_event(HostEvent::Setup { width: 640, height: 480 }, &mut cmd);

    cmd.requested_seek_permille = 250;
    cmd.seek_acknowledged = false;
    let count_seeks = |acts: &[Action]| {
        acts.iter().filter(|a| matches!(a, Action::SeekAbsolute { .. })).count()
    };

    let out = controller.handle_event(HostEvent::BeforeDraw { input: plain_input() }, &mut cmd);
    assert_eq!(count_seeks(&out.actions), 1);
    for _ in 0..3 {
        let out =
            controller.handle_event(HostEvent::BeforeDraw { input: plain_input() }, &mut cmd);
        assert_eq!(count_seeks(&out.actions), 0);
    }

    cmd.seek_acknowledged = false;
    let out = controller.handle_event(HostEvent::BeforeDraw { input: plain_input() }, &mut cmd);
    assert_eq!(count_seeks(&out.actions), 1);
}

#[test]
fn seek_with_unknown_duration_targets_stream_start() {
    let mut controller = FrameSyncController::new();
    let mut cmd = idle_cmd();
    controller.handle_event(HostEvent::Setup { width: 640, height: 480 }, &mut cmd);

    cmd.requested_seek_permille = 900;
    cmd.seek_acknowledged = false;
    let input = TickInput { width: 640, height: 480, position: None, duration: None };
    let out = controller.handle_event(HostEvent::BeforeDraw { input }, &mut cmd);
    assert!(out
        .actions
        .iter()
        .any(|a| *a == Action::SeekAbsolute { target_milliseconds: 0 }));
}

#[test]
fn unknown_timing_publishes_zero() {
    let mut controller = FrameSyncController::new();
    let mut cmd = idle_cmd();
    controller.handle_event(HostEvent::Setup { width: 640, height: 480 }, &mut cmd);

    let input = TickInput { width: 640, height: 480, position: None, duration: None };
    let out = controller.handle_event(HostEvent::BeforeDraw { input }, &mut cmd);
    assert_eq!(out.seek_bar_permille, 0);
    assert_eq!(out.timestamp_label, "00:00:00 / 00:00:00");
    assert_eq!(cmd.last_known_position_seconds, 0);
    assert_eq!(cmd.last_known_duration_seconds, 0);
}

#[test]
fn tick_republishes_label_and_bar() {
    let mut controller = FrameSyncController::new();
    let mut cmd = idle_cmd();
    controller.handle_event(HostEvent::Setup { width: 640, height: 480 }, &mut cmd);

    let input = TickInput { width: 640, height: 480, position: Some(30), duration: Some(120) };
    let out = controller.handle_event(HostEvent::BeforeDraw { input }, &mut cmd);
    assert_eq!(out.timestamp_label, "00:00:30 / 00:02:00");
    assert_eq!(out.seek_bar_permille, 250);
    assert_eq!(cmd.last_known_position_seconds, 30);
    assert_eq!(cmd.last_known_duration_seconds, 120);
    assert_eq!(out.actions.last(), Some(&Action::RequestRedraw));
    assert!(out
        .actions
        .iter()
        .any(|a| *a == Action::RenderFrame { width: 640, height: 480, flip_vertically: true }));
}

#[test]
fn pause_forwarded_once_per_flag_transition() {
    let mut controller = FrameSyncController::new();
    let mut cmd = idle_cmd();
    controller.handle_event(HostEvent::Setup { width: 640, height: 480 }, &mut cmd);

    let script = [false, true, true, false, false, true];
    let mut forwarded: Vec<bool> = Vec::new();
    for &flag in &script {
        cmd.requested_pause = flag;
        let out = controller.handle_event(HostEvent::BeforeDraw { input: plain_input() }, &mut cmd);
        for a in &out.actions {
            if let Action::SetPause(v) = a {
                forwarded.push(*v);
            }
        }
    }
    assert_eq!(forwarded, vec![true, false, true]);
}

#[test]
fn resize_happens_before_render_within_a_tick() {
    let mut controller = FrameSyncController::new();
    let mut cmd = idle_cmd();
    controller.handle_event(HostEvent::Setup { width: 640, height: 480 }, &mut cmd);

    let input = TickInput { width: 800, height: 600, position: Some(1), duration: Some(2) };
    let out = controller.handle_event(HostEvent::BeforeDraw { input }, &mut cmd);
    let realloc = out
        .actions
        .iter()
        .position(|a| *a == Action::ReallocColorStorage { width: 800, height: 600 })
        .unwrap();
    let render = out
        .actions
        .iter()
        .position(|a| *a == Action::RenderFrame { width: 800, height: 600, flip_vertically: true })
        .unwrap();
    assert!(realloc < render);
}

#[test]
fn out_of_phase_events_are_ignored() {
    let mut controller = FrameSyncController::new();
    let mut cmd = idle_cmd();

    let out = controller.handle_event(HostEvent::BeforeDraw { input: plain_input() }, &mut cmd);
    assert!(out.actions.is_empty());
    let out = controller.handle_event(HostEvent::Teardown, &mut cmd);
    assert!(out.actions.is_empty());

    controller.handle_event(HostEvent::Setup { width: 640, height: 480 }, &mut cmd);
    let out = controller.handle_event(HostEvent::Setup { width: 640, height: 480 }, &mut cmd);
    assert!(out.actions.is_empty());
    let out = controller.handle_event(HostEvent::AfterDraw, &mut cmd);
    assert!(out.actions.is_empty());

    controller.handle_event(HostEvent::Teardown, &mut cmd);
    let out = controller.handle_event(HostEvent::Teardown, &mut cmd);
    assert!(out.actions.is_empty());
    let out = controller.handle_event(HostEvent::BeforeDraw { input: plain_input() }, &mut cmd);
    assert!(out.actions.is_empty());
}

#[test]
fn ui_requested_fields_are_never_overwritten() {
    let mut controller = FrameSyncController::new();
    let mut cmd = idle_cmd();
    controller.handle_event(HostEvent::Setup { width: 640, height: 480 }, &mut cmd);

    cmd.requested_pause = true;
    cmd.requested_seek_permille = 777;
    cmd.seek_acknowledged = false;
    controller.handle_event(HostEvent::BeforeDraw { input: plain_input() }, &mut cmd);
    assert!(cmd.requested_pause);
    assert_eq!(cmd.requested_seek_permille, 777);
}
