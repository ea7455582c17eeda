use revoxelation::frame_loop::{
    LoopAction, LoopEvent, LoopState, SubmitOutcome, TickStart, IDLE_REDRAW_INTERVAL_MS,
};
use revoxelation::renderer::camera::CameraKey;

fn key(camera_key: Option<CameraKey>, escape: bool, pressed: bool) -> LoopEvent {
    LoopEvent::Key { camera_key, escape, pressed }
}

#[test]
fn idle_loop_redraws_every_interval_and_waits_in_between() {
    let mut s = LoopState::new(800, 600, 1000);
    assert_eq!(s.route_event(LoopEvent::AboutToWait { now_ms: 1000, other_work: false }), LoopAction::RequestRedraw);
    assert_eq!(s.next_idle_redraw_ms, 1000 + IDLE_REDRAW_INTERVAL_MS);
    assert_eq!(s.route_event(LoopEvent::AboutToWait { now_ms: 1020, other_work: false }), LoopAction::WaitUntil(1050));
    assert_eq!(s.next_idle_redraw_ms, 1050);
    assert_eq!(s.route_event(LoopEvent::AboutToWait { now_ms: 1030, other_work: true }), LoopAction::RequestRedraw);
    assert_eq!(s.next_idle_redraw_ms, 1050);
    assert_eq!(s.route_event(LoopEvent::AboutToWait { now_ms: 1060, other_work: false }), LoopAction::RequestRedraw);
    assert_eq!(s.next_idle_redraw_ms, 1110);
}

#[test]
fn held_keys_and_pending_resize_redraw_at_once() {
    let mut s = LoopState::new(800, 600, 5000);
    s.route_event(key(Some(CameraKey::Forward), false, true));
    assert!(s.keys.forward);
    assert!(s.should_redraw_immediately(false));
    assert_eq!(s.route_event(LoopEvent::AboutToWait { now_ms: 0, other_work: false }), LoopAction::RequestRedraw);
    s.route_event(key(Some(CameraKey::Forward), false, false));
    assert!(!s.should_redraw_immediately(false));
    s.route_event(LoopEvent::Resized { width: 1024, height: 768 });
    assert!(s.should_redraw_immediately(false));
    assert_eq!((s.window_width, s.window_height), (1024, 768));
}

#[test]
fn ui_capture_hides_motion_and_presses_but_not_releases() {
    let mut s = LoopState::new(800, 600, 0);
    assert_eq!(s.route_event(LoopEvent::MouseMotion), LoopAction::MoveCamera);
    s.route_event(key(Some(CameraKey::Left), false, true));
    assert!(s.keys.left);
    s.finish_tick(SubmitOutcome::Submitted, true, true);
    assert_eq!(s.route_event(LoopEvent::MouseMotion), LoopAction::Nothing);
    s.route_event(key(Some(CameraKey::Up), false, true));
    assert!(!s.keys.up);
    s.route_event(key(Some(CameraKey::Left), false, false));
    assert!(!s.keys.left);
}

#[test]
fn escape_press_and_close_exit() {
    let mut s = LoopState::new(800, 600, 0);
    assert_eq!(s.route_event(key(None, true, false)), LoopAction::Nothing);
    assert_eq!(s.route_event(key(None, true, true)), LoopAction::Exit);
    assert_eq!(s.route_event(LoopEvent::CloseRequested), LoopAction::Exit);
    assert_eq!(s.route_event(LoopEvent::RedrawRequested), LoopAction::Tick);
}

#[test]
fn ticks_skip_empty_windows_and_recreate_after_resize() {
    let mut s = LoopState::new(800, 600, 0);
    assert_eq!(s.begin_tick(0, 600), TickStart::Skip);
    assert_eq!(s.begin_tick(800, 0), TickStart::Skip);
    assert_eq!(s.begin_tick(800, 600), TickStart::Render);
    s.route_event(LoopEvent::Resized { width: 640, height: 480 });
    assert_eq!(s.begin_tick(640, 480), TickStart::RecreateSwapchain { width: 640, height: 480 });
    assert!(!s.swapchain_recreated(false));
    assert!(s.needs_resize);
    assert!(s.swapchain_recreated(true));
    assert!(!s.needs_resize);
    assert_eq!(s.begin_tick(640, 480), TickStart::Render);
}

#[test]
fn finished_ticks_count_frames_and_flag_stale_swapchains() {
    let mut s = LoopState::new(800, 600, 0);
    s.finish_tick(SubmitOutcome::Submitted, false, false);
    assert_eq!(s.frame_index, 1);
    assert!(!s.needs_resize);
    s.finish_tick(SubmitOutcome::Failed, false, false);
    assert_eq!(s.frame_index, 2);
    assert!(!s.needs_resize);
    s.finish_tick(SubmitOutcome::NeedsRecreate, false, false);
    assert_eq!(s.frame_index, 3);
    assert!(s.needs_resize);
    s.frame_index = u64::MAX;
    s.finish_tick(SubmitOutcome::Submitted, false, false);
    assert_eq!(s.frame_index, u64::MAX);
}
