use revoxelation::renderer::diagnostics::{
    lifecycle_diag_event, record_world_sync_rejection_state, record_world_sync_success_state, RendererDiagEvent,
    RendererDiagEventKind, RendererDiagEventRing, RendererDiagEventSnapshot, RENDERER_DIAG_EVENT_CAPACITY,
};
use revoxelation::renderer::frame::RenderDiagnosticsSummary;
use revoxelation::renderer::lifecycle::executor::LifecycleExecutionAction;
use revoxelation::renderer::lifecycle::plan::RendererLifecycleEvent;

fn snapshot(frame_index: u32) -> RendererDiagEventSnapshot {
    RendererDiagEventSnapshot {
        frame_index,
        lifecycle_trace: None,
        render_summary: None,
        render_trace_len: frame_index as usize,
        resource_version_signature: 100 + frame_index as u64,
        world_sync_reject_count: frame_index,
        last_world_sync_reject_reason: format!("reason-{frame_index}"),
        chunk_map_dropped_entries: frame_index.saturating_add(1),
    }
}

fn event_of_kind(kind: RendererDiagEventKind, frame_index: u32) -> RendererDiagEvent {
    let snapshot = snapshot(frame_index);
    match kind {
        RendererDiagEventKind::SyncRejected => RendererDiagEvent::SyncRejected(snapshot),
        RendererDiagEventKind::SyncSucceeded => RendererDiagEvent::SyncSucceeded(snapshot),
        RendererDiagEventKind::Resize => RendererDiagEvent::Resize(snapshot),
        RendererDiagEventKind::Reconfigure => RendererDiagEvent::Reconfigure(snapshot),
        RendererDiagEventKind::Render => RendererDiagEvent::Render(snapshot),
    }
}

fn frames(events: Vec<RendererDiagEvent>) -> Vec<u32> {
    events.into_iter().map(|event| event.snapshot().frame_index).collect::<Vec<_>>()
}

#[test]
fn diag_ring_preserves_order_under_capacity() {
    let mut ring = RendererDiagEventRing::with_capacity(4);
    ring.push(RendererDiagEvent::SyncRejected(snapshot(1)));
    ring.push(RendererDiagEvent::SyncSucceeded(snapshot(2)));
    ring.push(RendererDiagEvent::Resize(snapshot(3)));
    assert_eq!(frames(ring.recent(10)), vec![1, 2, 3]);
}

#[test]
fn diag_ring_drops_oldest_on_capacity_overflow() {
    let mut ring = RendererDiagEventRing::with_capacity(2);
    ring.push(RendererDiagEvent::SyncRejected(snapshot(1)));
    ring.push(RendererDiagEvent::SyncSucceeded(snapshot(2)));
    ring.push(RendererDiagEvent::Resize(snapshot(3)));
    assert_eq!(frames(ring.recent(10)), vec![2, 3]);
}

#[test]
fn diag_ring_keeps_latest_entries_after_multiple_overflows() {
    let mut ring = RendererDiagEventRing::with_capacity(3);
    for frame in 0..8 {
        ring.push(RendererDiagEvent::Render(snapshot(frame)));
    }
    assert_eq!(frames(ring.recent(10)), vec![5, 6, 7]);
}

#[test]
fn diag_ring_with_zero_capacity_falls_back_to_one_slot() {
    let mut ring = RendererDiagEventRing::with_capacity(0);
    ring.push(RendererDiagEvent::SyncRejected(snapshot(10)));
    ring.push(RendererDiagEvent::SyncSucceeded(snapshot(11)));
    assert_eq!(frames(ring.recent(10)), vec![11]);
}

#[test]
fn diag_ring_recent_returns_oldest_to_newest() {
    let mut ring = RendererDiagEventRing::with_capacity(5);
    ring.push(RendererDiagEvent::SyncRejected(snapshot(1)));
    ring.push(RendererDiagEvent::Resize(snapshot(2)));
    ring.push(RendererDiagEvent::Reconfigure(snapshot(3)));
    ring.push(RendererDiagEvent::Render(snapshot(4)));
    assert_eq!(frames(ring.recent(3)), vec![2, 3, 4]);
}

#[test]
fn diag_ring_capacity_truncation_keeps_tail_order() {
    let mut ring = RendererDiagEventRing::with_capacity(4);
    for frame in 1..=6 {
        ring.push(RendererDiagEvent::Render(snapshot(frame)));
    }
    assert_eq!(frames(ring.recent(4)), vec![3, 4, 5, 6]);
}

#[test]
fn recent_limit_zero_returns_empty() {
    let mut ring = RendererDiagEventRing::with_capacity(4);
    ring.push(RendererDiagEvent::SyncRejected(snapshot(1)));
    assert!(ring.recent(0).is_empty());
}

#[test]
fn recent_limit_one_returns_latest_event_only() {
    let mut ring = RendererDiagEventRing::with_capacity(4);
    ring.push(RendererDiagEvent::SyncRejected(snapshot(1)));
    ring.push(RendererDiagEvent::SyncSucceeded(snapshot(2)));
    assert_eq!(frames(ring.recent(1)), vec![2]);
}

#[test]
fn recent_limit_equal_to_len_returns_all_events() {
    let mut ring = RendererDiagEventRing::with_capacity(4);
    ring.push(RendererDiagEvent::SyncRejected(snapshot(1)));
    ring.push(RendererDiagEvent::SyncSucceeded(snapshot(2)));
    ring.push(RendererDiagEvent::Resize(snapshot(3)));
    assert_eq!(frames(ring.recent(3)), vec![1, 2, 3]);
}

#[test]
fn recent_limit_larger_than_len_returns_all_events() {
    let mut ring = RendererDiagEventRing::with_capacity(4);
    ring.push(RendererDiagEvent::SyncRejected(snapshot(1)));
    ring.push(RendererDiagEvent::SyncSucceeded(snapshot(2)));
    assert_eq!(frames(ring.recent(99)), vec![1, 2]);
}

#[test]
fn sync_succeeded_event_has_lifecycle_trace_and_no_render_summary() {
    let mut snapshot = snapshot(7);
    snapshot.lifecycle_trace =
        Some(vec![LifecycleExecutionAction::RebuildBindGroups, LifecycleExecutionAction::ResetAccumulation]);
    let event = RendererDiagEvent::SyncSucceeded(snapshot);
    let data = event.snapshot();
    assert!(data.lifecycle_trace.is_some());
    assert!(data.render_summary.is_none());
}

#[test]
fn sync_rejected_event_preserves_rejection_snapshot_fields() {
    let snapshot = snapshot(8);
    let event = RendererDiagEvent::SyncRejected(snapshot);
    let data = event.snapshot();
    assert_eq!(data.world_sync_reject_count, 8);
    assert_eq!(data.last_world_sync_reject_reason, "reason-8");
    assert_eq!(data.chunk_map_dropped_entries, 9);
}

#[test]
fn render_event_has_render_summary_and_no_lifecycle_trace() {
    let mut snapshot = snapshot(9);
    snapshot.lifecycle_trace = None;
    snapshot.render_summary =
        Some(RenderDiagnosticsSummary { run_trace: true, run_reistir: true, run_svgf: true, svgf_passes: 3 });
    let event = RendererDiagEvent::Render(snapshot);
    let data = event.snapshot();
    assert!(data.lifecycle_trace.is_none());
    assert_eq!(
        data.render_summary,
        Some(RenderDiagnosticsSummary { run_trace: true, run_reistir: true, run_svgf: true, svgf_passes: 3 })
    );
}

#[test]
fn resize_event_keeps_resource_signature_and_trace_len() {
    let mut snapshot = snapshot(10);
    snapshot.lifecycle_trace = Some(vec![
        LifecycleExecutionAction::ConfigureSurface,
        LifecycleExecutionAction::RebuildSurfaceResources,
        LifecycleExecutionAction::RebuildBindGroups,
        LifecycleExecutionAction::ResetAccumulation,
    ]);
    snapshot.render_trace_len = 6;
    snapshot.resource_version_signature = 0xAA55;
    let event = RendererDiagEvent::Resize(snapshot);
    let data = event.snapshot();
    assert_eq!(data.render_trace_len, 6);
    assert_eq!(data.resource_version_signature, 0xAA55);
    assert_eq!(data.lifecycle_trace.as_ref().map(|trace| trace.len()), Some(4));
}

#[test]
fn recent_by_type_limit_zero_returns_empty() {
    let mut ring = RendererDiagEventRing::with_capacity(5);
    ring.push(event_of_kind(RendererDiagEventKind::Render, 1));
    assert!(ring.recent_by_kind(0, RendererDiagEventKind::Render).is_empty());
}

#[test]
fn recent_by_type_returns_only_matching_kind() {
    let mut ring = RendererDiagEventRing::with_capacity(6);
    ring.push(event_of_kind(RendererDiagEventKind::Render, 1));
    ring.push(event_of_kind(RendererDiagEventKind::Resize, 2));
    ring.push(event_of_kind(RendererDiagEventKind::Render, 3));
    ring.push(event_of_kind(RendererDiagEventKind::SyncSucceeded, 4));
    assert_eq!(frames(ring.recent_by_kind(10, RendererDiagEventKind::Render)), vec![1, 3]);
}

#[test]
fn recent_by_type_applies_limit_to_matching_events_only() {
    let mut ring = RendererDiagEventRing::with_capacity(10);
    ring.push(event_of_kind(RendererDiagEventKind::Render, 1));
    ring.push(event_of_kind(RendererDiagEventKind::Resize, 2));
    ring.push(event_of_kind(RendererDiagEventKind::Render, 3));
    ring.push(event_of_kind(RendererDiagEventKind::Render, 4));
    ring.push(event_of_kind(RendererDiagEventKind::Render, 5));
    assert_eq!(frames(ring.recent_by_kind(2, RendererDiagEventKind::Render)), vec![4, 5]);
}

#[test]
fn recent_by_type_preserves_old_to_new_order() {
    let mut ring = RendererDiagEventRing::with_capacity(10);
    ring.push(event_of_kind(RendererDiagEventKind::SyncRejected, 1));
    ring.push(event_of_kind(RendererDiagEventKind::SyncRejected, 3));
    ring.push(event_of_kind(RendererDiagEventKind::SyncRejected, 5));
    assert_eq!(frames(ring.recent_by_kind(10, RendererDiagEventKind::SyncRejected)), vec![1, 3, 5]);
}

#[test]
fn since_frame_limit_zero_returns_empty() {
    let mut ring = RendererDiagEventRing::with_capacity(4);
    ring.push(event_of_kind(RendererDiagEventKind::Render, 5));
    assert!(ring.since_frame(5, 0).is_empty());
}

#[test]
fn since_frame_is_inclusive_of_target_frame() {
    let mut ring = RendererDiagEventRing::with_capacity(6);
    ring.push(event_of_kind(RendererDiagEventKind::Render, 3));
    ring.push(event_of_kind(RendererDiagEventKind::Resize, 4));
    ring.push(event_of_kind(RendererDiagEventKind::Render, 5));
    assert_eq!(frames(ring.since_frame(4, 10)), vec![4, 5]);
}

#[test]
fn since_frame_returns_empty_when_frame_is_newer_than_all_events() {
    let mut ring = RendererDiagEventRing::with_capacity(4);
    ring.push(event_of_kind(RendererDiagEventKind::Render, 1));
    ring.push(event_of_kind(RendererDiagEventKind::Render, 2));
    assert!(ring.since_frame(10, 3).is_empty());
}

#[test]
fn since_frame_applies_tail_limit_while_preserving_order() {
    let mut ring = RendererDiagEventRing::with_capacity(10);
    ring.push(event_of_kind(RendererDiagEventKind::Render, 1));
    ring.push(event_of_kind(RendererDiagEventKind::Resize, 2));
    ring.push(event_of_kind(RendererDiagEventKind::Render, 3));
    ring.push(event_of_kind(RendererDiagEventKind::Reconfigure, 4));
    ring.push(event_of_kind(RendererDiagEventKind::Render, 5));
    assert_eq!(frames(ring.since_frame(2, 2)), vec![4, 5]);
}

#[derive(Debug, Default, Clone, PartialEq, Eq)]
struct WorldSyncDiagState {
    reject_count: u32,
    last_reason: String,
    dropped_entries: u32,
}

fn on_reject(state: &mut WorldSyncDiagState, reason: &str) {
    record_world_sync_rejection_state(&mut state.reject_count, &mut state.last_reason, reason);
}

fn on_success(state: &mut WorldSyncDiagState, dropped_entries: u32) {
    record_world_sync_success_state(&mut state.dropped_entries, &mut state.last_reason, dropped_entries);
}

#[test]
fn world_sync_diag_reject_updates_reason_and_count() {
    let mut state = WorldSyncDiagState::default();
    on_reject(&mut state, "rejected");
    assert_eq!(state.reject_count, 1);
    assert_eq!(state.last_reason, "rejected");
    assert_eq!(state.dropped_entries, 0);
}

#[test]
fn world_sync_diag_success_clears_reason_and_sets_dropped_entries() {
    let mut state = WorldSyncDiagState::default();
    on_reject(&mut state, "rejected");
    on_success(&mut state, 3);
    assert_eq!(state.reject_count, 1);
    assert_eq!(state.last_reason, "");
    assert_eq!(state.dropped_entries, 3);
}

#[test]
fn world_sync_diag_reject_then_reject_keeps_latest_reason() {
    let mut state = WorldSyncDiagState::default();
    on_reject(&mut state, "a");
    on_reject(&mut state, "b");
    assert_eq!(state.reject_count, 2);
    assert_eq!(state.last_reason, "b");
}

#[test]
fn world_sync_diag_success_does_not_change_reject_count() {
    let mut state = WorldSyncDiagState::default();
    on_reject(&mut state, "a");
    on_success(&mut state, 1);
    on_success(&mut state, 2);
    assert_eq!(state.reject_count, 1);
    assert_eq!(state.dropped_entries, 2);
}

#[test]
fn rejection_count_saturates() {
    let mut count = u32::MAX;
    let mut reason = String::new();
    record_world_sync_rejection_state(&mut count, &mut reason, "again");
    assert_eq!(count, u32::MAX);
    assert_eq!(reason, "again");
}

#[test]
fn default_ring_holds_the_latest_default_capacity_events() {
    let mut ring = RendererDiagEventRing::default();
    let total = RENDERER_DIAG_EVENT_CAPACITY as u32 + 5;
    for frame in 0..total {
        ring.push(RendererDiagEvent::Render(snapshot(frame)));
    }
    assert_eq!(ring.len(), RENDERER_DIAG_EVENT_CAPACITY);
    let expected: Vec<u32> = (5..total).collect();
    assert_eq!(frames(ring.recent(usize::MAX)), expected);
}

#[test]
fn lifecycle_events_map_to_matching_diag_kinds() {
    let cases = [
        (RendererLifecycleEvent::SyncRejected, RendererDiagEventKind::SyncRejected),
        (RendererLifecycleEvent::SyncSucceeded, RendererDiagEventKind::SyncSucceeded),
        (RendererLifecycleEvent::Resize, RendererDiagEventKind::Resize),
        (RendererLifecycleEvent::Reconfigure, RendererDiagEventKind::Reconfigure),
    ];
    for (event, kind) in cases {
        let diag = lifecycle_diag_event(event, snapshot(4));
        assert_eq!(diag.kind(), kind);
        assert_eq!(diag.snapshot().frame_index, 4);
    }
}
