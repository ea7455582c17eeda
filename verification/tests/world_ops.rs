use revoxelation::renderer::diagnostics::{RendererDiagEventKind, RendererDiagEventRing, RendererDiagnostics};
use revoxelation::renderer::frame::{FrameSettings, RenderDiagnosticsSummary};
use revoxelation::renderer::lifecycle::executor::{LifecycleActionLog, LifecycleExecutionAction};
use revoxelation::renderer::lifecycle::plan::RendererLifecycleEvent;
use revoxelation::renderer::world_ops::{
    apply_renderer_lifecycle, begin_frame, record_render_event, sync_world_step, WorldSyncResult,
};

fn fresh_diagnostics() -> RendererDiagnostics {
    RendererDiagnostics {
        last_lifecycle_event: None,
        last_lifecycle_trace: Vec::new(),
        last_render_summary: RenderDiagnosticsSummary::default(),
        last_render_trace_len: 0,
        world_sync_reject_count: 0,
        last_world_sync_reject_reason: String::new(),
        chunk_map_dropped_entries: 0,
        resource_version_signature: 77,
    }
}

#[test]
fn resize_runs_the_full_rebuild_and_records_it() {
    let mut diag = fresh_diagnostics();
    let mut ring = RendererDiagEventRing::with_capacity(4);
    let mut hooks = LifecycleActionLog { actions: Vec::new() };
    let summary = apply_renderer_lifecycle(&mut diag, &mut ring, 5, RendererLifecycleEvent::Resize, &mut hooks);
    assert!(summary.configure_surface && summary.reset_accumulation);
    assert_eq!(hooks.actions.len(), 4);
    assert_eq!(hooks.actions[0], LifecycleExecutionAction::ConfigureSurface);
    assert_eq!(diag.last_lifecycle_event, Some(RendererLifecycleEvent::Resize));
    assert_eq!(diag.last_lifecycle_trace, hooks.actions);
    let recent = ring.recent(1);
    assert_eq!(recent[0].kind(), RendererDiagEventKind::Resize);
    let snap = recent[0].snapshot();
    assert_eq!(snap.frame_index, 5);
    assert_eq!(snap.lifecycle_trace.as_ref().unwrap().len(), 4);
    assert_eq!(snap.resource_version_signature, 77);
}

#[test]
fn world_sync_rejection_and_acceptance_update_counters() {
    let mut diag = fresh_diagnostics();
    let mut ring = RendererDiagEventRing::with_capacity(4);
    let mut hooks = LifecycleActionLog { actions: Vec::new() };
    let rejected = WorldSyncResult::Rejected { reason: "too large".to_string() };
    sync_world_step(&mut diag, &mut ring, 1, &rejected, &mut hooks);
    assert_eq!(diag.world_sync_reject_count, 1);
    assert_eq!(diag.last_world_sync_reject_reason, "too large");
    assert!(hooks.actions.is_empty());
    assert_eq!(ring.recent(1)[0].kind(), RendererDiagEventKind::SyncRejected);
    assert_eq!(ring.recent(1)[0].snapshot().world_sync_reject_count, 1);

    sync_world_step(&mut diag, &mut ring, 2, &WorldSyncResult::Accepted { dropped_entries: 3 }, &mut hooks);
    assert_eq!(diag.world_sync_reject_count, 1);
    assert_eq!(diag.last_world_sync_reject_reason, "");
    assert_eq!(diag.chunk_map_dropped_entries, 3);
    assert_eq!(
        hooks.actions,
        vec![LifecycleExecutionAction::RebuildBindGroups, LifecycleExecutionAction::ResetAccumulation]
    );
    assert_eq!(ring.recent(1)[0].kind(), RendererDiagEventKind::SyncSucceeded);
    assert_eq!(ring.len(), 2);
}

#[test]
fn frames_skip_empty_surfaces_and_record_render_events() {
    let settings = FrameSettings::default();
    assert!(begin_frame(0, 0, 720, &settings, 5).is_none());
    let plan = begin_frame(3, 1280, 720, &settings, 5).unwrap();
    assert_eq!(plan.resolution, [1280, 720]);
    let mut diag = fresh_diagnostics();
    let mut ring = RendererDiagEventRing::with_capacity(2);
    let summary = RenderDiagnosticsSummary { run_trace: true, run_reistir: false, run_svgf: false, svgf_passes: 0 };
    record_render_event(&mut diag, &mut ring, 3, summary, 1);
    assert_eq!(diag.last_render_summary, summary);
    assert_eq!(diag.last_render_trace_len, 1);
    let e = &ring.recent(1)[0];
    assert_eq!(e.kind(), RendererDiagEventKind::Render);
    assert_eq!(e.snapshot().render_summary, Some(summary));
    assert!(e.snapshot().lifecycle_trace.is_none());
}
