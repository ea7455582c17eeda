//! The renderer's bookkeeping around lifecycle events, world syncs and
//! rendered frames: which diagnostics change and which diagnostic event is
//! recorded, with the GPU work left to lifecycle hooks.

use vstd::prelude::*;

use super::diagnostics::{
    lifecycle_diag_event, record_world_sync_rejection_state, record_world_sync_success_state, tail,
    RendererDiagEvent, RendererDiagEventKind, RendererDiagEventRing, RendererDiagEventSnapshot,
    RendererDiagnostics, SnapshotView,
};
use super::frame::{build_frame_plan, frame_plan, FramePlan, FrameSettings, RenderDiagnosticsSummary};
use super::lifecycle::executor::{
    execute_renderer_lifecycle_with_hooks, lifecycle_execution_trace, summary_of, trace_of,
    LifecycleExecutionAction, LifecycleExecutionSummary, RendererLifecycleHooks,
};
use super::lifecycle::plan::{plan_renderer_lifecycle, planned, RendererLifecycleEvent};

verus! {

/// The snapshot recorded with an event: the frame, the lifecycle trace or
/// render summary it carries, and the diagnostics' trace length, resource
/// signature and world-sync counters.
pub open spec fn snapshot_view(
    diag: RendererDiagnostics,
    frame_index: u32,
    lifecycle_trace: Option<Seq<LifecycleExecutionAction>>,
    render_summary: Option<RenderDiagnosticsSummary>,
    render_trace_len: usize,
) -> SnapshotView {
    (
        frame_index,
        lifecycle_trace,
        render_summary,
        render_trace_len,
        diag.resource_version_signature,
        diag.world_sync_reject_count,
        diag.last_world_sync_reject_reason@,
        diag.chunk_map_dropped_entries,
    )
}

/// The diagnostic event kind named after a lifecycle event.
pub open spec fn event_kind(event: RendererLifecycleEvent) -> RendererDiagEventKind {
    match event {
        RendererLifecycleEvent::SyncRejected => RendererDiagEventKind::SyncRejected,
        RendererLifecycleEvent::SyncSucceeded => RendererDiagEventKind::SyncSucceeded,
        RendererLifecycleEvent::Resize => RendererDiagEventKind::Resize,
        RendererLifecycleEvent::Reconfigure => RendererDiagEventKind::Reconfigure,
    }
}

/// The world-sync and render fields of two diagnostics agree.
pub open spec fn same_counters(a: RendererDiagnostics, b: RendererDiagnostics) -> bool {
    &&& a.last_render_summary == b.last_render_summary
    &&& a.last_render_trace_len == b.last_render_trace_len
    &&& a.world_sync_reject_count == b.world_sync_reject_count
    &&& a.last_world_sync_reject_reason@ == b.last_world_sync_reject_reason@
    &&& a.chunk_map_dropped_entries == b.chunk_map_dropped_entries
    &&& a.resource_version_signature == b.resource_version_signature
}

fn copy_reason(s: &String) -> (c: String)
    ensures
        c@ == s@,
{
    s.clone()
}

/// Applies a lifecycle event: plans it, records the event and its action
/// trace as the latest, runs the hooks of each action in order, and
/// records a diagnostic event named after it carrying the trace.
pub fn apply_renderer_lifecycle<H: RendererLifecycleHooks>(
    diag: &mut RendererDiagnostics,
    events: &mut RendererDiagEventRing,
    frame_index: u32,
    event: RendererLifecycleEvent,
    hooks: &mut H,
) -> (s: LifecycleExecutionSummary)
    requires
        old(events).wf(),
    ensures
        s == summary_of(planned(event)),
        final(hooks).performed() == old(hooks).performed() + trace_of(planned(event)),
        final(diag).last_lifecycle_event == Some(event),
        final(diag).last_lifecycle_trace@ == trace_of(planned(event)),
        same_counters(*final(diag), *old(diag)),
        final(events).wf(),
        final(events).cap() == old(events).cap(),
        final(events).events() == tail(
            old(events).events().push(
                (
                    event_kind(event),
                    snapshot_view(*old(diag), frame_index, Some(trace_of(planned(event))), None, old(diag).last_render_trace_len),
                ),
            ),
            old(events).cap() as usize,
        ),
{
    let plan = plan_renderer_lifecycle(event);
    diag.last_lifecycle_event = Some(event);
    diag.last_lifecycle_trace = lifecycle_execution_trace(plan);
    let summary = execute_renderer_lifecycle_with_hooks(plan, hooks);
    let snapshot = RendererDiagEventSnapshot {
        frame_index,
        lifecycle_trace: Some(lifecycle_execution_trace(plan)),
        render_summary: None,
        render_trace_len: diag.last_render_trace_len,
        resource_version_signature: diag.resource_version_signature,
        world_sync_reject_count: diag.world_sync_reject_count,
        last_world_sync_reject_reason: copy_reason(&diag.last_world_sync_reject_reason),
        chunk_map_dropped_entries: diag.chunk_map_dropped_entries,
    };
    let recorded = lifecycle_diag_event(event, snapshot);
    events.push(recorded);
    summary
}

/// What a world sync came to: accepted, with the chunk-map entries it had
/// to drop, or rejected for a reason.
pub enum WorldSyncResult {
    Accepted { dropped_entries: u32 },
    Rejected { reason: String },
}

/// Records a world sync and applies the lifecycle event it triggers: a
/// rejection counts one more rejection (saturating), keeps its reason and
/// applies `SyncRejected`; an acceptance records the dropped entries,
/// clears the reason and applies `SyncSucceeded`.
pub fn sync_world_step<H: RendererLifecycleHooks>(
    diag: &mut RendererDiagnostics,
    events: &mut RendererDiagEventRing,
    frame_index: u32,
    result: &WorldSyncResult,
    hooks: &mut H,
) -> (s: LifecycleExecutionSummary)
    requires
        old(events).wf(),
    ensures
        ({
            let event = match *result {
                WorldSyncResult::Accepted { .. } => RendererLifecycleEvent::SyncSucceeded,
                WorldSyncResult::Rejected { .. } => RendererLifecycleEvent::SyncRejected,
            };
            let count = match *result {
                WorldSyncResult::Accepted { .. } => old(diag).world_sync_reject_count,
                WorldSyncResult::Rejected { .. } => if old(diag).world_sync_reject_count == u32::MAX {
                    u32::MAX
                } else {
                    (old(diag).world_sync_reject_count + 1) as u32
                },
            };
            let reason = match *result {
                WorldSyncResult::Accepted { .. } => Seq::<char>::empty(),
                WorldSyncResult::Rejected { reason } => reason@,
            };
            let dropped = match *result {
                WorldSyncResult::Accepted { dropped_entries } => dropped_entries,
                WorldSyncResult::Rejected { .. } => old(diag).chunk_map_dropped_entries,
            };
            &&& s == summary_of(planned(event))
            &&& final(hooks).performed() == old(hooks).performed() + trace_of(planned(event))
            &&& final(diag).world_sync_reject_count == count
            &&& final(diag).last_world_sync_reject_reason@ == reason
            &&& final(diag).chunk_map_dropped_entries == dropped
            &&& final(diag).last_lifecycle_event == Some(event)
            &&& final(diag).last_lifecycle_trace@ == trace_of(planned(event))
            &&& final(diag).last_render_summary == old(diag).last_render_summary
            &&& final(diag).last_render_trace_len == old(diag).last_render_trace_len
            &&& final(diag).resource_version_signature == old(diag).resource_version_signature
            &&& final(events).wf()
            &&& final(events).cap() == old(events).cap()
            &&& final(events).events() == tail(
                old(events).events().push(
                    (
                        event_kind(event),
                        (
                            frame_index,
                            Some(trace_of(planned(event))),
                            None,
                            old(diag).last_render_trace_len,
                            old(diag).resource_version_signature,
                            count,
                            reason,
                            dropped,
                        ),
                    ),
                ),
                old(events).cap() as usize,
            )
        }),
{
    match result {
        WorldSyncResult::Rejected { reason } => {
            record_world_sync_rejection_state(
                &mut diag.world_sync_reject_count,
                &mut diag.last_world_sync_reject_reason,
                reason.as_str(),
            );
            apply_renderer_lifecycle(diag, events, frame_index, RendererLifecycleEvent::SyncRejected, hooks)
        },
        WorldSyncResult::Accepted { dropped_entries } => {
            record_world_sync_success_state(
                &mut diag.chunk_map_dropped_entries,
                &mut diag.last_world_sync_reject_reason,
                *dropped_entries,
            );
            apply_renderer_lifecycle(diag, events, frame_index, RendererLifecycleEvent::SyncSucceeded, hooks)
        },
    }
}

/// Records a rendered frame: its summary and trace length become the
/// latest, and a `Render` event carrying the summary is recorded.
pub fn record_render_event(
    diag: &mut RendererDiagnostics,
    events: &mut RendererDiagEventRing,
    frame_index: u32,
    summary: RenderDiagnosticsSummary,
    trace_len: usize,
)
    requires
        old(events).wf(),
    ensures
        final(diag).last_render_summary == summary,
        final(diag).last_render_trace_len == trace_len,
        final(diag).last_lifecycle_event == old(diag).last_lifecycle_event,
        final(diag).last_lifecycle_trace@ == old(diag).last_lifecycle_trace@,
        final(diag).world_sync_reject_count == old(diag).world_sync_reject_count,
        final(diag).last_world_sync_reject_reason@ == old(diag).last_world_sync_reject_reason@,
        final(diag).chunk_map_dropped_entries == old(diag).chunk_map_dropped_entries,
        final(diag).resource_version_signature == old(diag).resource_version_signature,
        final(events).wf(),
        final(events).cap() == old(events).cap(),
        final(events).events() == tail(
            old(events).events().push(
                (RendererDiagEventKind::Render, snapshot_view(*old(diag), frame_index, None, Some(summary), trace_len)),
            ),
            old(events).cap() as usize,
        ),
{
    diag.last_render_summary = summary;
    diag.last_render_trace_len = trace_len;
    let snapshot = RendererDiagEventSnapshot {
        frame_index,
        lifecycle_trace: None,
        render_summary: Some(summary),
        render_trace_len: trace_len,
        resource_version_signature: diag.resource_version_signature,
        world_sync_reject_count: diag.world_sync_reject_count,
        last_world_sync_reject_reason: copy_reason(&diag.last_world_sync_reject_reason),
        chunk_map_dropped_entries: diag.chunk_map_dropped_entries,
    };
    events.push(RendererDiagEvent::Render(snapshot));
}

/// The plan of a frame on a `width × height` surface, or none when the
/// surface has a zero side and nothing is rendered.
pub fn begin_frame(
    frame_index: u32,
    width: u32,
    height: u32,
    settings: &FrameSettings,
    max_svgf_passes: usize,
) -> (plan: Option<FramePlan>)
    ensures
        plan == (if width == 0 || height == 0 {
            None
        } else {
            Some(frame_plan(frame_index, width, height, *settings, max_svgf_passes))
        }),
{
    if width == 0 || height == 0 {
        return None;
    }
    Some(build_frame_plan(frame_index, width, height, settings, max_svgf_passes))
}

} // verus!
