use revoxelation::renderer::lifecycle::executor::{
    execute_renderer_lifecycle_with_hooks, lifecycle_execution_summary, lifecycle_execution_trace,
    LifecycleActionLog, LifecycleExecutionAction, RendererLifecycleHooks,
};
use revoxelation::renderer::lifecycle::plan::{plan_renderer_lifecycle, RendererLifecycleEvent, RendererLifecyclePlan};
use revoxelation::renderer::lifecycle::policy::{
    should_rebuild_bind_groups, surface_resources_policy, world_sync_policy, SurfaceResourcesEvent,
    WorldSyncPolicyEvent,
};

#[derive(Default)]
struct HookTrace {
    calls: Vec<&'static str>,
}

impl RendererLifecycleHooks for HookTrace {
    fn configure_surface(&mut self) {
        self.calls.push("configure_surface");
    }

    fn rebuild_surface_resources(&mut self) {
        self.calls.push("rebuild_surface_resources");
    }

    fn rebuild_bind_groups(&mut self) {
        self.calls.push("rebuild_bind_groups");
    }

    fn reset_accumulation(&mut self) {
        self.calls.push("reset_accumulation");
    }
}

fn lifecycle_trace(event: RendererLifecycleEvent) -> Vec<LifecycleExecutionAction> {
    lifecycle_execution_trace(plan_renderer_lifecycle(event))
}

#[test]
fn sync_success_executes_bind_group_rebuild_and_reset() {
    let plan = plan_renderer_lifecycle(RendererLifecycleEvent::SyncSucceeded);
    let mut hooks = HookTrace::default();
    let summary = execute_renderer_lifecycle_with_hooks(plan, &mut hooks);
    assert_eq!(hooks.calls, vec!["rebuild_bind_groups", "reset_accumulation"]);
    assert!(!summary.configure_surface);
    assert!(summary.rebuild_bind_groups);
    assert!(summary.reset_accumulation);
}

#[test]
fn sync_reject_executes_no_operations() {
    let plan = plan_renderer_lifecycle(RendererLifecycleEvent::SyncRejected);
    let mut hooks = HookTrace::default();
    let summary = execute_renderer_lifecycle_with_hooks(plan, &mut hooks);
    assert!(hooks.calls.is_empty());
    assert!(!summary.configure_surface);
    assert!(!summary.rebuild_surface_resources);
    assert!(!summary.rebuild_bind_groups);
    assert!(!summary.reset_accumulation);
}

#[test]
fn resize_executes_full_rebuild_sequence() {
    let plan = plan_renderer_lifecycle(RendererLifecycleEvent::Resize);
    let mut hooks = HookTrace::default();
    let summary = execute_renderer_lifecycle_with_hooks(plan, &mut hooks);
    assert_eq!(
        hooks.calls,
        vec!["configure_surface", "rebuild_surface_resources", "rebuild_bind_groups", "reset_accumulation",]
    );
    assert!(summary.configure_surface);
    assert!(summary.rebuild_surface_resources);
    assert!(summary.rebuild_bind_groups);
    assert!(summary.reset_accumulation);
}

#[test]
fn reconfigure_executes_configure_and_reset_only() {
    let plan = plan_renderer_lifecycle(RendererLifecycleEvent::Reconfigure);
    let mut hooks = HookTrace::default();
    let summary = execute_renderer_lifecycle_with_hooks(plan, &mut hooks);
    assert_eq!(hooks.calls, vec!["configure_surface", "reset_accumulation"]);
    assert!(summary.configure_surface);
    assert!(!summary.rebuild_surface_resources);
    assert!(!summary.rebuild_bind_groups);
    assert!(summary.reset_accumulation);
}

#[test]
fn summary_matches_noop_plan() {
    let plan = RendererLifecyclePlan {
        reconfigure_surface: false,
        rebuild_surface_resources: false,
        request_bind_group_rebuild: false,
        world_resources_changed: false,
        surface_resources_changed: false,
        reset_accumulation: false,
    };
    let summary = lifecycle_execution_summary(plan);
    assert!(!summary.configure_surface);
    assert!(!summary.rebuild_surface_resources);
    assert!(!summary.rebuild_bind_groups);
    assert!(!summary.reset_accumulation);
}

#[test]
fn summary_requires_resource_change_for_bind_group_rebuild() {
    let plan = RendererLifecyclePlan {
        reconfigure_surface: false,
        rebuild_surface_resources: false,
        request_bind_group_rebuild: true,
        world_resources_changed: false,
        surface_resources_changed: false,
        reset_accumulation: false,
    };
    let summary = lifecycle_execution_summary(plan);
    assert!(!summary.rebuild_bind_groups);
}

#[test]
fn trace_matches_sync_success_order() {
    let plan = plan_renderer_lifecycle(RendererLifecycleEvent::SyncSucceeded);
    assert_eq!(
        lifecycle_execution_trace(plan),
        vec![LifecycleExecutionAction::RebuildBindGroups, LifecycleExecutionAction::ResetAccumulation,]
    );
}

#[test]
fn trace_matches_sync_reject_order() {
    let plan = plan_renderer_lifecycle(RendererLifecycleEvent::SyncRejected);
    assert_eq!(lifecycle_execution_trace(plan), Vec::new());
}

#[test]
fn trace_matches_resize_order() {
    let plan = plan_renderer_lifecycle(RendererLifecycleEvent::Resize);
    assert_eq!(
        lifecycle_execution_trace(plan),
        vec![
            LifecycleExecutionAction::ConfigureSurface,
            LifecycleExecutionAction::RebuildSurfaceResources,
            LifecycleExecutionAction::RebuildBindGroups,
            LifecycleExecutionAction::ResetAccumulation,
        ]
    );
}

#[test]
fn trace_matches_reconfigure_order() {
    let plan = plan_renderer_lifecycle(RendererLifecycleEvent::Reconfigure);
    assert_eq!(
        lifecycle_execution_trace(plan),
        vec![LifecycleExecutionAction::ConfigureSurface, LifecycleExecutionAction::ResetAccumulation,]
    );
}

#[test]
fn sync_success_plan_rebuilds_bind_groups_and_resets() {
    let plan = plan_renderer_lifecycle(RendererLifecycleEvent::SyncSucceeded);
    assert!(!plan.reconfigure_surface);
    assert!(!plan.rebuild_surface_resources);
    assert!(plan.should_rebuild_bind_groups());
    assert!(plan.reset_accumulation);
}

#[test]
fn sync_rejected_plan_is_noop() {
    let plan = plan_renderer_lifecycle(RendererLifecycleEvent::SyncRejected);
    assert!(!plan.reconfigure_surface);
    assert!(!plan.rebuild_surface_resources);
    assert!(!plan.should_rebuild_bind_groups());
    assert!(!plan.reset_accumulation);
}

#[test]
fn resize_plan_reconfigures_rebuilds_and_resets() {
    let plan = plan_renderer_lifecycle(RendererLifecycleEvent::Resize);
    assert!(plan.reconfigure_surface);
    assert!(plan.rebuild_surface_resources);
    assert!(plan.should_rebuild_bind_groups());
    assert!(plan.reset_accumulation);
}

#[test]
fn reconfigure_plan_only_reconfigures_and_resets() {
    let plan = plan_renderer_lifecycle(RendererLifecycleEvent::Reconfigure);
    assert!(plan.reconfigure_surface);
    assert!(!plan.rebuild_surface_resources);
    assert!(!plan.should_rebuild_bind_groups());
    assert!(plan.reset_accumulation);
}

#[test]
fn sync_success_marks_world_change_only() {
    let plan = plan_renderer_lifecycle(RendererLifecycleEvent::SyncSucceeded);
    assert!(plan.world_resources_changed);
    assert!(!plan.surface_resources_changed);
    assert!(plan.request_bind_group_rebuild);
}

#[test]
fn resize_marks_surface_change_only() {
    let plan = plan_renderer_lifecycle(RendererLifecycleEvent::Resize);
    assert!(!plan.world_resources_changed);
    assert!(plan.surface_resources_changed);
    assert!(plan.request_bind_group_rebuild);
}

#[test]
fn reconfigure_disables_bind_group_rebuild_request() {
    let plan = plan_renderer_lifecycle(RendererLifecycleEvent::Reconfigure);
    assert!(!plan.world_resources_changed);
    assert!(!plan.surface_resources_changed);
    assert!(!plan.request_bind_group_rebuild);
}

#[test]
fn rejection_does_not_trigger_rebuild_or_reset() {
    let decision = world_sync_policy(WorldSyncPolicyEvent::Rejected);
    assert!(!decision.recreate_bind_groups);
    assert!(!decision.reset_accumulation);
}

#[test]
fn success_triggers_rebuild_and_reset() {
    let decision = world_sync_policy(WorldSyncPolicyEvent::Succeeded);
    assert!(decision.recreate_bind_groups);
    assert!(decision.reset_accumulation);
}

#[test]
fn resize_triggers_rebuild_and_reset() {
    let decision = world_sync_policy(WorldSyncPolicyEvent::Resized);
    assert!(decision.recreate_bind_groups);
    assert!(decision.reset_accumulation);
}

#[test]
fn lifecycle_diag_trace_sync_success() {
    assert_eq!(
        lifecycle_trace(RendererLifecycleEvent::SyncSucceeded),
        vec![LifecycleExecutionAction::RebuildBindGroups, LifecycleExecutionAction::ResetAccumulation]
    );
}

#[test]
fn lifecycle_diag_trace_sync_reject() {
    assert_eq!(lifecycle_trace(RendererLifecycleEvent::SyncRejected), Vec::new());
}

#[test]
fn lifecycle_diag_trace_resize() {
    assert_eq!(
        lifecycle_trace(RendererLifecycleEvent::Resize),
        vec![
            LifecycleExecutionAction::ConfigureSurface,
            LifecycleExecutionAction::RebuildSurfaceResources,
            LifecycleExecutionAction::RebuildBindGroups,
            LifecycleExecutionAction::ResetAccumulation
        ]
    );
}

#[test]
fn lifecycle_diag_trace_reconfigure() {
    assert_eq!(
        lifecycle_trace(RendererLifecycleEvent::Reconfigure),
        vec![LifecycleExecutionAction::ConfigureSurface, LifecycleExecutionAction::ResetAccumulation]
    );
}

#[test]
fn every_event_but_rejection_resets_accumulation() {
    for event in [RendererLifecycleEvent::SyncSucceeded, RendererLifecycleEvent::Resize, RendererLifecycleEvent::Reconfigure] {
        assert!(plan_renderer_lifecycle(event).reset_accumulation);
    }
    assert!(!plan_renderer_lifecycle(RendererLifecycleEvent::SyncRejected).reset_accumulation);
}

#[test]
fn bind_groups_rebuild_only_on_resource_change() {
    assert!(!should_rebuild_bind_groups(false, false));
    assert!(should_rebuild_bind_groups(true, false));
    assert!(should_rebuild_bind_groups(false, true));
}

#[test]
fn surface_policy_decisions() {
    let resize = surface_resources_policy(SurfaceResourcesEvent::Resize);
    let reconfigure = surface_resources_policy(SurfaceResourcesEvent::Reconfigure);
    assert!(resize.rebuild_resources && resize.reconfigure_surface);
    assert!(!reconfigure.rebuild_resources && reconfigure.reconfigure_surface);
}

#[test]
fn action_log_records_hooks_in_trace_order() {
    let mut log = LifecycleActionLog { actions: vec![LifecycleExecutionAction::ResetAccumulation] };
    let plan = plan_renderer_lifecycle(RendererLifecycleEvent::Resize);
    execute_renderer_lifecycle_with_hooks(plan, &mut log);
    let mut expected = vec![LifecycleExecutionAction::ResetAccumulation];
    expected.extend(lifecycle_execution_trace(plan));
    assert_eq!(log.actions, expected);
    assert_eq!(log.actions.len(), 5);
}
