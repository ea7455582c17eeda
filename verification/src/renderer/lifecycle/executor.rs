//! Turning a lifecycle plan into an ordered list of actions.

use vstd::prelude::*;

use super::plan::RendererLifecyclePlan;

verus! {

#[derive(Clone, Copy, Debug, PartialEq, Eq)]
pub struct LifecycleExecutionSummary {
    pub configure_surface: bool,
    pub rebuild_surface_resources: bool,
    pub rebuild_bind_groups: bool,
    pub reset_accumulation: bool,
}

#[derive(Clone, Copy, Debug, PartialEq, Eq)]
pub enum LifecycleExecutionAction {
    ConfigureSurface,
    RebuildSurfaceResources,
    RebuildBindGroups,
    ResetAccumulation,
}

pub open spec fn summary_of(plan: RendererLifecyclePlan) -> LifecycleExecutionSummary {
    LifecycleExecutionSummary {
        configure_surface: plan.reconfigure_surface,
        rebuild_surface_resources: plan.rebuild_surface_resources,
        rebuild_bind_groups: plan.rebuilds_bind_groups(),
        reset_accumulation: plan.reset_accumulation,
    }
}

pub fn lifecycle_execution_summary(plan: RendererLifecyclePlan) -> (s: LifecycleExecutionSummary)
    ensures
        s == summary_of(plan),
{
    LifecycleExecutionSummary {
        configure_surface: plan.reconfigure_surface,
        rebuild_surface_resources: plan.rebuild_surface_resources,
        rebuild_bind_groups: plan.should_rebuild_bind_groups(),
        reset_accumulation: plan.reset_accumulation,
    }
}

pub open spec fn when(b: bool, a: LifecycleExecutionAction) -> Seq<LifecycleExecutionAction> {
    if b {
        seq![a]
    } else {
        seq![]
    }
}

/// Actions of a plan in execution order: configure the surface, rebuild
/// surface resources, rebuild bind groups, reset accumulation.
pub open spec fn trace_of(plan: RendererLifecyclePlan) -> Seq<LifecycleExecutionAction> {
    let s = summary_of(plan);
    when(s.configure_surface, LifecycleExecutionAction::ConfigureSurface) + when(
        s.rebuild_surface_resources,
        LifecycleExecutionAction::RebuildSurfaceResources,
    ) + when(s.rebuild_bind_groups, LifecycleExecutionAction::RebuildBindGroups) + when(
        s.reset_accumulation,
        LifecycleExecutionAction::ResetAccumulation,
    )
}

pub fn lifecycle_execution_trace(plan: RendererLifecyclePlan) -> (actions: Vec<LifecycleExecutionAction>)
    ensures
        actions@ == trace_of(plan),
{
    let summary = lifecycle_execution_summary(plan);
    let mut actions: Vec<LifecycleExecutionAction> = Vec::new();
    if summary.configure_surface {
        actions.push(LifecycleExecutionAction::ConfigureSurface);
    }
    if summary.rebuild_surface_resources {
        actions.push(LifecycleExecutionAction::RebuildSurfaceResources);
    }
    if summary.rebuild_bind_groups {
        actions.push(LifecycleExecutionAction::RebuildBindGroups);
    }
    if summary.reset_accumulation {
        actions.push(LifecycleExecutionAction::ResetAccumulation);
    }
    assert(actions@ =~= trace_of(plan));
    actions
}

/// Operations that carry out a lifecycle plan. Each operation appends its
/// action to the implementor's log of performed actions.
pub trait RendererLifecycleHooks {
    /// The actions performed so far, oldest first. Implementations define
    /// it over their own state; the default is an empty log.
    open spec fn performed(&self) -> Seq<LifecycleExecutionAction> {
        Seq::empty()
    }

    fn configure_surface(&mut self)
        ensures
            final(self).performed() == old(self).performed().push(LifecycleExecutionAction::ConfigureSurface),
    ;

    fn rebuild_surface_resources(&mut self)
        ensures
            final(self).performed() == old(self).performed().push(LifecycleExecutionAction::RebuildSurfaceResources),
    ;

    fn rebuild_bind_groups(&mut self)
        ensures
            final(self).performed() == old(self).performed().push(LifecycleExecutionAction::RebuildBindGroups),
    ;

    fn reset_accumulation(&mut self)
        ensures
            final(self).performed() == old(self).performed().push(LifecycleExecutionAction::ResetAccumulation),
    ;
}

/// A hooks implementation that only records the actions it is asked to
/// perform.
pub struct LifecycleActionLog {
    pub actions: Vec<LifecycleExecutionAction>,
}

impl RendererLifecycleHooks for LifecycleActionLog {
    open spec fn performed(&self) -> Seq<LifecycleExecutionAction> {
        self.actions@
    }

    fn configure_surface(&mut self) {
        self.actions.push(LifecycleExecutionAction::ConfigureSurface);
    }

    fn rebuild_surface_resources(&mut self) {
        self.actions.push(LifecycleExecutionAction::RebuildSurfaceResources);
    }

    fn rebuild_bind_groups(&mut self) {
        self.actions.push(LifecycleExecutionAction::RebuildBindGroups);
    }

    fn reset_accumulation(&mut self) {
        self.actions.push(LifecycleExecutionAction::ResetAccumulation);
    }
}

/// Runs the hooks of each action of `lifecycle_execution_trace(plan)`, in
/// that order, and returns the plan's summary.
pub fn execute_renderer_lifecycle_with_hooks<H: RendererLifecycleHooks>(plan: RendererLifecyclePlan, hooks: &mut H) -> (s: LifecycleExecutionSummary)
    ensures
        s == summary_of(plan),
        final(hooks).performed() == old(hooks).performed() + trace_of(plan),
{
    let summary = lifecycle_execution_summary(plan);
    let actions = lifecycle_execution_trace(plan);
    let ghost start = hooks.performed();
    let mut i: usize = 0;
    while i < actions.len()
        invariant
            i <= actions@.len(),
            actions@ == trace_of(plan),
            hooks.performed() == start + actions@.take(i as int),
        decreases actions@.len() - i,
    {
        match actions[i] {
            LifecycleExecutionAction::ConfigureSurface => hooks.configure_surface(),
            LifecycleExecutionAction::RebuildSurfaceResources => hooks.rebuild_surface_resources(),
            LifecycleExecutionAction::RebuildBindGroups => hooks.rebuild_bind_groups(),
            LifecycleExecutionAction::ResetAccumulation => hooks.reset_accumulation(),
        }
        proof {
            assert(actions@.take(i + 1) =~= actions@.take(i as int).push(actions@[i as int]));
        }
        i += 1;
    }
    proof {
        assert(actions@.take(i as int) =~= actions@);
    }
    summary
}

} // verus!
