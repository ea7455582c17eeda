//! The lifecycle plan of each renderer event.

use vstd::prelude::*;

use super::policy::{
    should_rebuild_bind_groups, surface_resources_policy, world_sync_policy, SurfaceResourcesEvent,
    WorldSyncPolicyEvent,
};

verus! {

#[derive(Clone, Copy, Debug, PartialEq, Eq)]
pub enum RendererLifecycleEvent {
    SyncRejected,
    SyncSucceeded,
    Resize,
    Reconfigure,
}

#[derive(Clone, Copy, Debug, PartialEq, Eq)]
pub struct RendererLifecyclePlan {
    pub reconfigure_surface: bool,
    pub rebuild_surface_resources: bool,
    pub request_bind_group_rebuild: bool,
    pub world_resources_changed: bool,
    pub surface_resources_changed: bool,
    pub reset_accumulation: bool,
}

impl RendererLifecyclePlan {
    /// Bind groups are rebuilt when requested and some resources changed.
    pub open spec fn rebuilds_bind_groups(self) -> bool {
        self.request_bind_group_rebuild && (self.world_resources_changed || self.surface_resources_changed)
    }

    pub fn should_rebuild_bind_groups(self) -> (r: bool)
        ensures
            r == self.rebuilds_bind_groups(),
    {
        self.request_bind_group_rebuild && should_rebuild_bind_groups(
            self.world_resources_changed,
            self.surface_resources_changed,
        )
    }
}

/// The plan of each event, field by field.
pub open spec fn planned(event: RendererLifecycleEvent) -> RendererLifecyclePlan {
    match event {
        RendererLifecycleEvent::SyncRejected => RendererLifecyclePlan {
            reconfigure_surface: false,
            rebuild_surface_resources: false,
            request_bind_group_rebuild: false,
            world_resources_changed: false,
            surface_resources_changed: false,
            reset_accumulation: false,
        },
        RendererLifecycleEvent::SyncSucceeded => RendererLifecyclePlan {
            reconfigure_surface: false,
            rebuild_surface_resources: false,
            request_bind_group_rebuild: true,
            world_resources_changed: true,
            surface_resources_changed: false,
            reset_accumulation: true,
        },
        RendererLifecycleEvent::Resize => RendererLifecyclePlan {
            reconfigure_surface: true,
            rebuild_surface_resources: true,
            request_bind_group_rebuild: true,
            world_resources_changed: false,
            surface_resources_changed: true,
            reset_accumulation: true,
        },
        RendererLifecycleEvent::Reconfigure => RendererLifecyclePlan {
            reconfigure_surface: true,
            rebuild_surface_resources: false,
            request_bind_group_rebuild: false,
            world_resources_changed: false,
            surface_resources_changed: false,
            reset_accumulation: true,
        },
    }
}

pub fn plan_renderer_lifecycle(event: RendererLifecycleEvent) -> (plan: RendererLifecyclePlan)
    ensures
        plan == planned(event),
{
    match event {
        RendererLifecycleEvent::SyncRejected => {
            let sync = world_sync_policy(WorldSyncPolicyEvent::Rejected);
            RendererLifecyclePlan {
                reconfigure_surface: false,
                rebuild_surface_resources: false,
                request_bind_group_rebuild: sync.recreate_bind_groups,
                world_resources_changed: false,
                surface_resources_changed: false,
                reset_accumulation: sync.reset_accumulation,
            }
        },
        RendererLifecycleEvent::SyncSucceeded => {
            let sync = world_sync_policy(WorldSyncPolicyEvent::Succeeded);
            RendererLifecyclePlan {
                reconfigure_surface: false,
                rebuild_surface_resources: false,
                request_bind_group_rebuild: sync.recreate_bind_groups,
                world_resources_changed: true,
                surface_resources_changed: false,
                reset_accumulation: sync.reset_accumulation,
            }
        },
        RendererLifecycleEvent::Resize => {
            let sync = world_sync_policy(WorldSyncPolicyEvent::Resized);
            let surface = surface_resources_policy(SurfaceResourcesEvent::Resize);
            RendererLifecyclePlan {
                reconfigure_surface: surface.reconfigure_surface,
                rebuild_surface_resources: surface.rebuild_resources,
                request_bind_group_rebuild: sync.recreate_bind_groups,
                world_resources_changed: false,
                surface_resources_changed: true,
                reset_accumulation: sync.reset_accumulation,
            }
        },
        RendererLifecycleEvent::Reconfigure => {
            let surface = surface_resources_policy(SurfaceResourcesEvent::Reconfigure);
            RendererLifecyclePlan {
                reconfigure_surface: surface.reconfigure_surface,
                rebuild_surface_resources: surface.rebuild_resources,
                request_bind_group_rebuild: false,
                world_resources_changed: false,
                surface_resources_changed: false,
                reset_accumulation: true,
            }
        },
    }
}

/// Every event other than a rejected sync resets accumulation, and an event
/// rebuilds bind groups exactly when it changes world or surface resources.
pub proof fn law_plan_resets_unless_rejected(event: RendererLifecycleEvent)
    ensures
        planned(event).reset_accumulation == (event != RendererLifecycleEvent::SyncRejected),
        planned(event).rebuilds_bind_groups() == (event == RendererLifecycleEvent::SyncSucceeded
            || event == RendererLifecycleEvent::Resize),
        planned(event).rebuild_surface_resources ==> planned(event).reconfigure_surface,
{
}

} // verus!
