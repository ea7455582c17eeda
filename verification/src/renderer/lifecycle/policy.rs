//! World-sync and surface policies.

use vstd::prelude::*;

verus! {

#[derive(Clone, Copy, Debug, PartialEq, Eq)]
pub enum WorldSyncPolicyEvent {
    Rejected,
    Succeeded,
    Resized,
}

#[derive(Clone, Copy, Debug, PartialEq, Eq)]
pub struct WorldSyncPolicyDecision {
    pub recreate_bind_groups: bool,
    pub reset_accumulation: bool,
}

/// A rejected sync changes nothing; a successful sync or a resize rebuilds
/// bind groups and resets accumulation.
pub fn world_sync_policy(event: WorldSyncPolicyEvent) -> (d: WorldSyncPolicyDecision)
    ensures
        d.recreate_bind_groups == (event != WorldSyncPolicyEvent::Rejected),
        d.reset_accumulation == (event != WorldSyncPolicyEvent::Rejected),
{
    match event {
        WorldSyncPolicyEvent::Rejected => WorldSyncPolicyDecision { recreate_bind_groups: false, reset_accumulation: false },
        WorldSyncPolicyEvent::Succeeded | WorldSyncPolicyEvent::Resized => WorldSyncPolicyDecision {
            recreate_bind_groups: true,
            reset_accumulation: true,
        },
    }
}

#[derive(Clone, Copy, Debug, PartialEq, Eq)]
pub enum SurfaceResourcesEvent {
    Resize,
    Reconfigure,
}

#[derive(Clone, Copy, Debug, PartialEq, Eq)]
pub struct SurfaceResourcesDecision {
    pub reconfigure_surface: bool,
    pub rebuild_resources: bool,
}

/// Both events reconfigure the surface; only a resize rebuilds the
/// size-dependent resources.
pub fn surface_resources_policy(event: SurfaceResourcesEvent) -> (d: SurfaceResourcesDecision)
    ensures
        d.reconfigure_surface,
        d.rebuild_resources == (event == SurfaceResourcesEvent::Resize),
{
    match event {
        SurfaceResourcesEvent::Resize => SurfaceResourcesDecision { reconfigure_surface: true, rebuild_resources: true },
        SurfaceResourcesEvent::Reconfigure => SurfaceResourcesDecision { reconfigure_surface: true, rebuild_resources: false },
    }
}

/// Bind groups are rebuilt only when world or surface resources changed.
pub fn should_rebuild_bind_groups(world_resources_changed: bool, surface_resources_changed: bool) -> (r: bool)
    ensures
        r == (world_resources_changed || surface_resources_changed),
{
    world_resources_changed || surface_resources_changed
}

} // verus!
