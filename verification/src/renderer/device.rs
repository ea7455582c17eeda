//! Physical device selection: which GPUs qualify, which one is used, and
//! how its logical device is set up.

use vstd::prelude::*;

verus! {

/// Vulkan 1.2 features the bindless renderer requires, in check order.
pub const REQUIRED_VULKAN12_FEATURE_NAMES: [&'static str; 7] = [
    "descriptor_indexing",
    "shader_sampled_image_array_non_uniform_indexing",
    "runtime_descriptor_array",
    "descriptor_binding_partially_bound",
    "descriptor_binding_sampled_image_update_after_bind",
    "descriptor_binding_storage_buffer_update_after_bind",
    "draw_indirect_count",
];

/// Names of the features among the first `n` required ones that are not
/// supported, in check order.
pub open spec fn missing_names(supported: [bool; 7], n: int) -> Seq<Seq<char>>
    decreases n,
{
    if n <= 0 {
        seq![]
    } else {
        missing_names(supported, n - 1) + if !supported[n - 1] {
            seq![REQUIRED_VULKAN12_FEATURE_NAMES[n - 1]@]
        } else {
            seq![]
        }
    }
}

/// The required Vulkan 1.2 features a device lacks, given for each
/// required feature (in `REQUIRED_VULKAN12_FEATURE_NAMES` order) whether it
/// is supported.
pub fn missing_vulkan12_features(supported: [bool; 7]) -> (missing: Vec<&'static str>)
    ensures
        missing@.map_values(|s: &'static str| s@) == missing_names(supported, 7),
{
    let names = REQUIRED_VULKAN12_FEATURE_NAMES;
    let mut missing: Vec<&'static str> = Vec::new();
    let mut i: usize = 0;
    while i < 7
        invariant
            i <= 7,
            names == REQUIRED_VULKAN12_FEATURE_NAMES,
            missing@.map_values(|s: &'static str| s@) == missing_names(supported, i as int),
        decreases 7 - i,
    {
        if !supported[i] {
            let ghost before = missing@;
            missing.push(names[i]);
            assert(missing@.map_values(|s: &'static str| s@) =~= before.map_values(|s: &'static str| s@).push(names[i as int]@));
        }
        assert(missing@.map_values(|s: &'static str| s@) =~= missing_names(supported, i + 1));
        i += 1;
    }
    missing
}

/// What the selection needs to know of one enumerated device.
#[derive(Debug, Clone)]
pub struct DeviceCandidate {
    /// Graphics and present queue families, when the device has both.
    pub queue_families: Option<(u32, u32)>,
    /// The required device extensions are available.
    pub supports_extensions: bool,
    /// The surface offers formats and present modes.
    pub supports_swapchain: bool,
    /// Anisotropic sampling, multi-draw indirect and first-instance
    /// indirect draws are supported.
    pub supports_required_features: bool,
    /// Required Vulkan 1.2 features the device lacks.
    pub missing_vulkan12: Vec<&'static str>,
    /// The device is a discrete GPU.
    pub is_discrete: bool,
}

/// The chosen device and its queue families.
#[derive(Debug, Clone, Copy, PartialEq, Eq)]
pub struct DeviceSelection {
    pub index: usize,
    pub graphics_family: u32,
    pub present_family: u32,
}

/// Why no device was chosen.
#[derive(Debug, Clone, Copy, PartialEq, Eq)]
pub enum DeviceSelectionError {
    /// The last device that failed only for want of Vulkan 1.2 features.
    MissingVulkan12 { index: usize },
    /// Some device failed for want of the required Vulkan 1.0 features.
    MissingRequiredFeatures,
    /// No device offers graphics, present and swapchain support.
    NoSuitableDevice,
}

/// The device has queues, extensions and swapchain support.
pub open spec fn reaches_feature_checks(c: DeviceCandidate) -> bool {
    c.queue_families is Some && c.supports_extensions && c.supports_swapchain
}

/// The device passes every check.
pub open spec fn eligible(c: DeviceCandidate) -> bool {
    reaches_feature_checks(c) && c.supports_required_features && c.missing_vulkan12@.len() == 0
}

/// The device fails only the Vulkan 1.2 feature check.
pub open spec fn lacks_vulkan12(c: DeviceCandidate) -> bool {
    reaches_feature_checks(c) && c.supports_required_features && c.missing_vulkan12@.len() > 0
}

/// The device fails the Vulkan 1.0 feature check.
pub open spec fn lacks_vulkan10(c: DeviceCandidate) -> bool {
    reaches_feature_checks(c) && !c.supports_required_features
}

/// Index of the last candidate among the first `n` lacking only Vulkan 1.2
/// features, or -1.
pub open spec fn last_lacking_vulkan12(cs: Seq<DeviceCandidate>, n: int) -> int
    decreases n,
{
    if n <= 0 {
        -1
    } else if lacks_vulkan12(cs[n - 1]) {
        n - 1
    } else {
        last_lacking_vulkan12(cs, n - 1)
    }
}

/// Picks the first eligible discrete GPU, else the first eligible device.
/// Without an eligible device the error names the last device that lacked
/// only Vulkan 1.2 features, else reports missing Vulkan 1.0 features when
/// some device lacked them, else that no device is suitable.
pub fn select_physical_device(candidates: &Vec<DeviceCandidate>) -> (r: Result<DeviceSelection, DeviceSelectionError>)
    ensures
        match r {
            Ok(sel) => {
                &&& sel.index < candidates@.len()
                &&& eligible(candidates@[sel.index as int])
                &&& candidates@[sel.index as int].queue_families == Some((sel.graphics_family, sel.present_family))
                &&& forall|j: int| 0 <= j < sel.index ==> eligible(#[trigger] candidates@[j]) ==> !candidates@[j].is_discrete
                    && candidates@[sel.index as int].is_discrete
                &&& !candidates@[sel.index as int].is_discrete ==> forall|j: int| 0 <= j < candidates@.len() ==> eligible(
                    #[trigger] candidates@[j],
                ) ==> !candidates@[j].is_discrete
            },
            Err(e) => {
                &&& forall|j: int| 0 <= j < candidates@.len() ==> !eligible(#[trigger] candidates@[j])
                &&& last_lacking_vulkan12(candidates@, candidates@.len() as int) >= 0 ==> e == DeviceSelectionError::MissingVulkan12 {
                    index: last_lacking_vulkan12(candidates@, candidates@.len() as int) as usize,
                }
                &&& last_lacking_vulkan12(candidates@, candidates@.len() as int) < 0 && (exists|j: int|
                    0 <= j < candidates@.len() && lacks_vulkan10(#[trigger] candidates@[j]))
                    ==> e == DeviceSelectionError::MissingRequiredFeatures
                &&& last_lacking_vulkan12(candidates@, candidates@.len() as int) < 0 && !(exists|j: int|
                    0 <= j < candidates@.len() && lacks_vulkan10(#[trigger] candidates@[j]))
                    ==> e == DeviceSelectionError::NoSuitableDevice
            },
        },
{
    let mut selected: Option<DeviceSelection> = None;
    let mut selected_discrete = false;
    let mut last_missing_1_0 = false;
    let mut last_missing_1_2: Option<usize> = None;
    let mut i: usize = 0;
    while i < candidates.len()
        invariant
            i <= candidates@.len(),
            last_missing_1_0 == exists|j: int| 0 <= j < i && lacks_vulkan10(#[trigger] candidates@[j]),
            last_missing_1_2 == (if last_lacking_vulkan12(candidates@, i as int) >= 0 {
                Some(last_lacking_vulkan12(candidates@, i as int) as usize)
            } else {
                None::<usize>
            }),
            selected is None <==> forall|j: int| 0 <= j < i ==> !eligible(#[trigger] candidates@[j]),
            selected matches Some(sel) ==> {
                &&& sel.index < i
                &&& eligible(candidates@[sel.index as int])
                &&& candidates@[sel.index as int].queue_families == Some((sel.graphics_family, sel.present_family))
                &&& selected_discrete == candidates@[sel.index as int].is_discrete
                &&& forall|j: int| 0 <= j < sel.index ==> eligible(#[trigger] candidates@[j]) ==> !candidates@[j].is_discrete
                    && candidates@[sel.index as int].is_discrete
                &&& !selected_discrete ==> forall|j: int| 0 <= j < i ==> eligible(#[trigger] candidates@[j])
                    ==> !candidates@[j].is_discrete
            },
        decreases candidates@.len() - i,
    {
        let c = &candidates[i];
        let families = match c.queue_families {
            Some(f) => f,
            None => {
                i += 1;
                continue;
            },
        };
        if !c.supports_extensions || !c.supports_swapchain {
            i += 1;
            continue;
        }
        if !c.supports_required_features {
            last_missing_1_0 = true;
            i += 1;
            continue;
        }
        if c.missing_vulkan12.len() > 0 {
            last_missing_1_2 = Some(i);
            i += 1;
            continue;
        }
        let is_discrete = c.is_discrete;
        match selected {
            None => {
                selected = Some(DeviceSelection { index: i, graphics_family: families.0, present_family: families.1 });
                selected_discrete = is_discrete;
            },
            Some(_) => {
                if !selected_discrete && is_discrete {
                    selected = Some(DeviceSelection { index: i, graphics_family: families.0, present_family: families.1 });
                    selected_discrete = true;
                }
            },
        }
        i += 1;
    }
    match selected {
        Some(sel) => Ok(sel),
        None => {
            match last_missing_1_2 {
                Some(index) => Err(DeviceSelectionError::MissingVulkan12 { index }),
                None => {
                    if last_missing_1_0 {
                        Err(DeviceSelectionError::MissingRequiredFeatures)
                    } else {
                        Err(DeviceSelectionError::NoSuitableDevice)
                    }
                },
            }
        },
    }
}

/// What a queue family offers: graphics queues, and presentation to the
/// window surface.
#[derive(Debug, Clone, Copy, PartialEq, Eq)]
pub struct QueueFamilySupport {
    pub graphics: bool,
    pub present: bool,
}

/// The first graphics family and the first presenting family, when the
/// device has both.
pub fn find_queue_families(families: &[QueueFamilySupport]) -> (r: Option<(u32, u32)>)
    requires
        families@.len() <= u32::MAX,
    ensures
        match r {
            Some((g, p)) => {
                &&& g < families@.len() && families@[g as int].graphics
                &&& forall|j: int| 0 <= j < g ==> !(#[trigger] families@[j]).graphics
                &&& p < families@.len() && families@[p as int].present
                &&& forall|j: int| 0 <= j < p ==> !(#[trigger] families@[j]).present
            },
            None => (forall|j: int| 0 <= j < families@.len() ==> !(#[trigger] families@[j]).graphics) || (forall|j: int|
                0 <= j < families@.len() ==> !(#[trigger] families@[j]).present),
        },
{
    let mut graphics: Option<u32> = None;
    let mut present: Option<u32> = None;
    let mut i: usize = 0;
    while i < families.len()
        invariant
            i <= families@.len() <= u32::MAX,
            match graphics {
                Some(g) => g < i && families@[g as int].graphics && forall|j: int|
                    0 <= j < g ==> !(#[trigger] families@[j]).graphics,
                None => forall|j: int| 0 <= j < i ==> !(#[trigger] families@[j]).graphics,
            },
            match present {
                Some(p) => p < i && families@[p as int].present && forall|j: int|
                    0 <= j < p ==> !(#[trigger] families@[j]).present,
                None => forall|j: int| 0 <= j < i ==> !(#[trigger] families@[j]).present,
            },
            !(graphics is Some && present is Some),
        decreases families@.len() - i,
    {
        let f = families[i];
        if f.graphics && graphics.is_none() {
            graphics = Some(i as u32);
        }
        if f.present && present.is_none() {
            present = Some(i as u32);
        }
        if let (Some(g), Some(p)) = (graphics, present) {
            return Some((g, p));
        }
        i += 1;
    }
    None
}

/// Name of the swapchain device extension.
pub const SWAPCHAIN_EXTENSION_NAME: &'static str = "VK_KHR_swapchain";

/// Name of the mesh shader device extension.
pub const MESH_SHADER_EXTENSION_NAME: &'static str = "VK_EXT_mesh_shader";

/// How the logical device of the chosen GPU is created.
#[derive(Debug, Clone)]
pub struct DeviceSetupPlan {
    /// Queue families to create one queue each in, ascending, each once.
    pub queue_families: Vec<u32>,
    /// The task/mesh shader path is used.
    pub mesh_shader_supported: bool,
    /// Device extensions to enable, in order.
    pub extensions: Vec<&'static str>,
}

/// Plans the logical device: one queue per distinct family among the
/// graphics and present families; mesh shaders when the extension is
/// available with both task and mesh shader features; the swapchain
/// extension, followed by the mesh shader extension when mesh shaders are
/// used.
pub fn device_setup_plan(
    graphics_family: u32,
    present_family: u32,
    mesh_shader_extension_available: bool,
    task_shader_feature: bool,
    mesh_shader_feature: bool,
) -> (plan: DeviceSetupPlan)
    ensures
        plan.queue_families@ == if graphics_family == present_family {
            seq![graphics_family]
        } else if graphics_family < present_family {
            seq![graphics_family, present_family]
        } else {
            seq![present_family, graphics_family]
        },
        plan.mesh_shader_supported == (mesh_shader_extension_available && task_shader_feature && mesh_shader_feature),
        plan.extensions@.map_values(|e: &'static str| e@) == if plan.mesh_shader_supported {
            seq![SWAPCHAIN_EXTENSION_NAME@, MESH_SHADER_EXTENSION_NAME@]
        } else {
            seq![SWAPCHAIN_EXTENSION_NAME@]
        },
{
    let mut queue_families: Vec<u32> = Vec::new();
    if graphics_family == present_family {
        queue_families.push(graphics_family);
    } else if graphics_family < present_family {
        queue_families.push(graphics_family);
        queue_families.push(present_family);
    } else {
        queue_families.push(present_family);
        queue_families.push(graphics_family);
    }
    let mesh_shader_supported = mesh_shader_extension_available && task_shader_feature && mesh_shader_feature;
    let mut extensions: Vec<&'static str> = Vec::new();
    extensions.push(SWAPCHAIN_EXTENSION_NAME);
    if mesh_shader_supported {
        extensions.push(MESH_SHADER_EXTENSION_NAME);
    }
    proof {
        assert(queue_families@ =~= if graphics_family == present_family {
            seq![graphics_family]
        } else if graphics_family < present_family {
            seq![graphics_family, present_family]
        } else {
            seq![present_family, graphics_family]
        });
        assert(extensions@.map_values(|e: &'static str| e@) =~= if mesh_shader_supported {
            seq![SWAPCHAIN_EXTENSION_NAME@, MESH_SHADER_EXTENSION_NAME@]
        } else {
            seq![SWAPCHAIN_EXTENSION_NAME@]
        });
    }
    DeviceSetupPlan { queue_families, mesh_shader_supported, extensions }
}

} // verus!
