//! Which Vulkan debug facilities an instance enables.

use vstd::prelude::*;

verus! {

/// Name of the Khronos validation layer.
pub const VALIDATION_LAYER_NAME: &'static str = "VK_LAYER_KHRONOS_validation";

/// Name of the debug-utils instance extension.
pub const DEBUG_UTILS_EXTENSION_NAME: &'static str = "VK_EXT_debug_utils";

/// Debug facilities enabled on the instance.
#[derive(Debug, Clone, Copy, PartialEq, Eq)]
pub struct InstanceDebugConfig {
    pub validation_layer_enabled: bool,
    pub debug_utils_enabled: bool,
}

/// Whether `wanted` occurs among `names`.
fn contains_name(names: &[String], wanted: &str) -> (b: bool)
    ensures
        b == exists|i: int| 0 <= i < names@.len() && #[trigger] names@[i]@ == wanted@,
{
    let target = wanted.to_owned();
    let mut i: usize = 0;
    while i < names.len()
        invariant
            i <= names@.len(),
            target@ == wanted@,
            forall|j: int| 0 <= j < i ==> #[trigger] names@[j]@ != wanted@,
        decreases names@.len() - i,
    {
        if names[i] == target {
            return true;
        }
        i += 1;
    }
    false
}

/// Outside debug builds nothing is enabled. In debug builds the
/// validation layer is enabled when available, and debug utils when the
/// layer is enabled and the extension is available.
pub fn resolve_debug_instance_config(
    debug_build: bool,
    available_layers: &[String],
    available_extensions: &[String],
) -> (c: InstanceDebugConfig)
    ensures
        c.validation_layer_enabled == (debug_build && exists|i: int|
            0 <= i < available_layers@.len() && #[trigger] available_layers@[i]@ == VALIDATION_LAYER_NAME@),
        c.debug_utils_enabled == (c.validation_layer_enabled && exists|i: int|
            0 <= i < available_extensions@.len() && #[trigger] available_extensions@[i]@
                == DEBUG_UTILS_EXTENSION_NAME@),
{
    if !debug_build {
        return InstanceDebugConfig { validation_layer_enabled: false, debug_utils_enabled: false };
    }
    let validation_layer_enabled = contains_name(available_layers, VALIDATION_LAYER_NAME);
    let debug_utils_enabled = validation_layer_enabled && contains_name(available_extensions, DEBUG_UTILS_EXTENSION_NAME);
    InstanceDebugConfig { validation_layer_enabled, debug_utils_enabled }
}

} // verus!
