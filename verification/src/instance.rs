//! What the instance is created with.

use vstd::prelude::*;
use crate::driver;

verus! {

/// The description of the instance to create and of the diagnostic sink that
/// is linked into its creation, so that messages raised while the instance is
/// being created are seen too.
pub struct InstanceRequest {
    pub application_name: String,
    pub application_version: u32,
    pub engine_name: String,
    pub engine_version: u32,
    pub api_version: u32,
    /// Validation layers, requested for the instance and again for the
    /// logical device.
    pub layers: Vec<String>,
    pub extensions: Vec<String>,
    /// Severities that the diagnostic sink listens to, as raw flags.
    pub sink_severities: u32,
    /// Categories that the diagnostic sink listens to, as raw flags.
    pub sink_categories: u32,
}

/// The one validation layer that is requested.
pub open spec fn validation_layer() -> Seq<char> {
    "VK_LAYER_KHRONOS_validation"@
}

/// The diagnostics extension, which is always required.
pub open spec fn diagnostics_extension_name() -> Seq<char> {
    "VK_EXT_debug_utils"@
}

/// Whether a request is the one that the bootstrap makes.
pub open spec fn is_bootstrap_request(request: InstanceRequest) -> bool {
    &&& request.application_name@ == "The Black Window"@
    &&& request.application_version == driver::packed_version(0, 0, 1)
    &&& request.engine_name@ == "Unknown engine"@
    &&& request.engine_version == driver::packed_version(0, 42, 0)
    &&& request.api_version == driver::packed_version(1, 0, 106)
    &&& request.layers@.len() == 1
    &&& request.layers@[0]@ == validation_layer()
    &&& request.extensions@.len() == 1
    &&& request.extensions@[0]@ == diagnostics_extension_name()
    &&& request.sink_severities == driver::ALL_SEVERITIES
    &&& request.sink_categories == driver::ALL_CATEGORIES
}

/// The instance request of the bootstrap: its identifying names and
/// versions, the validation layer, the diagnostics extension, and a sink
/// that listens to every severity and category.
pub fn instance_request() -> (request: InstanceRequest)
    ensures
        is_bootstrap_request(request),
        request.application_version == 1,
        request.engine_version == 172032,
        request.api_version == 4194410,
{
    let mut layers: Vec<String> = Vec::new();
    layers.push("VK_LAYER_KHRONOS_validation".to_owned());
    let mut extensions: Vec<String> = Vec::new();
    extensions.push(driver::diagnostics_extension());
    proof {
        assert(((0u32 << 22u32) | (0u32 << 12u32) | 1u32) == 1u32) by (bit_vector);
        assert(((0u32 << 22u32) | (42u32 << 12u32) | 0u32) == 172032u32) by (bit_vector);
        assert(((1u32 << 22u32) | (0u32 << 12u32) | 106u32) == 4194410u32) by (bit_vector);
    }
    InstanceRequest {
        application_name: "The Black Window".to_owned(),
        application_version: driver::pack_version(0, 0, 1),
        engine_name: "Unknown engine".to_owned(),
        engine_version: driver::pack_version(0, 42, 0),
        api_version: driver::pack_version(1, 0, 106),
        layers,
        extensions,
        sink_severities: driver::all_severities(),
        sink_categories: driver::all_categories(),
    }
}

} // verus!
