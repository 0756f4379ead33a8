//! What is asked for when the instance, its debug messenger and the logical
//! device are created.
use vstd::prelude::*;
use crate::codes::{
    debug_message_types, debug_severities, pack_api_version, DEBUG_SEVERITY_MASK, DEBUG_TYPE_MASK,
};
use crate::names::{
    all_offered, debug_utils_extension_name, first_missing, surface_extension_name, texts,
    win32_surface_extension_name,
};
use crate::queue_family::QueueFamilyIndices;
use crate::required_names::{get_required_device_extensions, required_device_extensions};

verus! {

/// The API version asked for, 1.2.0, in its packed form.
pub const API_VERSION_1_2: u32 = 0x0040_2000;

/// Which messages the debug messenger passes on.
#[derive(Clone, Copy, Debug, PartialEq, Eq, Structural)]
pub struct DebugMessengerConfig {
    /// Mask of the severities: verbose, warning and error.
    pub message_severity: u32,
    /// Mask of the message types: general, validation and performance.
    pub message_type: u32,
}

/// What the instance is created with.
pub struct InstanceConfig {
    pub application_name: String,
    pub application_version: u32,
    pub engine_name: String,
    pub engine_version: u32,
    pub api_version: u32,
    pub extensions: Vec<String>,
    /// The layers to enable: the required ones with validation, else none.
    pub layers: Vec<String>,
    /// The messenger that watches instance creation itself, with validation.
    pub debug_messenger: Option<DebugMessengerConfig>,
}

/// What the logical device is created with.
pub struct DeviceConfig {
    /// The family of the one queue that is created.
    pub queue_family: u32,
    /// The family whose first queue presents.
    pub present_family: u32,
    pub extensions: Vec<String>,
    pub layers: Vec<String>,
}

/// The texts of the layers that validation needs.
pub open spec fn required_layers() -> Seq<Seq<char>> {
    seq!["VK_LAYER_KHRONOS_validation"@]
}

/// The texts of the instance extensions that a window surface needs.
pub open spec fn required_extensions() -> Seq<Seq<char>> {
    seq!["VK_KHR_surface"@, "VK_KHR_win32_surface"@]
}

/// The texts of the instance extensions asked for: those for the surface,
/// and with validation the debug extension after them.
pub open spec fn instance_extensions(validation: bool) -> Seq<Seq<char>> {
    if validation {
        required_extensions().push("VK_EXT_debug_utils"@)
    } else {
        required_extensions()
    }
}

/// The messenger configuration: severities verbose, warning and error, and
/// all three message types.
pub open spec fn debug_messenger_config() -> DebugMessengerConfig {
    DebugMessengerConfig { message_severity: DEBUG_SEVERITY_MASK, message_type: DEBUG_TYPE_MASK }
}

/// Lists the layers that validation needs.
pub fn get_required_layers() -> (names: Vec<String>)
    ensures
        texts(names@) == required_layers(),
{
    let mut names: Vec<String> = Vec::new();
    names.push("VK_LAYER_KHRONOS_validation".to_owned());
    assert(texts(names@) =~= required_layers());
    names
}

/// Lists the instance extensions that a window surface needs.
pub fn require_extension_names() -> (names: Vec<String>)
    ensures
        texts(names@) == required_extensions(),
{
    let mut names: Vec<String> = Vec::new();
    names.push(surface_extension_name());
    names.push(win32_surface_extension_name());
    assert(texts(names@) =~= required_extensions());
    names
}

/// Checks that every layer that validation needs is among the layers on
/// offer. Where one is not, the answer is the name of the first such layer.
pub fn check_validation_layer_support(offered: &Vec<String>) -> (checked: Result<(), String>)
    ensures
        checked is Ok <==> all_offered(required_layers(), texts(offered@)),
        checked is Err ==> exists|i: int|
            0 <= i < required_layers().len() && checked->Err_0@ == #[trigger] required_layers()[i]
                && !texts(offered@).contains(required_layers()[i]) && forall|k: int|
                0 <= k < i ==> texts(offered@).contains(#[trigger] required_layers()[k]),
{
    let required = get_required_layers();
    match first_missing(&required, offered) {
        Some(at) => {
            let name = required[at].clone();
            assert(texts(required@)[at as int] == required@[at as int]@);
            Err(name)
        },
        None => Ok(()),
    }
}

/// Describes the debug messenger.
pub fn populate_debug_messenger_create_info() -> (config: DebugMessengerConfig)
    ensures
        config == debug_messenger_config(),
{
    DebugMessengerConfig {
        message_severity: debug_severities(),
        message_type: debug_message_types(),
    }
}

/// The API version asked for, 1.2.0 with variant 0.
pub fn application_api_version() -> (version: u32)
    ensures
        version == API_VERSION_1_2,
{
    let version = pack_api_version(0, 1, 2, 0);
    assert(((0u32 << 29) | (1u32 << 22) | (2u32 << 12) | 0u32) == 0x0040_2000u32) by (bit_vector);
    version
}

/// Describes the instance. With validation the required layers must be on
/// offer: where one is not, the answer is its name. Without validation the
/// layers on offer play no part.
pub fn plan_instance(validation: bool, offered_layers: &Vec<String>) -> (planned: Result<
    InstanceConfig,
    String,
>)
    ensures
        planned is Ok <==> !validation || all_offered(required_layers(), texts(offered_layers@)),
        planned is Ok ==> {
            let config = planned->Ok_0;
            &&& config.application_name@ == "vulkan app"@
            &&& config.application_version == 0
            &&& config.engine_name@ == "No Engine"@
            &&& config.engine_version == 0
            &&& config.api_version == API_VERSION_1_2
            &&& texts(config.extensions@) == instance_extensions(validation)
            &&& texts(config.layers@) == if validation {
                required_layers()
            } else {
                Seq::<Seq<char>>::empty()
            }
            &&& config.debug_messenger == if validation {
                Some(debug_messenger_config())
            } else {
                None
            }
        },
        planned is Err ==> exists|i: int|
            0 <= i < required_layers().len() && planned->Err_0@ == #[trigger] required_layers()[i]
                && !texts(offered_layers@).contains(required_layers()[i]),
{
    let mut extensions = require_extension_names();
    let mut layers: Vec<String> = Vec::new();
    let mut debug_messenger: Option<DebugMessengerConfig> = None;
    if validation {
        extensions.push(debug_utils_extension_name());
        match check_validation_layer_support(offered_layers) {
            Ok(()) => {},
            Err(name) => {
                return Err(name);
            },
        }
        layers = get_required_layers();
        debug_messenger = Some(populate_debug_messenger_create_info());
    }
    assert(texts(extensions@) =~= instance_extensions(validation));
    assert(!validation ==> texts(layers@) =~= Seq::<Seq<char>>::empty());
    Ok(
        InstanceConfig {
            application_name: "vulkan app".to_owned(),
            application_version: 0,
            engine_name: "No Engine".to_owned(),
            engine_version: 0,
            api_version: application_api_version(),
            extensions,
            layers,
            debug_messenger,
        },
    )
}

/// Describes the logical device: one queue of the graphics family, the
/// required device extensions, and with validation the required layers.
///
/// There is no device without a graphics family and a present family.
pub fn plan_logical_device(indices: &QueueFamilyIndices, validation: bool) -> (planned: Option<
    DeviceConfig,
>)
    ensures
        planned is Some <==> indices.complete(),
        planned is Some ==> {
            let config = planned->0;
            &&& config.queue_family == indices.graphics_family->0
            &&& config.present_family == indices.present_family->0
            &&& texts(config.extensions@) == required_device_extensions()
            &&& texts(config.layers@) == if validation {
                required_layers()
            } else {
                Seq::<Seq<char>>::empty()
            }
        },
{
    match (indices.graphics_family, indices.present_family) {
        (Some(queue_family), Some(present_family)) => {
            let layers = if validation {
                get_required_layers()
            } else {
                Vec::new()
            };
            assert(!validation ==> texts(layers@) =~= Seq::<Seq<char>>::empty());
            Some(
                DeviceConfig {
                    queue_family,
                    present_family,
                    extensions: get_required_device_extensions(),
                    layers,
                },
            )
        },
        _ => None,
    }
}

} // verus!
