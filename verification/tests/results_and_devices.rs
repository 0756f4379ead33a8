use vulkan_frame::codes::{
    COLOR_COMPONENTS_ALL, DEBUG_SEVERITY_MASK, DEBUG_TYPE_MASK, DEVICE_TYPE_DISCRETE_GPU,
    QUEUE_GRAPHICS_BIT, RESULT_ERROR_OUT_OF_DATE, RESULT_SUBOPTIMAL, RESULT_SUCCESS,
};
use vulkan_frame::queue_family::{pick_physical_device, PhysicalDeviceReport, QueueFamily, QueueFamilyIndices};
use vulkan_frame::swapchain::{classify_acquire, classify_present, AcquireOutcome, PresentOutcome};

fn family(queue_flags: u32, present_support: bool) -> QueueFamily {
    QueueFamily { queue_flags, present_support }
}

fn device(families: Vec<QueueFamily>, extensions: Vec<&str>) -> PhysicalDeviceReport {
    PhysicalDeviceReport {
        families,
        extensions: extensions.into_iter().map(String::from).collect(),
    }
}

#[test]
fn result_codes_agree_with_the_bindings() {
    assert_eq!(RESULT_SUCCESS, ash::vk::Result::SUCCESS.as_raw());
    assert_eq!(RESULT_SUBOPTIMAL, ash::vk::Result::SUBOPTIMAL_KHR.as_raw());
    assert_eq!(RESULT_ERROR_OUT_OF_DATE, ash::vk::Result::ERROR_OUT_OF_DATE_KHR.as_raw());
    assert_eq!(DEVICE_TYPE_DISCRETE_GPU, ash::vk::PhysicalDeviceType::DISCRETE_GPU.as_raw());
    assert_eq!(QUEUE_GRAPHICS_BIT, ash::vk::QueueFlags::GRAPHICS.as_raw());
    assert_eq!(
        COLOR_COMPONENTS_ALL,
        (ash::vk::ColorComponentFlags::R
            | ash::vk::ColorComponentFlags::G
            | ash::vk::ColorComponentFlags::B
            | ash::vk::ColorComponentFlags::A)
            .as_raw()
    );
    assert_eq!(
        DEBUG_SEVERITY_MASK,
        (ash::vk::DebugUtilsMessageSeverityFlagsEXT::VERBOSE
            | ash::vk::DebugUtilsMessageSeverityFlagsEXT::WARNING
            | ash::vk::DebugUtilsMessageSeverityFlagsEXT::ERROR)
            .as_raw()
    );
    assert_eq!(
        DEBUG_TYPE_MASK,
        (ash::vk::DebugUtilsMessageTypeFlagsEXT::GENERAL
            | ash::vk::DebugUtilsMessageTypeFlagsEXT::VALIDATION
            | ash::vk::DebugUtilsMessageTypeFlagsEXT::PERFORMANCE)
            .as_raw()
    );
}

#[test]
fn acquire_success_delivers_the_image() {
    assert_eq!(
        classify_acquire(ash::vk::Result::SUCCESS.as_raw(), 2),
        AcquireOutcome::Image { index: 2, suboptimal: false }
    );
}

#[test]
fn acquire_suboptimal_delivers_the_image_and_says_so() {
    assert_eq!(
        classify_acquire(ash::vk::Result::SUBOPTIMAL_KHR.as_raw(), 1),
        AcquireOutcome::Image { index: 1, suboptimal: true }
    );
}

#[test]
fn acquire_out_of_date_asks_for_a_retry() {
    assert_eq!(
        classify_acquire(ash::vk::Result::ERROR_OUT_OF_DATE_KHR.as_raw(), 0),
        AcquireOutcome::Retry
    );
    assert_eq!(classify_acquire(-1_000_001_004, 7), AcquireOutcome::Retry);
}

#[test]
fn acquire_anything_else_is_fatal_with_its_code() {
    assert_eq!(
        classify_acquire(ash::vk::Result::ERROR_DEVICE_LOST.as_raw(), 0),
        AcquireOutcome::Fatal(-4)
    );
    assert_eq!(
        classify_acquire(ash::vk::Result::ERROR_SURFACE_LOST_KHR.as_raw(), 0),
        AcquireOutcome::Fatal(-1_000_000_000)
    );
    assert_eq!(classify_acquire(ash::vk::Result::TIMEOUT.as_raw(), 0), AcquireOutcome::Fatal(2));
    assert_eq!(classify_acquire(ash::vk::Result::NOT_READY.as_raw(), 0), AcquireOutcome::Fatal(1));
}

#[test]
fn present_success_is_presented() {
    assert_eq!(classify_present(ash::vk::Result::SUCCESS.as_raw()), PresentOutcome::Presented);
}

#[test]
fn present_suboptimal_and_out_of_date_ask_for_a_retry() {
    assert_eq!(classify_present(ash::vk::Result::SUBOPTIMAL_KHR.as_raw()), PresentOutcome::Retry);
    assert_eq!(
        classify_present(ash::vk::Result::ERROR_OUT_OF_DATE_KHR.as_raw()),
        PresentOutcome::Retry
    );
}

#[test]
fn present_anything_else_is_fatal_with_its_code() {
    assert_eq!(
        classify_present(ash::vk::Result::ERROR_OUT_OF_HOST_MEMORY.as_raw()),
        PresentOutcome::Fatal(-1)
    );
    assert_eq!(classify_present(1_000_001_004), PresentOutcome::Fatal(1_000_001_004));
    assert_eq!(classify_present(-1_000_001_003), PresentOutcome::Fatal(-1_000_001_003));
}

#[test]
fn new_indices_are_empty() {
    let indices = QueueFamilyIndices::new();
    assert_eq!(indices.graphics_family, None);
    assert_eq!(indices.present_family, None);
    assert!(!indices.is_complete());
}

#[test]
fn indices_are_complete_with_both_families() {
    let graphics = QueueFamilyIndices { graphics_family: Some(0), present_family: None };
    assert!(!graphics.is_complete());
    let present = QueueFamilyIndices { graphics_family: None, present_family: Some(0) };
    assert!(!present.is_complete());
    let both = QueueFamilyIndices { graphics_family: Some(0), present_family: Some(4) };
    assert!(both.is_complete());
}

#[test]
fn observe_notes_graphics_by_its_bit() {
    let mut indices = QueueFamilyIndices::new();
    indices.observe(3, family(0b0110, false));
    assert_eq!(indices, QueueFamilyIndices::new());
    indices.observe(5, family(0b0111, false));
    assert_eq!(indices.graphics_family, Some(5));
    assert_eq!(indices.present_family, None);
    indices.observe(6, family(ash::vk::QueueFlags::COMPUTE.as_raw(), true));
    assert_eq!(indices.graphics_family, Some(5));
    assert_eq!(indices.present_family, Some(6));
}

#[test]
fn find_stops_once_both_families_are_found() {
    let families = vec![
        family(ash::vk::QueueFlags::GRAPHICS.as_raw(), true),
        family(ash::vk::QueueFlags::GRAPHICS.as_raw(), true),
    ];
    let indices = QueueFamilyIndices::find_queue_families(&families);
    assert_eq!(indices.graphics_family, Some(0));
    assert_eq!(indices.present_family, Some(0));
}

#[test]
fn find_lets_a_later_family_replace_an_earlier_one() {
    let families = vec![
        family(0b1, false),
        family(0b1, false),
        family(0b100, true),
        family(0b1, true),
    ];
    let indices = QueueFamilyIndices::find_queue_families(&families);
    assert_eq!(indices.graphics_family, Some(1));
    assert_eq!(indices.present_family, Some(2));
}

#[test]
fn find_on_a_device_without_families_finds_nothing() {
    let indices = QueueFamilyIndices::find_queue_families(&vec![]);
    assert_eq!(indices, QueueFamilyIndices::new());
    let compute_only = QueueFamilyIndices::find_queue_families(&vec![family(0b10, false)]);
    assert!(!compute_only.is_complete());
}

#[test]
fn required_device_extension_is_the_chain_extension() {
    let names = vulkan_frame::required_names::get_required_device_extensions();
    assert_eq!(names, vec![String::from("VK_KHR_swapchain")]);
    assert_eq!(names[0].as_bytes(), ash::extensions::khr::Swapchain::name().to_bytes());
}

#[test]
fn extension_support_needs_the_chain_extension() {
    let with = vec![String::from("VK_KHR_maintenance1"), String::from("VK_KHR_swapchain")];
    assert!(QueueFamilyIndices::check_device_extension_support(&with));
    let without = vec![String::from("VK_KHR_maintenance1"), String::from("VK_KHR_swapchain2")];
    assert!(!QueueFamilyIndices::check_device_extension_support(&without));
    assert!(!QueueFamilyIndices::check_device_extension_support(&vec![]));
}

#[test]
fn device_is_suitable_with_families_and_extension() {
    let families = vec![family(0b1, true)];
    let offered = vec![String::from("VK_KHR_swapchain")];
    assert!(QueueFamilyIndices::is_device_suitable(&families, &offered));
    assert!(!QueueFamilyIndices::is_device_suitable(&families, &vec![]));
    assert!(!QueueFamilyIndices::is_device_suitable(&vec![family(0b1, false)], &offered));
}

#[test]
fn rating_adds_a_thousand_for_a_discrete_device() {
    let discrete = ash::vk::PhysicalDeviceType::DISCRETE_GPU.as_raw();
    let integrated = ash::vk::PhysicalDeviceType::INTEGRATED_GPU.as_raw();
    assert_eq!(QueueFamilyIndices::rate_device_suitability(discrete, 16384, 1), 17384);
    assert_eq!(QueueFamilyIndices::rate_device_suitability(integrated, 16384, 1), 16384);
    assert_eq!(QueueFamilyIndices::rate_device_suitability(discrete, 0, 1), 1000);
    assert_eq!(
        QueueFamilyIndices::rate_device_suitability(discrete, u32::MAX, 1),
        4_294_968_295
    );
}

#[test]
fn rating_is_zero_without_geometry_shaders() {
    let discrete = ash::vk::PhysicalDeviceType::DISCRETE_GPU.as_raw();
    assert_eq!(QueueFamilyIndices::rate_device_suitability(discrete, 16384, 0), 0);
    assert_eq!(QueueFamilyIndices::rate_device_suitability(0, 1, 0), 0);
}

#[test]
fn first_suitable_device_is_picked() {
    let devices = vec![
        device(vec![family(0b1, false)], vec!["VK_KHR_swapchain"]),
        device(vec![family(0b1, true)], vec![]),
        device(vec![family(0b10, true), family(0b1, false)], vec!["VK_KHR_swapchain"]),
        device(vec![family(0b1, true)], vec!["VK_KHR_swapchain"]),
    ];
    assert_eq!(pick_physical_device(&devices), Some(2));
}

#[test]
fn no_device_is_picked_when_none_is_suitable() {
    assert_eq!(pick_physical_device(&vec![]), None);
    let devices = vec![device(vec![family(0b1, false)], vec!["VK_KHR_swapchain"])];
    assert_eq!(pick_physical_device(&devices), None);
}
