use ash::vk;
use lpps::{
    default_device_extensions, first_suitable_family, queue_indices, select_physical_device,
    DeviceType, PhysicalDeviceInfo, QueueFamilyInfo,
};

const BOTH: QueueFamilyInfo = QueueFamilyInfo { graphics: true, present: true };
const DRAW_ONLY: QueueFamilyInfo = QueueFamilyInfo { graphics: true, present: false };
const PRESENT_ONLY: QueueFamilyInfo = QueueFamilyInfo { graphics: false, present: true };

fn device(device_type: DeviceType, queue_families: Vec<QueueFamilyInfo>) -> PhysicalDeviceInfo {
    PhysicalDeviceInfo { device_type, queue_families }
}

#[test]
fn device_types_match_vulkan() {
    for (t, raw) in [
        (DeviceType::Other, vk::PhysicalDeviceType::OTHER),
        (DeviceType::IntegratedGpu, vk::PhysicalDeviceType::INTEGRATED_GPU),
        (DeviceType::DiscreteGpu, vk::PhysicalDeviceType::DISCRETE_GPU),
        (DeviceType::VirtualGpu, vk::PhysicalDeviceType::VIRTUAL_GPU),
        (DeviceType::Cpu, vk::PhysicalDeviceType::CPU),
    ] {
        assert_eq!(DeviceType::from_raw(raw.as_raw()), t);
    }
    assert_eq!(DeviceType::from_raw(17), DeviceType::Unknown(17));
}

#[test]
fn device_ranks_follow_preference() {
    let order = [
        DeviceType::DiscreteGpu,
        DeviceType::IntegratedGpu,
        DeviceType::VirtualGpu,
        DeviceType::Cpu,
        DeviceType::Other,
        DeviceType::Unknown(9),
    ];
    let ranks: Vec<u32> = order.iter().map(|t| t.rank()).collect();
    assert_eq!(ranks, vec![0, 1, 2, 3, 4, 5]);
}

#[test]
fn discrete_device_is_preferred() {
    let devices = vec![
        device(DeviceType::IntegratedGpu, vec![BOTH]),
        device(DeviceType::Cpu, vec![BOTH]),
        device(DeviceType::DiscreteGpu, vec![DRAW_ONLY, PRESENT_ONLY, BOTH]),
    ];
    assert_eq!(select_physical_device(&devices), Some((2, 2)));
}

#[test]
fn device_that_cannot_present_is_skipped() {
    let devices = vec![
        device(DeviceType::DiscreteGpu, vec![DRAW_ONLY, PRESENT_ONLY]),
        device(DeviceType::VirtualGpu, vec![PRESENT_ONLY, BOTH, BOTH]),
        device(DeviceType::Other, vec![BOTH]),
    ];
    assert_eq!(select_physical_device(&devices), Some((1, 1)));
}

#[test]
fn tie_goes_to_the_first_device() {
    let devices = vec![
        device(DeviceType::Cpu, vec![BOTH]),
        device(DeviceType::IntegratedGpu, vec![DRAW_ONLY, BOTH]),
        device(DeviceType::IntegratedGpu, vec![BOTH]),
    ];
    assert_eq!(select_physical_device(&devices), Some((1, 1)));
}

#[test]
fn no_suitable_device() {
    assert_eq!(select_physical_device(&vec![]), None);
    let devices = vec![
        device(DeviceType::DiscreteGpu, vec![DRAW_ONLY]),
        device(DeviceType::IntegratedGpu, vec![]),
    ];
    assert_eq!(select_physical_device(&devices), None);
}

#[test]
fn first_family_that_draws_and_presents() {
    assert_eq!(first_suitable_family(&vec![PRESENT_ONLY, DRAW_ONLY, BOTH, BOTH]), Some(2));
    assert_eq!(first_suitable_family(&vec![PRESENT_ONLY, DRAW_ONLY]), None);
}

#[test]
fn one_queue_per_priority_in_request_order() {
    assert_eq!(queue_indices(&vec![(0, 2), (3, 1)]), vec![(0, 0), (0, 1), (3, 0)]);
    assert_eq!(queue_indices(&vec![(1, 0), (2, 3)]), vec![(2, 0), (2, 1), (2, 2)]);
    assert_eq!(queue_indices(&vec![]), vec![]);
}

#[test]
fn devices_get_swapchain_and_dynamic_rendering() {
    let names = default_device_extensions();
    assert_eq!(names, vec!["VK_KHR_swapchain".to_owned(), "VK_KHR_dynamic_rendering".to_owned()]);
    assert_eq!(names[0], vk::KHR_SWAPCHAIN_NAME.to_str().unwrap());
    assert_eq!(names[1], vk::KHR_DYNAMIC_RENDERING_NAME.to_str().unwrap());
}
