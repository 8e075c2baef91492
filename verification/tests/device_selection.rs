use ash::vk;
use caldeira::consts;
use caldeira::utils::{
    find_memory_type, find_queue_families, find_queue_families2, QueueFamilyIndices,
};
use caldeira::vulkan::device::{Device, PhysicalDeviceTraits, QueueSlot};
use caldeira::vulkan::flags;
use caldeira::vulkan::instance::{
    check_instance_extensions, installed_version, required_version, supports_version,
};
use caldeira::vulkan::structs::Extent3D;
use caldeira::vulkan::{QueueFamily, QueueFamilyProperties};

fn properties(queue_flags: u32) -> QueueFamilyProperties {
    QueueFamilyProperties {
        queue_flags,
        queue_count: 1,
        timestamp_valid_bits: 0,
        min_image_transfer_granularity: Extent3D { width: 1, height: 1, depth: 1 },
    }
}

fn traits(device_type: i32, size: u32, geometry: u32, storage: u32) -> PhysicalDeviceTraits {
    PhysicalDeviceTraits {
        device_type,
        max_image_dimension_2d: size,
        geometry_shader: geometry,
        shader_storage_image_write_without_format: storage,
    }
}

fn complete() -> QueueFamilyIndices {
    QueueFamilyIndices { graphics_family: None, compute_family: Some(0), present_family: None }
}

fn names(list: &[&str]) -> Vec<String> {
    list.iter().map(|name| name.to_string()).collect()
}

#[test]
fn indices_are_complete_with_a_compute_family() {
    assert!(!QueueFamilyIndices::default().is_complete());
    assert!(complete().is_complete());
    assert!(!QueueFamilyIndices {
        graphics_family: Some(0),
        compute_family: None,
        present_family: Some(1),
    }
    .is_complete());
}

#[test]
fn the_first_compute_family_is_picked() {
    let families = [
        properties(flags::QUEUE_GRAPHICS),
        properties(flags::QUEUE_TRANSFER),
        properties(flags::QUEUE_COMPUTE | flags::QUEUE_TRANSFER),
        properties(flags::QUEUE_COMPUTE),
    ];
    let indices = find_queue_families(&families);
    assert_eq!(indices.compute_family, Some(2));
    assert_eq!(indices.graphics_family, None);
    assert_eq!(indices.present_family, None);
    assert_eq!(find_queue_families(&families[..2]), QueueFamilyIndices::default());
    assert_eq!(find_queue_families(&[]), QueueFamilyIndices::default());
    assert_eq!(find_queue_families(&families[3..]).compute_family, Some(0));
}

#[test]
fn the_finder_sees_each_family_and_what_was_chosen_so_far() {
    let families: Vec<QueueFamily> = [1u32, 2, 4, 2, 3]
        .iter()
        .enumerate()
        .map(|(index, queue_flags)| QueueFamily::new(properties(*queue_flags), index + 10, 7))
        .collect();
    let mut seen = Vec::new();
    let chosen = find_queue_families2(
        |family: QueueFamily, so_far: &[(usize, &'static str)]| {
            seen.push((family.index(), so_far.len()));
            if family.support_compute() {
                Some("compute")
            } else {
                None
            }
        },
        &families,
    );
    assert_eq!(chosen, vec![(11, "compute"), (13, "compute"), (14, "compute")]);
    assert_eq!(seen, vec![(10, 0), (11, 0), (12, 1), (13, 1), (14, 2)]);
    let none: Vec<(usize, u8)> = find_queue_families2(|_, _| None, &families);
    assert!(none.is_empty());
}

#[test]
fn the_first_memory_type_that_passes_filter_and_properties_is_found() {
    let host = flags::MEMORY_PROPERTY_HOST_VISIBLE | flags::MEMORY_PROPERTY_HOST_COHERENT;
    let types =
        [flags::MEMORY_PROPERTY_DEVICE_LOCAL, host, host | 0x8, flags::MEMORY_PROPERTY_HOST_VISIBLE];
    assert_eq!(find_memory_type(0b1111, host, &types), Some(1));
    assert_eq!(find_memory_type(0b1100, host, &types), Some(2));
    assert_eq!(find_memory_type(0b1000, host, &types), None);
    assert_eq!(find_memory_type(0b1000, flags::MEMORY_PROPERTY_HOST_VISIBLE, &types), Some(3));
    assert_eq!(find_memory_type(0, 0, &types), None);
    assert_eq!(find_memory_type(0b0001, 0, &types), Some(0));
    assert_eq!(find_memory_type(u32::MAX, host, &[]), None);
    let many = [host; 32];
    assert_eq!(find_memory_type(0x8000_0000, host, &many), Some(31));
}

#[test]
fn a_device_numbers_its_queue_families() {
    let device = Device::new(70, &[properties(1), properties(2), properties(4)]);
    assert_eq!(device.physical_device(), 70);
    assert_eq!(device.queue_family_count(), 3);
    for index in 0..3 {
        let family = device.get_queue_families(index);
        assert_eq!(family.index(), index);
        assert_eq!(family.physical_device, 70);
        assert_eq!(family.property.queue_flags, 1 << index);
    }
    assert!(device.get_queue_families(1).support_compute());
    assert_eq!(Device::new(71, &[]).queue_family_count(), 0);
}

#[test]
fn the_highest_score_wins_and_of_equals_the_last() {
    assert_eq!(Device::pick_physical_device(&[10, 30, 20]), Some(1));
    assert_eq!(Device::pick_physical_device(&[30, 10, 30, 5]), Some(2));
    assert_eq!(Device::pick_physical_device(&[0, 0, 1]), Some(2));
    assert_eq!(Device::pick_physical_device(&[7]), Some(0));
    assert_eq!(Device::pick_physical_device(&[0, 0]), None);
    assert_eq!(Device::pick_physical_device(&[]), None);
}

#[test]
fn a_device_is_rated_by_type_and_image_size() {
    let discrete = vk::PhysicalDeviceType::DISCRETE_GPU.as_raw();
    let integrated = vk::PhysicalDeviceType::INTEGRATED_GPU.as_raw();
    assert_eq!(Device::rate_device_suitability(&complete(), &traits(discrete, 16384, 1, 1)), 17384);
    assert_eq!(
        Device::rate_device_suitability(&complete(), &traits(integrated, 16384, 1, 1)),
        16384
    );
    assert_eq!(Device::rate_device_suitability(&complete(), &traits(discrete, 16384, 0, 1)), 0);
    assert_eq!(Device::rate_device_suitability(&complete(), &traits(discrete, 16384, 1, 0)), 0);
    assert_eq!(
        Device::rate_device_suitability(
            &QueueFamilyIndices::default(),
            &traits(discrete, 16384, 1, 1)
        ),
        0
    );
    assert_eq!(Device::rate_device_suitability(&complete(), &traits(integrated, 0, 1, 1)), 0);
    assert_eq!(
        Device::rate_device_suitability(&complete(), &traits(discrete, u32::MAX - 1000, 1, 1)),
        u32::MAX
    );
}

#[test]
fn queue_slots_count_up_within_each_family() {
    assert_eq!(
        Device::queue_slots(&[(2, 3), (0, 0), (5, 1)]),
        vec![
            vec![
                QueueSlot { queue_family_index: 2, queue_index: 0 },
                QueueSlot { queue_family_index: 2, queue_index: 1 },
                QueueSlot { queue_family_index: 2, queue_index: 2 },
            ],
            vec![],
            vec![QueueSlot { queue_family_index: 5, queue_index: 0 }],
        ]
    );
    assert!(Device::queue_slots(&[]).is_empty());
}

#[test]
fn the_required_version_is_one_two_zero() {
    assert_eq!(required_version(), vk::make_version(1, 2, 0));
    assert_eq!(consts::REQUIRED_VERSION, vk::make_version(1, 2, 0));
    assert_eq!(consts::REQUIRED_MAJOR, 1);
    assert_eq!(consts::REQUIRED_MINOR, 2);
    assert_eq!(consts::REQUIRED_PATCH, 0);
    assert_eq!(installed_version(None), vk::make_version(1, 0, 0));
    assert_eq!(installed_version(Some(5)), 5);
}

#[test]
fn each_version_number_is_held_against_its_own_minimum() {
    assert!(supports_version(vk::make_version(1, 2, 0)));
    assert!(supports_version(vk::make_version(1, 2, 154)));
    assert!(supports_version(vk::make_version(1, 3, 7)));
    assert!(supports_version(vk::make_version(2, 2, 0)));
    assert!(!supports_version(vk::make_version(1, 1, 200)));
    assert!(!supports_version(vk::make_version(1, 0, 0)));
    assert!(!supports_version(vk::make_version(0, 9, 9)));
    assert!(!supports_version(vk::make_version(2, 0, 0)));
}

#[test]
fn required_extensions_are_enabled_only_if_all_are_offered() {
    let required = consts::instance_extensions();
    assert_eq!(required, names(&["VK_KHR_surface", "VK_KHR_win32_surface"]));
    let all = names(&["VK_EXT_debug_utils", "VK_KHR_win32_surface", "VK_KHR_surface"]);
    assert_eq!(check_instance_extensions(&all, required.clone()), Some(required.clone()));
    let some = names(&["VK_KHR_surface", "VK_KHR_xcb_surface"]);
    assert_eq!(check_instance_extensions(&some, required.clone()), None);
    assert_eq!(check_instance_extensions(&[], required), None);
    assert_eq!(check_instance_extensions(&[], vec![]), Some(vec![]));
    assert_eq!(consts::validation_layers(), names(&["VK_LAYER_NV_optimus"]));
    assert_eq!(consts::device_extensions(), names(&["VK_KHR_swapchain"]));
    assert_eq!((consts::WIDTH, consts::HEIGHT, consts::DEBUG), (800, 600, false));
}
