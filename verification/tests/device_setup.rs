use voxel_renderer::device::{
    find_graphics_queue_family, find_transfer_queue_family, instance_extension_names,
    select_physical_device, QueueFamilyInfo, QUEUE_GRAPHICS, QUEUE_TRANSFER,
};
use voxel_renderer::memory::{find_memory_type, MemoryProperties, MAX_MEMORY_TYPES};

fn family(queue_flags: u32, surface_support: bool) -> QueueFamilyInfo {
    QueueFamilyInfo { queue_flags, surface_support }
}

#[test]
fn queue_flag_bits_are_vulkans() {
    assert_eq!(QUEUE_GRAPHICS, ash::vk::QueueFlags::GRAPHICS.as_raw());
    assert_eq!(QUEUE_TRANSFER, ash::vk::QueueFlags::TRANSFER.as_raw());
    assert_eq!(MAX_MEMORY_TYPES as usize, ash::vk::MAX_MEMORY_TYPES);
}

#[test]
fn graphics_family_needs_graphics_and_presentation() {
    let families = vec![
        family(QUEUE_TRANSFER, true),
        family(QUEUE_GRAPHICS | QUEUE_TRANSFER, false),
        family(QUEUE_GRAPHICS | 0x2, true),
        family(QUEUE_GRAPHICS, true),
    ];
    assert_eq!(find_graphics_queue_family(&families), Some(2));
    assert_eq!(find_graphics_queue_family(&vec![family(QUEUE_TRANSFER, true)]), None);
    assert_eq!(find_graphics_queue_family(&vec![]), None);
}

#[test]
fn first_suitable_device_wins() {
    let devices = vec![
        vec![family(QUEUE_GRAPHICS, false), family(QUEUE_TRANSFER, true)],
        vec![family(QUEUE_TRANSFER, true), family(QUEUE_GRAPHICS, true)],
        vec![family(QUEUE_GRAPHICS, true)],
    ];
    assert_eq!(select_physical_device(&devices), Some((1, 1)));
    assert_eq!(select_physical_device(&vec![vec![family(0, true)]]), None);
}

#[test]
fn transfer_family_must_not_do_graphics() {
    let families = vec![
        family(QUEUE_GRAPHICS | QUEUE_TRANSFER, true),
        family(0x2, false),
        family(QUEUE_TRANSFER | 0x2, false),
        family(QUEUE_TRANSFER, false),
    ];
    assert_eq!(find_transfer_queue_family(&families), Some(2));
    assert_eq!(find_transfer_queue_family(&vec![family(QUEUE_GRAPHICS | QUEUE_TRANSFER, true)]), None);
}

#[test]
fn extension_names_are_nul_terminated_and_end_with_debug_utils() {
    let names = instance_extension_names(&vec![
        "VK_KHR_surface".to_string(),
        "VK_KHR_win32_surface".to_string(),
    ]);
    assert_eq!(
        names,
        vec![
            "VK_KHR_surface\0".to_string(),
            "VK_KHR_win32_surface\0".to_string(),
            "VK_EXT_debug_utils\0".to_string(),
        ]
    );
    assert_eq!(
        names[2].as_bytes(),
        ash::ext::debug_utils::NAME.to_bytes_with_nul()
    );
    assert_eq!(instance_extension_names(&vec![]), vec!["VK_EXT_debug_utils\0".to_string()]);
}

fn memory(count: u32, flags: &[u32]) -> MemoryProperties {
    let mut memory_type_flags = flags.to_vec();
    memory_type_flags.resize(32, 0);
    MemoryProperties { memory_type_count: count, memory_type_flags }
}

#[test]
fn memory_type_is_first_allowed_with_all_properties() {
    let device_local = ash::vk::MemoryPropertyFlags::DEVICE_LOCAL.as_raw();
    let host_visible = ash::vk::MemoryPropertyFlags::HOST_VISIBLE.as_raw();
    let host_coherent = ash::vk::MemoryPropertyFlags::HOST_COHERENT.as_raw();
    let props = memory(
        4,
        &[device_local, host_visible, host_visible | host_coherent, device_local | host_visible | host_coherent],
    );
    // Type 1 lacks HOST_COHERENT, so type 2 is the first with both bits.
    assert_eq!(find_memory_type(&props, 0b1111, host_visible | host_coherent), Some(2));
    // The filter excludes type 2.
    assert_eq!(find_memory_type(&props, 0b1011, host_visible | host_coherent), Some(3));
    assert_eq!(find_memory_type(&props, 0b1111, device_local), Some(0));
    assert_eq!(find_memory_type(&props, 0b0001, host_visible), None);
    // Types past the count are never chosen.
    let props = memory(2, &[device_local, device_local, host_visible]);
    assert_eq!(find_memory_type(&props, 0b111, host_visible), None);
    // No property asked for: the first allowed type.
    assert_eq!(find_memory_type(&props, 0b10, 0), Some(1));
}
