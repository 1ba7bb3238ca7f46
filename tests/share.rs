use rust_game::share::{
    check_device_extension_support, choose_swapchain_extent, choose_swapchain_format,
    choose_swapchain_present_mode, find_queue_family, is_physical_device_suitable,
    pick_physical_device, queue_sharing, swapchain_image_count, unique_queue_families, Extent2D,
    ImageSharing, QueueFamilyInfo, SurfaceCapabilities, SurfaceFormat, COLOR_SPACE_SRGB_NONLINEAR,
    FORMAT_B8G8R8A8_SRGB, PRESENT_MODE_FIFO, PRESENT_MODE_MAILBOX,
};
use rust_game::structures::{DeviceExtension, QueueFamilyIndices};

fn family(queue_count: u32, g: bool, p: bool) -> QueueFamilyInfo {
    QueueFamilyInfo { queue_count, supports_graphics: g, supports_present: p }
}

#[test]
fn queue_family_indices_start_empty() {
    let mut q = QueueFamilyIndices::new();
    assert!(q.graphics_family.is_none() && q.present_family.is_none());
    assert!(!q.is_complete());
    q.graphics_family = Some(1);
    assert!(!q.is_complete());
    q.present_family = Some(2);
    assert!(q.is_complete());
}

#[test]
fn first_family_serving_both_is_chosen() {
    let families = vec![
        family(1, true, false),
        family(0, true, true),
        family(4, false, true),
        family(2, true, true),
        family(1, true, true),
    ];
    let q = find_queue_family(&families);
    assert_eq!(q.graphics_family, Some(3));
    assert_eq!(q.present_family, Some(3));
}

#[test]
fn no_family_serving_both() {
    let q = find_queue_family(&vec![family(1, true, false), family(1, false, true)]);
    assert!(!q.is_complete());
    assert!(q.graphics_family.is_none() && q.present_family.is_none());
    assert!(!find_queue_family(&vec![]).is_complete());
}

#[test]
fn extension_support() {
    let required = DeviceExtension { names: ["VK_KHR_swapchain"] };
    let has = vec!["VK_KHR_maintenance1".to_string(), "VK_KHR_swapchain".to_string()];
    assert!(check_device_extension_support(&has, &required));
    let lacks = vec!["VK_KHR_maintenance1".to_string(), "VK_KHR_swapchain_x".to_string()];
    assert!(!check_device_extension_support(&lacks, &required));
    assert!(!check_device_extension_support(&vec![], &required));
}

#[test]
fn suitability_needs_every_part() {
    let mut q = QueueFamilyIndices::new();
    q.graphics_family = Some(0);
    q.present_family = Some(0);
    assert!(is_physical_device_suitable(&q, true, 2, 1));
    assert!(!is_physical_device_suitable(&q, false, 2, 1));
    assert!(!is_physical_device_suitable(&q, true, 0, 1));
    assert!(!is_physical_device_suitable(&q, true, 2, 0));
    assert!(!is_physical_device_suitable(&QueueFamilyIndices::new(), true, 2, 1));
}

#[test]
fn first_suitable_device_is_picked() {
    assert_eq!(pick_physical_device(&vec![false, true, true]), Some(1));
    assert_eq!(pick_physical_device(&vec![false, false]), None);
    assert_eq!(pick_physical_device(&vec![]), None);
}

#[test]
fn srgb_format_preferred() {
    let other = SurfaceFormat { format: 44, color_space: 0 };
    let srgb = SurfaceFormat { format: FORMAT_B8G8R8A8_SRGB, color_space: COLOR_SPACE_SRGB_NONLINEAR };
    let wrong_space = SurfaceFormat { format: FORMAT_B8G8R8A8_SRGB, color_space: 1_000_104_001 };
    assert_eq!(choose_swapchain_format(&vec![other, wrong_space, srgb]), srgb);
    assert_eq!(choose_swapchain_format(&vec![wrong_space, other]), wrong_space);
}

#[test]
fn mailbox_preferred_else_fifo() {
    assert_eq!(choose_swapchain_present_mode(&vec![0, 2, 1]), PRESENT_MODE_MAILBOX);
    assert_eq!(choose_swapchain_present_mode(&vec![0, 3]), PRESENT_MODE_FIFO);
    assert_eq!(choose_swapchain_present_mode(&vec![]), PRESENT_MODE_FIFO);
}

fn surface(current: Extent2D) -> SurfaceCapabilities {
    SurfaceCapabilities {
        current_extent: current,
        min_image_extent: Extent2D { width: 100, height: 50 },
        max_image_extent: Extent2D { width: 4096, height: 2048 },
        min_image_count: 2,
        max_image_count: 3,
    }
}

#[test]
fn extent_follows_surface_or_clamped_window() {
    let fixed = surface(Extent2D { width: 800, height: 600 });
    assert_eq!(choose_swapchain_extent(&fixed, 10, 10), Extent2D { width: 800, height: 600 });
    let free = surface(Extent2D { width: u32::MAX, height: u32::MAX });
    assert_eq!(choose_swapchain_extent(&free, 5000, 10), Extent2D { width: 4096, height: 50 });
    assert_eq!(choose_swapchain_extent(&free, 640, 480), Extent2D { width: 640, height: 480 });
}

#[test]
fn image_count_is_one_above_minimum_within_maximum() {
    let mut c = surface(Extent2D { width: 1, height: 1 });
    assert_eq!(swapchain_image_count(&c), 3);
    c.max_image_count = 2;
    assert_eq!(swapchain_image_count(&c), 2);
    c.max_image_count = 0;
    assert_eq!(swapchain_image_count(&c), 3);
    c.min_image_count = u32::MAX;
    assert_eq!(swapchain_image_count(&c), u32::MAX);
}

#[test]
fn sharing_and_unique_families() {
    let mut q = QueueFamilyIndices::new();
    q.graphics_family = Some(1);
    q.present_family = Some(1);
    assert_eq!(queue_sharing(&q), ImageSharing::Exclusive);
    assert_eq!(unique_queue_families(&q), vec![1]);
    q.present_family = Some(4);
    assert_eq!(queue_sharing(&q), ImageSharing::Concurrent { graphics: 1, present: 4 });
    assert_eq!(unique_queue_families(&q), vec![1, 4]);
}
