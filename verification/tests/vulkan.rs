use space_engine::utils::Size2D;
use space_engine::vulkan::buffer::{
    ensure_buffer_capacity, mesh_staging_layout, required_buffer_size, BufferAction,
};
use space_engine::vulkan::device::{
    memory_size_in_gb, pick_physical_device, queue_families_from_flags, unique_queue_family_indices,
    PHYSICAL_DEVICE_TYPE_DISCRETE_GPU,
};
use space_engine::vulkan::image::{
    barrier_aspect_mask, IMAGE_ASPECT_COLOR, IMAGE_ASPECT_DEPTH, IMAGE_LAYOUT_DEPTH_STENCIL_ATTACHMENT_OPTIMAL,
};
use space_engine::vulkan::instance::{
    api_version_numbers, get_window_manager, instance_api_version, DisplayKind, API_VERSION_1_0,
};
use space_engine::vulkan::queue_family::{
    pick_compute_queue_family, pick_graphics_queue_family, pick_present_queue_family,
    pick_transfer_queue_family, EngineQueueFamily, PolishedQueueFamilies, QUEUE_COMPUTE, QUEUE_GRAPHICS,
    QUEUE_TRANSFER,
};
use space_engine::vulkan::swapchain::{choose_swapchain_extent, desired_image_count, PresentResult, SwapchainStatus};

#[test]
fn constants_match_ash() {
    assert_eq!(QUEUE_GRAPHICS, ash::vk::QueueFlags::GRAPHICS.as_raw());
    assert_eq!(QUEUE_COMPUTE, ash::vk::QueueFlags::COMPUTE.as_raw());
    assert_eq!(QUEUE_TRANSFER, ash::vk::QueueFlags::TRANSFER.as_raw());
    assert_eq!(PHYSICAL_DEVICE_TYPE_DISCRETE_GPU, ash::vk::PhysicalDeviceType::DISCRETE_GPU.as_raw());
    assert_eq!(API_VERSION_1_0, ash::vk::API_VERSION_1_0);
    assert_eq!(IMAGE_LAYOUT_DEPTH_STENCIL_ATTACHMENT_OPTIMAL, ash::vk::ImageLayout::DEPTH_STENCIL_ATTACHMENT_OPTIMAL.as_raw());
    assert_eq!(IMAGE_ASPECT_COLOR, ash::vk::ImageAspectFlags::COLOR.as_raw());
    assert_eq!(IMAGE_ASPECT_DEPTH, ash::vk::ImageAspectFlags::DEPTH.as_raw());
}

fn families(flags: &[u32]) -> Vec<EngineQueueFamily> {
    queue_families_from_flags(flags)
}

#[test]
fn queue_families_are_numbered_by_position() {
    let f = families(&[7, 4, 2]);
    assert_eq!(f.len(), 3);
    assert_eq!(f[0], EngineQueueFamily { index: 0, queue_flags: 7 });
    assert_eq!(f[2], EngineQueueFamily { index: 2, queue_flags: 2 });
}

#[test]
fn picks_first_family_with_capability() {
    // family 0: transfer only, family 1: compute+transfer, family 2: graphics+compute+transfer
    let f = families(&[4, 6, 7]);
    assert_eq!(pick_graphics_queue_family(&f).unwrap().index, 2);
    assert_eq!(pick_compute_queue_family(&f).unwrap().index, 1);
    assert_eq!(pick_transfer_queue_family(&f).unwrap().index, 0);
    assert_eq!(pick_present_queue_family(&f, &vec![false, false, true]).unwrap().index, 2);
    assert_eq!(pick_present_queue_family(&f, &vec![false, true, true]).unwrap().index, 1);
}

#[test]
fn no_family_with_capability_gives_none() {
    let f = families(&[4, 4]);
    assert!(pick_graphics_queue_family(&f).is_none());
    assert!(pick_compute_queue_family(&f).is_none());
    assert!(pick_present_queue_family(&f, &vec![false, false]).is_none());
    assert!(pick_graphics_queue_family(&[]).is_none());
}

#[test]
fn polished_families_and_unique_indices() {
    let f = families(&[7, 4]);
    let qfs = PolishedQueueFamilies::new(&f, &vec![false, true]);
    assert_eq!(qfs.graphics.index, 0);
    assert_eq!(qfs.present.index, 1);
    assert_eq!(qfs.compute.index, 0);
    assert_eq!(qfs.transfer.index, 0);
    let mut unique = unique_queue_family_indices(&qfs);
    unique.sort();
    assert_eq!(unique, vec![0, 1]);
    let single = PolishedQueueFamilies::new(&f, &vec![true, true]);
    assert_eq!(unique_queue_family_indices(&single), vec![0]);
}

#[test]
fn physical_device_prefers_first_discrete_gpu() {
    // integrated, discrete, discrete
    assert_eq!(pick_physical_device(&[1, 2, 2]), 1);
    // no discrete GPU: the first device
    assert_eq!(pick_physical_device(&[1, 4, 3]), 0);
    assert_eq!(pick_physical_device(&[2]), 0);
}

#[test]
fn memory_is_reported_in_whole_gb() {
    assert_eq!(memory_size_in_gb(8 * 1024 * 1024 * 1000), 8);
    assert_eq!(memory_size_in_gb(1024 * 1024 * 1000 - 1), 0);
    assert_eq!(memory_size_in_gb(12_884_901_888), 12);
}

#[test]
fn buffer_sizes_and_capacity_decisions() {
    assert_eq!(required_buffer_size::<u32>(10), 40);
    assert_eq!(required_buffer_size::<[f32; 8]>(4), 128);
    assert_eq!(required_buffer_size::<u64>(0), 0);
    assert_eq!(ensure_buffer_capacity::<[f32; 8]>(128, 4), BufferAction::Keep);
    assert_eq!(ensure_buffer_capacity::<[f32; 8]>(128, 1), BufferAction::Reallocate { new_size: 32 });
    assert_eq!(ensure_buffer_capacity::<[f32; 8]>(0, 5), BufferAction::Reallocate { new_size: 160 });
    // once carried out, asking again keeps the buffer
    assert_eq!(ensure_buffer_capacity::<[f32; 8]>(160, 5), BufferAction::Keep);
}

#[test]
fn mesh_staging_layout_puts_indices_after_vertices() {
    let layout = mesh_staging_layout::<[f32; 16]>(3, 6);
    assert_eq!(layout.vertex_buffer_size, 192);
    assert_eq!(layout.index_buffer_size, 24);
    assert_eq!(layout.index_offset, 192);
    assert_eq!(layout.staging_size, 216);
}

#[test]
fn window_manager_names() {
    assert_eq!(get_window_manager(DisplayKind::Windows), "Windows");
    assert_eq!(get_window_manager(DisplayKind::Wayland), "Wayland");
    assert_eq!(get_window_manager(DisplayKind::Xlib), "Xlib");
    assert_eq!(get_window_manager(DisplayKind::Xcb), "Xcb");
    assert_eq!(get_window_manager(DisplayKind::Android), "Android");
    assert_eq!(get_window_manager(DisplayKind::AppKit), "Apple Kit");
    assert_eq!(get_window_manager(DisplayKind::UiKit), "Apple Kit");
    assert_eq!(get_window_manager(DisplayKind::Other), "N/A");
}

#[test]
fn api_version_handling() {
    assert_eq!(instance_api_version(None), ash::vk::API_VERSION_1_0);
    assert_eq!(instance_api_version(Some(ash::vk::API_VERSION_1_3)), ash::vk::API_VERSION_1_3);
    assert_eq!(api_version_numbers(ash::vk::make_api_version(0, 1, 3, 281)), (1, 3, 281));
    assert_eq!(api_version_numbers(API_VERSION_1_0), (1, 0, 0));
}

#[test]
fn layout_transition_aspect() {
    assert_eq!(barrier_aspect_mask(IMAGE_LAYOUT_DEPTH_STENCIL_ATTACHMENT_OPTIMAL), IMAGE_ASPECT_DEPTH);
    assert_eq!(barrier_aspect_mask(ash::vk::ImageLayout::TRANSFER_SRC_OPTIMAL.as_raw()), IMAGE_ASPECT_COLOR);
}

#[test]
fn swapchain_extent_and_image_count() {
    let window = Size2D { width: 800, height: 600 };
    let current = Size2D { width: 1024, height: 768 };
    assert_eq!(choose_swapchain_extent(current, window), current);
    assert_eq!(choose_swapchain_extent(Size2D { width: u32::MAX, height: u32::MAX }, window), window);
    assert_eq!(desired_image_count(2, 0), 3);
    assert_eq!(desired_image_count(2, 8), 3);
    assert_eq!(desired_image_count(3, 3), 3);
}

#[test]
fn swapchain_status_transitions() {
    let mut status = SwapchainStatus::new(Size2D { width: 800, height: 600 });
    assert!(status.is_dirty);
    assert!(!status.resize(Size2D { width: 0, height: 600 }));
    assert!(status.is_dirty);
    assert_eq!(status.extent.width, 0);
    assert!(status.resize(Size2D { width: 640, height: 480 }));
    assert!(!status.is_dirty);
    assert!(!status.record_images(3));
    assert!(status.record_images(3));
    status.acquired(false);
    assert!(!status.is_dirty);
    status.acquired(true);
    assert!(status.is_dirty);
    assert!(status.resize(Size2D { width: 640, height: 480 }));
    assert!(status.presented(PresentResult::Presented { suboptimal: false }));
    assert!(!status.is_dirty);
    assert!(status.presented(PresentResult::OutOfDate));
    assert!(status.is_dirty);
    status.resize(Size2D { width: 1, height: 1 });
    assert!(!status.presented(PresentResult::Failed));
    assert!(!status.is_dirty);
    status.mark_dirty();
    assert!(status.is_dirty);
}
