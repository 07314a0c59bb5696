use space_engine::resources::{GeoSurface, MeshCache, MeshGeometry, PrimitiveIndices};
use space_engine::utils::{Point2D, Size2D};
use space_engine::vulkan::swapchain::SwapchainStatus;
use space_engine::window_renderer::{plan_frame, FrameCounter};

#[test]
fn frame_counter_cycles() {
    let mut frames = FrameCounter::new(3);
    assert_eq!(frames.frame_index(), 0);
    frames.advance();
    assert_eq!(frames.frame_index(), 1);
    frames.advance();
    assert_eq!(frames.frame_index(), 2);
    frames.advance();
    assert_eq!(frames.frame_index(), 0);
    let mut single = FrameCounter::new(1);
    single.advance();
    assert_eq!(single.frame_index(), 0);
}

#[test]
fn frame_plan_rebuilds_dirty_swapchain() {
    let mut status = SwapchainStatus::new(Size2D { width: 800, height: 600 });
    let plan = plan_frame(&mut status, Size2D { width: 1280, height: 720 });
    assert!(plan.wait_idle && plan.rebuild_swapchain && plan.resize_render_targets && plan.draw);
    assert_eq!(status.extent, Size2D { width: 1280, height: 720 });
    assert!(!status.is_dirty);
    let plan = plan_frame(&mut status, Size2D { width: 1, height: 1 });
    assert!(!plan.wait_idle && !plan.rebuild_swapchain && plan.draw);
    assert_eq!(status.extent, Size2D { width: 1280, height: 720 });
}

#[test]
fn frame_plan_skips_minimised_window() {
    let mut status = SwapchainStatus::new(Size2D { width: 800, height: 600 });
    let plan = plan_frame(&mut status, Size2D { width: 0, height: 0 });
    assert!(plan.wait_idle && !plan.rebuild_swapchain && !plan.draw);
    assert!(status.is_dirty);
}

#[test]
fn size_hover_round_trip() {
    let size = Size2D { width: 200, height: 100 };
    let grown = size.hover(true);
    assert_eq!(grown, Size2D { width: 220, height: 120 });
    assert_eq!(grown.hover(false), size);
    assert!(size.is_drawable());
    assert!(!Size2D::default().is_drawable());
    assert_eq!(Point2D::default(), Point2D { x: 0, y: 0 });
}

#[test]
fn mesh_indices_are_rebased_per_primitive() {
    let mut mesh = MeshGeometry::new();
    mesh.add_primitive(Some(3), Some(PrimitiveIndices { accessor_count: 3, values: Some(vec![0, 1, 2]) }));
    mesh.add_primitive(Some(4), Some(PrimitiveIndices { accessor_count: 6, values: Some(vec![0, 1, 2, 2, 3, 0]) }));
    mesh.add_primitive(Some(2), None);
    assert_eq!(mesh.vertex_count(), 9);
    let (indices, surfaces) = mesh.into_parts();
    assert_eq!(indices, vec![0, 1, 2, 3, 4, 5, 5, 6, 3]);
    assert_eq!(
        surfaces,
        vec![GeoSurface { start_index: 0, count: 3 }, GeoSurface { start_index: 3, count: 6 }]
    );
}

#[test]
fn unreadable_indices_still_add_a_surface() {
    let mut mesh = MeshGeometry::new();
    mesh.add_primitive(None, Some(PrimitiveIndices { accessor_count: 5, values: None }));
    assert_eq!(mesh.vertex_count(), 0);
    let (indices, surfaces) = mesh.into_parts();
    assert!(indices.is_empty());
    assert_eq!(surfaces, vec![GeoSurface { start_index: 0, count: 5 }]);
    assert_eq!(GeoSurface::default(), GeoSurface { start_index: 0, count: 0 });
}

#[test]
fn mesh_cache_loads_each_new_path_once() {
    let mut cache = MeshCache::new();
    let path = String::from("res/meshes/glb/basicmesh.glb");
    assert!(cache.needs_load(&path));
    cache.record_load(&path);
    assert!(!cache.needs_load(&path));
    assert!(cache.needs_load(&String::from("res/meshes/glb/other.glb")));
}
