use ray_tracer::gpu::shared_stage_data::SharedStageUniform;
use ray_tracer::ray_tracer::camera::{
    dispatch_grid, effective_size, output_texture_dimensions, Extent, WorkgroupGrid,
    OUTPUT_TEXTURE_HEIGHT, OUTPUT_TEXTURE_WIDTH, WORKGROUP_TILE,
};

fn pixels(width: f32, height: f32) -> Extent {
    Extent::new(width as u32, height as u32)
}

#[test]
fn capacity_is_full_hd() {
    assert_eq!(output_texture_dimensions(), Extent { width: 1920, height: 1080 });
    assert_eq!((OUTPUT_TEXTURE_WIDTH, OUTPUT_TEXTURE_HEIGHT, WORKGROUP_TILE), (1920, 1080, 16));
}

#[test]
fn oversized_request_is_clamped_to_capacity() {
    let requested = pixels(3840.0, 2160.0);
    let effective = effective_size(requested);
    assert_eq!(effective.width as f32, 1920.0);
    assert_eq!(effective.height as f32, 1080.0);
    assert_eq!(dispatch_grid(requested), WorkgroupGrid { x: 120, y: 67, z: 1 });
    assert_eq!(SharedStageUniform::new(requested).size, Extent { width: 1920, height: 1080 });
}

#[test]
fn zero_width_dispatches_no_columns() {
    let grid = dispatch_grid(pixels(0.0, 500.0));
    assert_eq!((grid.x, grid.y, grid.z), (0, 31, 1));
}

#[test]
fn zero_height_dispatches_no_rows() {
    let grid = dispatch_grid(pixels(500.0, 0.0));
    assert_eq!((grid.x, grid.y), (31, 0));
}

#[test]
fn grid_counts_whole_tiles_inside_capacity() {
    for (width, height) in [(0u32, 0u32), (1, 15), (16, 16), (17, 31), (800, 600), (1919, 1079), (1920, 1080)] {
        let grid = dispatch_grid(Extent::new(width, height));
        assert_eq!((grid.x, grid.y, grid.z), (width / 16, height / 16, 1));
    }
}

#[test]
fn grid_never_exceeds_capacity_tiles() {
    for (width, height) in [(1921u32, 1081u32), (5000, 10), (10, 5000), (u32::MAX, u32::MAX)] {
        let grid = dispatch_grid(Extent::new(width, height));
        assert!(grid.x <= 120 && grid.y <= 67);
    }
    assert_eq!(dispatch_grid(Extent::new(u32::MAX, u32::MAX)), WorkgroupGrid { x: 120, y: 67, z: 1 });
}

#[test]
fn clamp_is_componentwise_minimum() {
    let bound = Extent::new(1920, 1080);
    assert_eq!(Extent::new(100, 2000).clamp_to(bound), Extent::new(100, 1080));
    assert_eq!(Extent::new(2000, 100).clamp_to(bound), Extent::new(1920, 100));
    assert_eq!(Extent::new(640, 480).clamp_to(bound), Extent::new(640, 480));
}

#[test]
fn clamp_twice_equals_clamp_once() {
    let bound = Extent::new(1920, 1080);
    for size in [Extent::new(0, 0), Extent::new(3840, 2160), Extent::new(1920, 5), Extent::new(7, 9000)] {
        let once = size.clamp_to(bound);
        assert_eq!(once.clamp_to(bound), once);
        assert_eq!(effective_size(effective_size(size)), effective_size(size));
    }
}

#[test]
fn fractional_and_odd_requests_floor_to_pixels() {
    assert_eq!(pixels(500.9, 15.99), Extent::new(500, 15));
    assert_eq!(pixels(-3.0, f32::NAN), Extent::new(0, 0));
    assert_eq!(dispatch_grid(pixels(f32::INFINITY, 33.5)), WorkgroupGrid { x: 120, y: 2, z: 1 });
}
