use triangle::geometry::{triangle_vertices, Vertex};
use triangle::pipeline::{initial_viewport, pipeline_config, render_pass_config};
use triangle::swapchain::{choose_swapchain_config, window_size_dependent_setup, SurfaceCaps};

#[test]
fn swapchain_takes_surface_minimum_and_first_choices() {
    let caps = SurfaceCaps {
        min_image_count: 2,
        supported_formats: vec![44, 50, 37],
        supported_composite_alpha: vec![1, 8],
    };
    let cfg = choose_swapchain_config(&caps, 800, 600);
    assert_eq!(cfg.image_count, 2);
    assert_eq!(cfg.format, 44);
    assert_eq!(cfg.composite_alpha, 1);
    assert_eq!(cfg.width, 800);
    assert_eq!(cfg.height, 600);
    assert!(cfg.color_attachment_only);
    assert!(cfg.exclusive_sharing);
}

#[test]
fn image_count_tracks_surface_minimum() {
    for min in [1u32, 2, 3, 8] {
        let caps = SurfaceCaps {
            min_image_count: min,
            supported_formats: vec![44],
            supported_composite_alpha: vec![1],
        };
        let cfg = choose_swapchain_config(&caps, 640, 480);
        assert_eq!(cfg.image_count, min);
    }
}

#[test]
fn one_framebuffer_per_image_with_live_dimensions() {
    let (viewport, framebuffers) = window_size_dependent_setup(3, 400, 300);
    assert_eq!(viewport.width, 400);
    assert_eq!(viewport.height, 300);
    assert_eq!(framebuffers.len(), 3);
    for fb in &framebuffers {
        assert_eq!(fb.width, 400);
        assert_eq!(fb.height, 300);
    }
}

#[test]
fn empty_image_chain_gives_no_framebuffers() {
    let (_, framebuffers) = window_size_dependent_setup(0, 100, 100);
    assert!(framebuffers.is_empty());
}

#[test]
fn triangle_is_the_three_fixed_vertices() {
    let v = triangle_vertices();
    assert_eq!(
        v,
        vec![
            Vertex { x_milli: 500, y_milli: 500 },
            Vertex { x_milli: -500, y_milli: 500 },
            Vertex { x_milli: 0, y_milli: -500 },
        ]
    );
}

#[test]
fn render_pass_is_clear_store_single_sample() {
    let rp = render_pass_config(44);
    assert_eq!(rp.color_format, 44);
    assert_eq!(rp.samples, 1);
    assert!(rp.load_clear);
    assert!(rp.store_keep);
}

#[test]
fn pipeline_is_triangle_list_with_one_dynamic_viewport() {
    let p = pipeline_config();
    assert!(p.topology_triangle_list);
    assert_eq!(p.vertex_buffer_count, 1);
    assert_eq!(p.dynamic_viewport_count, 1);
    assert!(p.scissor_disabled);
    assert_eq!(p.subpass_index, 0);
}

#[test]
fn placeholder_viewport_is_zero_sized() {
    let v = initial_viewport();
    assert_eq!(v.width, 0);
    assert_eq!(v.height, 0);
}
