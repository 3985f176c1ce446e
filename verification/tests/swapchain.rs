use voxeller::memory::view_description;
use voxeller::swapchain::{
    choose_extent, choose_format, choose_image_count, choose_present_mode, create_swapchain,
    swapchain_views, Extent, SurfaceCaps, SurfaceFormat,
};

const SRGB: SurfaceFormat = SurfaceFormat { format: 50, color_space: 0 };
const UNORM: SurfaceFormat = SurfaceFormat { format: 44, color_space: 0 };
const WIDE: SurfaceFormat = SurfaceFormat { format: 50, color_space: 7 };

fn caps(min: u32, max: u32, width: u32) -> SurfaceCaps {
    SurfaceCaps {
        min_image_count: min,
        max_image_count: max,
        current_extent: Extent { width, height: 600 },
        min_extent: Extent { width: 100, height: 50 },
        max_extent: Extent { width: 2000, height: 1000 },
        current_transform: 0x4,
    }
}

#[test]
fn the_preferred_format_wins() {
    assert_eq!(choose_format(&[UNORM, WIDE, SRGB]), SRGB);
    assert_eq!(choose_format(&[UNORM, WIDE]), UNORM);
    assert_eq!(choose_format(&[WIDE]), WIDE);
    assert_eq!(choose_format(&[]), SRGB);
}

#[test]
fn mailbox_is_taken_where_offered() {
    assert_eq!(choose_present_mode(&[0, 2, 1]), 1);
    assert_eq!(choose_present_mode(&[0, 3]), 2);
    assert_eq!(choose_present_mode(&[]), 2);
}

#[test]
fn a_fixed_extent_is_kept() {
    let window = Extent { width: 1280, height: 720 };
    assert_eq!(choose_extent(&caps(2, 0, 800), window), Extent { width: 800, height: 600 });
}

#[test]
fn an_open_extent_follows_the_window_within_limits() {
    let open = caps(2, 0, u32::MAX);
    let sizes = [
        ((1280, 720), (1280, 720)),
        ((1, 1), (100, 50)),
        ((9999, 9999), (2000, 1000)),
        ((0, 9999), (100, 1000)),
    ];
    for ((w, h), (ew, eh)) in sizes {
        assert_eq!(
            choose_extent(&open, Extent { width: w, height: h }),
            Extent { width: ew, height: eh }
        );
    }
}

#[test]
fn one_image_more_than_needed_if_allowed() {
    assert_eq!(choose_image_count(&caps(2, 0, 0)), 3);
    assert_eq!(choose_image_count(&caps(2, 8, 0)), 3);
    assert_eq!(choose_image_count(&caps(2, 3, 0)), 3);
    assert_eq!(choose_image_count(&caps(2, 2, 0)), 2);
    assert_eq!(choose_image_count(&caps(u32::MAX - 1, 0, 0)), u32::MAX);
}

#[test]
fn all_choices_together() {
    let config = create_swapchain(
        &caps(3, 3, u32::MAX),
        &[UNORM],
        &[1],
        Extent { width: 640, height: 480 },
    );
    assert_eq!(config.format, UNORM);
    assert_eq!(config.present_mode, 1);
    assert_eq!(config.extent, Extent { width: 640, height: 480 });
    assert_eq!(config.image_count, 3);
    assert_eq!(config.usage, 0x12);
    assert_eq!(config.array_layers, 1);
    assert_eq!(config.sharing_mode, 0);
    assert_eq!(config.transform, 0x4);
    assert_eq!(config.composite_alpha, 0x1);
    assert!(config.clipped);
}

#[test]
fn every_swapchain_image_has_a_view() {
    for count in 0..4 {
        let views = swapchain_views(50, count);
        assert_eq!(views.len(), count);
        for view in views {
            assert_eq!(view, view_description(50));
            assert_eq!((view.view_type, view.format, view.range.aspect), (1, 50, 1));
            assert_eq!((view.range.level_count, view.range.layer_count), (1, 1));
        }
    }
}
