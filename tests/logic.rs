use image_viewer::cli::{parse_args, CliAction};
use image_viewer::edges::{resize_edge, ResizeEdge};
use image_viewer::geometry::{
    calc_target_size, fit_window, is_at_screen_limit, overlay_side, screen_size_or_fallback, WindowFit,
};
use image_viewer::image::ImageState;
use image_viewer::overlay::OverlayPosition;
use image_viewer::viewer::{Viewer, WindowMode};

fn args(v: &[&str]) -> Vec<String> {
    v.iter().map(|s| s.to_string()).collect()
}

#[test]
fn target_size_keeps_a_size_that_fits() {
    assert_eq!(calc_target_size(800, 600, 1920, 1080), (800, 628));
}

#[test]
fn target_size_raises_a_small_image_to_the_minimum() {
    assert_eq!(calc_target_size(10, 20, 1920, 1080), (400, 300));
}

#[test]
fn target_size_caps_a_large_image_at_the_screen_less_margin() {
    assert_eq!(calc_target_size(5000, 4000, 1920, 1080), (1820, 980));
}

#[test]
fn target_size_counts_the_title_bar_in_the_height() {
    assert_eq!(calc_target_size(1000, 952, 1920, 1080), (1000, 980));
    assert_eq!(calc_target_size(1000, 953, 1920, 1080), (1000, 980));
    assert_eq!(calc_target_size(1000, 951, 1920, 1080), (1000, 979));
}

#[test]
fn fit_window_sizes_the_drawing_area_below_the_title_bar() {
    assert_eq!(
        fit_window(640, 480, 1920, 1080),
        WindowFit { width: 640, height: 508, content_width: 640, content_height: 480 }
    );
    assert_eq!(
        fit_window(100, 100, 1920, 1080),
        WindowFit { width: 400, height: 300, content_width: 400, content_height: 272 }
    );
}

#[test]
fn screen_limit_is_reached_at_the_largest_window() {
    assert!(!is_at_screen_limit(1819, 951, 1920, 1080));
    assert!(is_at_screen_limit(1820, 10, 1920, 1080));
    assert!(is_at_screen_limit(10, 952, 1920, 1080));
}

#[test]
fn screen_size_falls_back_without_a_monitor() {
    assert_eq!(screen_size_or_fallback(None), (1920, 1080));
    assert_eq!(screen_size_or_fallback(Some((2560, 1440))), (2560, 1440));
}

#[test]
fn overlay_side_has_a_minimum() {
    assert_eq!(overlay_side(10), 50);
    assert_eq!(overlay_side(50), 50);
    assert_eq!(overlay_side(300), 300);
}

#[test]
fn image_state_starts_empty() {
    let s = ImageState::default();
    assert!(!s.loaded);
    assert_eq!((s.rotation, s.original_width, s.original_height), (0, 0, 0));
}

#[test]
fn rotation_swaps_the_shown_size_and_wraps_after_four_turns() {
    let mut s = ImageState::default();
    s.load(640, 480);
    assert_eq!(s.rotated_size(), (640, 480));
    assert!(s.rotate());
    assert_eq!(s.rotation, 1);
    assert_eq!(s.rotated_size(), (480, 640));
    s.rotate();
    assert_eq!(s.rotated_size(), (640, 480));
    s.rotate();
    assert_eq!(s.rotation, 3);
    s.rotate();
    assert_eq!(s.rotation, 0);
}

#[test]
fn rotation_without_an_image_does_nothing() {
    let mut s = ImageState::default();
    assert!(!s.rotate());
    assert_eq!(s.rotation, 0);
}

#[test]
fn loading_resets_the_rotation() {
    let mut s = ImageState::default();
    s.load(10, 20);
    s.rotate();
    s.load(30, 40);
    assert_eq!(s.rotation, 0);
    assert_eq!(s.rotated_size(), (30, 40));
}

#[test]
fn raster_is_redrawn_only_when_stale() {
    let mut s = ImageState::default();
    assert!(!s.needs_rerender(-1, false));
    s.load(10, 10);
    assert!(s.needs_rerender(-1, false));
    assert!(s.needs_rerender(0, false));
    assert!(!s.needs_rerender(0, true));
    s.rotate();
    assert!(s.needs_rerender(0, true));
    assert!(!s.needs_rerender(1, true));
}

#[test]
fn overlay_default_position() {
    assert_eq!(OverlayPosition::default(), OverlayPosition { margin_left: 100, margin_top: 100 });
}

#[test]
fn overlay_margins_never_go_negative() {
    assert_eq!(OverlayPosition::clamped(-5, 7), OverlayPosition { margin_left: 0, margin_top: 7 });
    assert_eq!(OverlayPosition::clamped(12, -1), OverlayPosition { margin_left: 12, margin_top: 0 });
}

#[test]
fn overlay_centered_on_screen() {
    assert_eq!(
        OverlayPosition::centered(1920, 1080, 801, 601),
        OverlayPosition { margin_left: 559, margin_top: 239 }
    );
    assert_eq!(
        OverlayPosition::centered(1920, 1080, 3000, 2000),
        OverlayPosition { margin_left: 0, margin_top: 0 }
    );
}

#[test]
fn overlay_estimated_from_a_centred_main_window() {
    assert_eq!(
        OverlayPosition::from_window_estimate(1920, 1080, 820, 628, 10, 0),
        OverlayPosition { margin_left: 560, margin_top: 254 }
    );
    // A window wider than the screen: the halved difference rounds toward zero.
    assert_eq!(
        OverlayPosition::from_window_estimate(1000, 800, 1003, 800, 5, -30),
        OverlayPosition { margin_left: 4, margin_top: 0 }
    );
}

#[test]
fn overlay_estimate_saturates_at_the_largest_margin() {
    let p = OverlayPosition::from_window_estimate(i32::MAX, i32::MAX, 0, 0, i32::MAX, i32::MAX);
    assert_eq!(p, OverlayPosition { margin_left: i32::MAX, margin_top: i32::MAX });
}

#[test]
fn edges_pick_corners_first() {
    assert_eq!(resize_edge(true, false, true, false), Some(ResizeEdge::NorthWest));
    assert_eq!(resize_edge(true, false, false, true), Some(ResizeEdge::SouthWest));
    assert_eq!(resize_edge(false, true, true, false), Some(ResizeEdge::NorthEast));
    assert_eq!(resize_edge(false, true, false, true), Some(ResizeEdge::SouthEast));
    assert_eq!(resize_edge(true, false, false, false), Some(ResizeEdge::West));
    assert_eq!(resize_edge(false, true, false, false), Some(ResizeEdge::East));
    assert_eq!(resize_edge(false, false, true, false), Some(ResizeEdge::North));
    assert_eq!(resize_edge(false, false, false, true), Some(ResizeEdge::South));
    assert_eq!(resize_edge(false, false, false, false), None);
    assert_eq!(resize_edge(true, true, true, true), Some(ResizeEdge::NorthWest));
}

#[test]
fn edges_name_their_cursors() {
    assert_eq!(ResizeEdge::NorthWest.cursor_name(), "nw-resize");
    assert_eq!(ResizeEdge::SouthEast.cursor_name(), "se-resize");
    assert_eq!(ResizeEdge::East.cursor_name(), "e-resize");
    assert_eq!(ResizeEdge::South.cursor_name(), "s-resize");
}

#[test]
fn cli_without_arguments_runs_plainly() {
    assert_eq!(parse_args(&args(&[])), CliAction::Run { overlay: false, file: None });
}

#[test]
fn cli_overlay_and_file() {
    assert_eq!(
        parse_args(&args(&["-o", "a.png"])),
        CliAction::Run { overlay: true, file: Some("a.png".to_string()) }
    );
    assert_eq!(
        parse_args(&args(&["b.png", "--overlay"])),
        CliAction::Run { overlay: true, file: Some("b.png".to_string()) }
    );
}

#[test]
fn cli_last_file_wins() {
    assert_eq!(
        parse_args(&args(&["a.png", "b.png"])),
        CliAction::Run { overlay: false, file: Some("b.png".to_string()) }
    );
}

#[test]
fn cli_help_and_version_stop_reading() {
    assert_eq!(parse_args(&args(&["-h", "--bogus"])), CliAction::Help);
    assert_eq!(parse_args(&args(&["a.png", "--help"])), CliAction::Help);
    assert_eq!(parse_args(&args(&["-v"])), CliAction::Version);
    assert_eq!(parse_args(&args(&["--version", "-h"])), CliAction::Version);
}

#[test]
fn cli_unknown_option() {
    assert_eq!(parse_args(&args(&["-x", "-h"])), CliAction::Unknown("-x".to_string()));
    assert_eq!(parse_args(&args(&["-"])), CliAction::Unknown("-".to_string()));
    assert_eq!(parse_args(&args(&["--over"])), CliAction::Unknown("--over".to_string()));
}

#[test]
fn viewer_enters_overlay_only_with_an_image() {
    let mut v = Viewer::new(WindowMode::Normal);
    let pos = OverlayPosition::clamped(300, 200);
    assert!(!v.enter_overlay(pos));
    assert_eq!(v.mode, WindowMode::Normal);
    assert_eq!(v.overlay, OverlayPosition::default());
    v.image.load(640, 480);
    assert!(v.enter_overlay(pos));
    assert_eq!(v.mode, WindowMode::Overlay);
    assert_eq!(v.overlay, pos);
}

#[test]
fn viewer_overlay_drag_and_exit() {
    let mut v = Viewer::new(WindowMode::Normal);
    v.image.load(640, 480);
    v.enter_overlay(OverlayPosition::default());
    v.drag_overlay(-20, 450);
    assert_eq!(v.overlay, OverlayPosition { margin_left: 0, margin_top: 450 });
    v.exit_overlay();
    assert_eq!(v.mode, WindowMode::Normal);
    assert_eq!(v.overlay, OverlayPosition { margin_left: 0, margin_top: 450 });
}
