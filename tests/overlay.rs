use bingwallpaper::configuration::BingWallpaperConfiguration;
use bingwallpaper::textoverlay::{OverlayCorner, OverlayPlacement, TextOverlay};

fn configuration(position: &str, x: Option<u32>, y: Option<u32>) -> BingWallpaperConfiguration {
    let mut c = BingWallpaperConfiguration::default();
    c.text_overlay_position = Some(position.to_string());
    c.text_overlay_position_offset_x = x;
    c.text_overlay_position_offset_y = y;
    c
}

#[test]
fn corner_names_in_any_case() {
    assert_eq!(OverlayCorner::from_position("top_right"), OverlayCorner::TopRight);
    assert_eq!(OverlayCorner::from_position("Bottom_Left"), OverlayCorner::BottomLeft);
    assert_eq!(OverlayCorner::from_position("BOTTOM_RIGHT"), OverlayCorner::BottomRight);
    assert_eq!(OverlayCorner::from_position("TOP_LEFT"), OverlayCorner::TopLeft);
    assert_eq!(OverlayCorner::from_position("middle"), OverlayCorner::TopLeft);
    assert_eq!(OverlayCorner::from_upper("top_right"), OverlayCorner::TopLeft);
}

#[test]
fn placements_of_the_four_corners() {
    let p = |pos: &str| TextOverlay::placement(&configuration(pos, None, None), "abc").unwrap();
    assert_eq!(p("TOP_LEFT"), OverlayPlacement { x: 60, y: 60, second_line_y: 95 });
    assert_eq!(p("TOP_RIGHT"), OverlayPlacement { x: 1829, y: 60, second_line_y: 95 });
    assert_eq!(p("BOTTOM_LEFT"), OverlayPlacement { x: 60, y: 955, second_line_y: 990 });
    assert_eq!(p("bottom_right"), OverlayPlacement { x: 1829, y: 955, second_line_y: 990 });
    assert_eq!(p("elsewhere"), OverlayPlacement { x: 60, y: 60, second_line_y: 95 });
}

#[test]
fn offsets_shift_the_text() {
    let c = configuration("TOP_LEFT", Some(10), Some(20));
    assert_eq!(
        TextOverlay::placement(&c, "x"),
        Some(OverlayPlacement { x: 70, y: 80, second_line_y: 115 })
    );
}

#[test]
fn right_corner_counts_bytes_of_the_second_line() {
    // "é" takes two bytes
    let c = configuration("TOP_RIGHT", None, None);
    assert_eq!(TextOverlay::placement(&c, "é").unwrap().x, 1920 - 24 - 55);
}

#[test]
fn coordinates_stay_in_range() {
    let r = TextOverlay::placement_in(OverlayCorner::BottomRight, u32::MAX, u32::MAX, u32::MAX, u32::MAX, 0);
    assert_eq!(r, OverlayPlacement { x: i32::MAX, y: i32::MAX, second_line_y: i32::MAX });
    let r = TextOverlay::placement_in(OverlayCorner::TopRight, 0, 0, 0, 0, usize::MAX);
    assert_eq!(r.x, i32::MIN);
}
