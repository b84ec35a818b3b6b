//! Where the description of the image is stamped on it. The stamping itself
//! (font rasterising) is done by the program around this crate.

use vstd::prelude::*;
use vstd::utf8::encode_utf8;

use crate::configuration::BingWallpaperConfiguration;
use crate::text::same_text;

verus! {

/// Height of a line of text, in pixels.
pub const LINE_HEIGHT: i32 = 30;

/// Margin from a left or top edge, in pixels.
pub const EDGE_MARGIN: i32 = 60;

/// Width reserved per byte of the second line, for a right-hand corner.
pub const CHAR_WIDTH: i32 = 12;

/// Text overlay.
pub struct TextOverlay {}

/// The corner of the image where the description is stamped.
#[derive(PartialEq, Eq, Structural, Clone, Copy, Debug)]
pub enum OverlayCorner {
    TopLeft,
    TopRight,
    BottomLeft,
    BottomRight,
}

/// Where the two lines of the description are drawn: the left edge of both,
/// and the top of each.
#[derive(PartialEq, Eq, Structural, Clone, Copy, Debug)]
pub struct OverlayPlacement {
    pub x: i32,
    pub y: i32,
    pub second_line_y: i32,
}

/// The upper-case form of `s`, as Unicode maps each character.
pub uninterp spec fn upper_of(s: Seq<char>) -> Seq<char>;

/// Relies on `str::to_uppercase`: the upper-case mapping of Unicode, which
/// depends on the characters alone.
#[verifier::external_body]
fn uppercase(s: &str) -> (r: String)
    ensures
        r@ == upper_of(s@),
{
    s.to_uppercase()
}

/// The corner named by an upper-case position; an unknown name means the top
/// left corner.
pub open spec fn corner_named(upper: Seq<char>) -> OverlayCorner {
    if upper == "TOP_RIGHT"@ {
        OverlayCorner::TopRight
    } else if upper == "BOTTOM_LEFT"@ {
        OverlayCorner::BottomLeft
    } else if upper == "BOTTOM_RIGHT"@ {
        OverlayCorner::BottomRight
    } else {
        OverlayCorner::TopLeft
    }
}

/// `v` brought into the range of `i32`.
pub open spec fn clamp_i32(v: int) -> int {
    if v < i32::MIN {
        i32::MIN as int
    } else if v > i32::MAX {
        i32::MAX as int
    } else {
        v
    }
}

/// Left edge of the text before its offset: a right-hand corner leaves room
/// for the second line, `line2_bytes` bytes long.
pub open spec fn base_x(corner: OverlayCorner, width: int, line2_bytes: int) -> int {
    match corner {
        OverlayCorner::TopRight | OverlayCorner::BottomRight => width - CHAR_WIDTH * line2_bytes
            - 55,
        _ => EDGE_MARGIN as int,
    }
}

/// Top of the first line before its offset: a bottom corner leaves room for
/// two lines.
pub open spec fn base_y(corner: OverlayCorner, height: int) -> int {
    match corner {
        OverlayCorner::BottomLeft | OverlayCorner::BottomRight => height - LINE_HEIGHT * 2
            - EDGE_MARGIN - 5,
        _ => EDGE_MARGIN as int,
    }
}

/// The placement in an image of `width` by `height` pixels, the text shifted
/// by the offsets, each coordinate brought into the range of `i32`.
pub open spec fn placement_in(
    corner: OverlayCorner,
    width: int,
    height: int,
    offset_x: int,
    offset_y: int,
    line2_bytes: int,
) -> OverlayPlacement {
    let x = base_x(corner, width, line2_bytes) + offset_x;
    let y = base_y(corner, height) + offset_y;
    OverlayPlacement {
        x: clamp_i32(x) as i32,
        y: clamp_i32(y) as i32,
        second_line_y: clamp_i32(y + LINE_HEIGHT + 5) as i32,
    }
}

/// The value of an optional offset.
pub open spec fn offset_value(offset: Option<u32>) -> int {
    match offset {
        Some(v) => v as int,
        None => 0,
    }
}

/// The placement for a configuration whose position is `Some`, the second
/// line being `line2_bytes` bytes long.
pub open spec fn configured_placement(
    configuration: BingWallpaperConfiguration,
    line2_bytes: int,
) -> OverlayPlacement {
    placement_in(
        corner_named(upper_of(configuration.text_overlay_position->0@)),
        configuration.image_dimension_width as int,
        configuration.image_dimension_height as int,
        offset_value(configuration.text_overlay_position_offset_x),
        offset_value(configuration.text_overlay_position_offset_y),
        line2_bytes,
    )
}

/// The length in bytes of the UTF-8 form of `s`, as `str::len` gives it.
pub open spec fn byte_len(s: Seq<char>) -> int {
    encode_utf8(s).len() as usize as int
}

/// Returns `v` brought into the range of `i32`.
fn to_i32(v: i128) -> (r: i32)
    ensures
        r as int == clamp_i32(v as int),
{
    if v < i32::MIN as i128 {
        i32::MIN
    } else if v > i32::MAX as i128 {
        i32::MAX
    } else {
        v as i32
    }
}

impl OverlayCorner {
    /// Returns the corner named by an upper-case position.
    pub fn from_upper(upper: &str) -> (r: OverlayCorner)
        ensures
            r == corner_named(upper@),
    {
        if same_text(upper, "TOP_RIGHT") {
            OverlayCorner::TopRight
        } else if same_text(upper, "BOTTOM_LEFT") {
            OverlayCorner::BottomLeft
        } else if same_text(upper, "BOTTOM_RIGHT") {
            OverlayCorner::BottomRight
        } else {
            OverlayCorner::TopLeft
        }
    }

    /// Returns the corner named by a configured position, in any case.
    pub fn from_position(position: &str) -> (r: OverlayCorner)
        ensures
            r == corner_named(upper_of(position@)),
    {
        let upper = uppercase(position);
        OverlayCorner::from_upper(upper.as_str())
    }
}

impl TextOverlay {
    /// Returns where the text goes in an image of `width` by `height` pixels,
    /// for the given corner and offsets, the second line being `line2_bytes`
    /// bytes long.
    pub fn placement_in(
        corner: OverlayCorner,
        width: u32,
        height: u32,
        offset_x: u32,
        offset_y: u32,
        line2_bytes: usize,
    ) -> (r: OverlayPlacement)
        ensures
            r == placement_in(
                corner,
                width as int,
                height as int,
                offset_x as int,
                offset_y as int,
                line2_bytes as int,
            ),
    {
        let bx: i128 = match corner {
            OverlayCorner::TopRight | OverlayCorner::BottomRight => width as i128 - CHAR_WIDTH as i128
                * line2_bytes as i128 - 55,
            _ => EDGE_MARGIN as i128,
        };
        let by: i128 = match corner {
            OverlayCorner::BottomLeft | OverlayCorner::BottomRight => height as i128 - LINE_HEIGHT
                as i128 * 2 - EDGE_MARGIN as i128 - 5,
            _ => EDGE_MARGIN as i128,
        };
        let x = bx + offset_x as i128;
        let y = by + offset_y as i128;
        OverlayPlacement { x: to_i32(x), y: to_i32(y), second_line_y: to_i32(y + LINE_HEIGHT as i128 + 5) }
    }

    /// Returns where the description goes, the second line being `line2`
    /// (whose length counts in UTF-8 bytes):
    /// `None` when the configuration sets no position, which means no stamp.
    pub fn placement(configuration: &BingWallpaperConfiguration, line2: &str) -> (r: Option<
        OverlayPlacement,
    >)
        ensures
            configuration.text_overlay_position is None ==> r is None,
            configuration.text_overlay_position is Some ==> r == Some(
                configured_placement(*configuration, byte_len(line2@)),
            ),
    {
        match &configuration.text_overlay_position {
            None => None,
            Some(position) => {
                let corner = OverlayCorner::from_position(position.as_str());
                let offset_x = match configuration.text_overlay_position_offset_x {
                    Some(v) => v,
                    None => 0,
                };
                let offset_y = match configuration.text_overlay_position_offset_y {
                    Some(v) => v,
                    None => 0,
                };
                Some(
                    TextOverlay::placement_in(
                        corner,
                        configuration.image_dimension_width,
                        configuration.image_dimension_height,
                        offset_x,
                        offset_y,
                        line2.len(),
                    ),
                )
            },
        }
    }
}

} // verus!
