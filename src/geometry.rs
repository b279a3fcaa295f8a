use vstd::prelude::*;

verus! {

/// Height in pixels reserved for the custom title bar above the image.
pub const TITLEBAR_HEIGHT: i32 = 28;

/// Smallest width the main window is sized to.
pub const MIN_WIN_WIDTH: i32 = 400;

/// Smallest height the main window is sized to.
pub const MIN_WIN_HEIGHT: i32 = 300;

/// Space kept free between a fitted window and the screen's edges.
pub const SCREEN_MARGIN: i32 = 100;

/// Screen size assumed when no monitor can be asked for its own.
pub const FALLBACK_SCREEN_WIDTH: i32 = 1920;

/// Screen height assumed when no monitor can be asked for its own.
pub const FALLBACK_SCREEN_HEIGHT: i32 = 1080;

/// Smallest side of the overlay window.
pub const MIN_OVERLAY_SIDE: i32 = 50;

/// `v` clamped into `[lo, hi]`.
pub open spec fn clamp_spec(v: int, lo: int, hi: int) -> int {
    if v < lo {
        lo
    } else if v > hi {
        hi
    } else {
        v
    }
}

/// Whether a screen of this size leaves room for a window of the minimum size.
pub open spec fn screen_fits_minimum(screen_w: int, screen_h: int) -> bool {
    &&& screen_w - SCREEN_MARGIN >= MIN_WIN_WIDTH
    &&& screen_h - SCREEN_MARGIN >= MIN_WIN_HEIGHT
}

/// The window size that fits an image of `img_w` x `img_h` on the given screen:
/// the width and the height plus the title bar, each clamped between the minimum
/// window size and the screen size less the margin.
pub open spec fn target_size_spec(img_w: int, img_h: int, screen_w: int, screen_h: int) -> (int, int) {
    (
        clamp_spec(img_w, MIN_WIN_WIDTH as int, screen_w - SCREEN_MARGIN),
        clamp_spec(img_h + TITLEBAR_HEIGHT, MIN_WIN_HEIGHT as int, screen_h - SCREEN_MARGIN),
    )
}

fn clamp_i32(v: i32, lo: i32, hi: i32) -> (r: i32)
    requires
        lo <= hi,
    ensures
        r == clamp_spec(v as int, lo as int, hi as int),
{
    if v < lo {
        lo
    } else if v > hi {
        hi
    } else {
        v
    }
}

/// Window size (width, height) that fits an image of `img_w` x `img_h` on a
/// screen of `screen_w` x `screen_h`.
pub fn calc_target_size(img_w: i32, img_h: i32, screen_w: i32, screen_h: i32) -> (r: (i32, i32))
    requires
        screen_fits_minimum(screen_w as int, screen_h as int),
        img_h + TITLEBAR_HEIGHT <= i32::MAX,
    ensures
        (r.0 as int, r.1 as int) == target_size_spec(img_w as int, img_h as int, screen_w as int, screen_h as int),
        MIN_WIN_WIDTH <= r.0 <= screen_w - SCREEN_MARGIN,
        MIN_WIN_HEIGHT <= r.1 <= screen_h - SCREEN_MARGIN,
{
    let max_w = screen_w - SCREEN_MARGIN;
    let max_h = screen_h - SCREEN_MARGIN;
    let w = clamp_i32(img_w, MIN_WIN_WIDTH, max_w);
    let h = clamp_i32(img_h + TITLEBAR_HEIGHT, MIN_WIN_HEIGHT, max_h);
    (w, h)
}

/// Whether an image shown at `scaled_w` x `scaled_h` reaches the largest window
/// that fits on the screen, in width or in height (title bar included).
pub open spec fn at_screen_limit_spec(scaled_w: int, scaled_h: int, screen_w: int, screen_h: int) -> bool {
    scaled_w >= screen_w - SCREEN_MARGIN || scaled_h >= screen_h - SCREEN_MARGIN - TITLEBAR_HEIGHT
}

/// Whether an image shown at `scaled_w` x `scaled_h` has reached the edge of a
/// screen of `screen_w` x `screen_h`: from there on the window stops growing.
pub fn is_at_screen_limit(scaled_w: i32, scaled_h: i32, screen_w: i32, screen_h: i32) -> (r: bool)
    ensures
        r == at_screen_limit_spec(scaled_w as int, scaled_h as int, screen_w as int, screen_h as int),
{
    let max_w = screen_w as i64 - SCREEN_MARGIN as i64;
    let max_h = screen_h as i64 - SCREEN_MARGIN as i64 - TITLEBAR_HEIGHT as i64;
    scaled_w as i64 >= max_w || scaled_h as i64 >= max_h
}

/// The size of the first monitor where one was found, else the fallback size.
pub fn screen_size_or_fallback(monitor: Option<(i32, i32)>) -> (r: (i32, i32))
    ensures
        r == (match monitor {
            Some(size) => size,
            None => (FALLBACK_SCREEN_WIDTH, FALLBACK_SCREEN_HEIGHT),
        }),
{
    match monitor {
        Some(size) => size,
        None => (FALLBACK_SCREEN_WIDTH, FALLBACK_SCREEN_HEIGHT),
    }
}

/// The sizes the main window and its drawing area are set to so that the window
/// snaps to the image: the window takes the target size, the drawing area the
/// same width and the height below the title bar.
#[derive(Clone, Copy, Debug, PartialEq, Eq, Structural)]
pub struct WindowFit {
    pub width: i32,
    pub height: i32,
    pub content_width: i32,
    pub content_height: i32,
}

/// Window and drawing-area sizes for an image shown at `scaled_w` x `scaled_h`.
pub fn fit_window(scaled_w: i32, scaled_h: i32, screen_w: i32, screen_h: i32) -> (r: WindowFit)
    requires
        screen_fits_minimum(screen_w as int, screen_h as int),
        scaled_h + TITLEBAR_HEIGHT <= i32::MAX,
    ensures
        (r.width as int, r.height as int) == target_size_spec(scaled_w as int, scaled_h as int, screen_w as int, screen_h as int),
        r.content_width == r.width,
        r.content_height == r.height - TITLEBAR_HEIGHT,
        r.content_height >= MIN_WIN_HEIGHT - TITLEBAR_HEIGHT,
{
    let (w, h) = calc_target_size(scaled_w, scaled_h, screen_w, screen_h);
    WindowFit { width: w, height: h, content_width: w, content_height: h - TITLEBAR_HEIGHT }
}

/// One side of the overlay window for an image side of `scaled` pixels: the
/// overlay never shrinks below a small minimum.
pub fn overlay_side(scaled: i32) -> (r: i32)
    ensures
        r == if scaled >= MIN_OVERLAY_SIDE { scaled } else { MIN_OVERLAY_SIDE },
{
    if scaled >= MIN_OVERLAY_SIDE {
        scaled
    } else {
        MIN_OVERLAY_SIDE
    }
}

} // verus!
