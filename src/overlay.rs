use vstd::prelude::*;
use crate::geometry::TITLEBAR_HEIGHT;

verus! {

/// Margin of the overlay on either side before it has been placed.
pub const DEFAULT_MARGIN: i32 = 100;

/// `x / 2` rounded toward zero, as integer division does on machine integers.
pub open spec fn half_toward_zero(x: int) -> int {
    if x >= 0 {
        x / 2
    } else {
        -((-x) / 2)
    }
}

fn half_i64(x: i64) -> (r: i64)
    ensures
        r == half_toward_zero(x as int),
{
    x / 2
}

/// A margin as the overlay window can take it: never negative, and no larger
/// than a machine integer holds.
pub open spec fn margin_of(v: int) -> int {
    if v < 0 {
        0
    } else if v > i32::MAX {
        i32::MAX as int
    } else {
        v
    }
}

fn to_margin(v: i64) -> (r: i32)
    ensures
        r == margin_of(v as int),
{
    if v < 0 {
        0
    } else if v > i32::MAX as i64 {
        i32::MAX
    } else {
        v as i32
    }
}

/// Where the overlay window stands on screen: its distance from the screen's
/// left and top edges, the anchors it is placed against.
#[derive(Clone, Copy, Debug, PartialEq, Eq, Structural)]
pub struct OverlayPosition {
    pub margin_left: i32,
    pub margin_top: i32,
}

impl OverlayPosition {
    /// Both margins are non-negative.
    pub open spec fn wf(&self) -> bool {
        self.margin_left >= 0 && self.margin_top >= 0
    }

    /// The position with the given margins, each raised to zero where negative.
    pub fn clamped(left: i32, top: i32) -> (r: Self)
        ensures
            r.margin_left == margin_of(left as int),
            r.margin_top == margin_of(top as int),
            r.wf(),
    {
        OverlayPosition { margin_left: to_margin(left as i64), margin_top: to_margin(top as i64) }
    }

    /// The position that centres an image of `scaled_w` x `scaled_h` on a screen
    /// of `screen_w` x `screen_h`, kept within the screen's top left corner.
    pub fn centered(screen_w: i32, screen_h: i32, scaled_w: i32, scaled_h: i32) -> (r: Self)
        ensures
            r.margin_left == margin_of(half_toward_zero(screen_w - scaled_w)),
            r.margin_top == margin_of(half_toward_zero(screen_h - scaled_h)),
            r.wf(),
    {
        let left = half_i64(screen_w as i64 - scaled_w as i64);
        let top = half_i64(screen_h as i64 - scaled_h as i64);
        OverlayPosition { margin_left: to_margin(left), margin_top: to_margin(top) }
    }

    /// Best estimate of where the image of the main window stands on screen, so
    /// that the overlay can take its place. The main window's own position cannot
    /// be asked of the compositor, so it is taken to be centred on the screen; the
    /// image stands at (`img_x`, `img_y`) in the drawing area, which lies below
    /// the title bar.
    pub fn from_window_estimate(
        screen_w: i32,
        screen_h: i32,
        win_w: i32,
        win_h: i32,
        img_x: i32,
        img_y: i32,
    ) -> (r: Self)
        ensures
            r.margin_left == margin_of(half_toward_zero(screen_w - win_w) + img_x),
            r.margin_top == margin_of(half_toward_zero(screen_h - win_h) + TITLEBAR_HEIGHT + img_y),
            r.wf(),
    {
        let win_x = half_i64(screen_w as i64 - win_w as i64);
        let win_y = half_i64(screen_h as i64 - win_h as i64);
        let left = win_x + img_x as i64;
        let top = win_y + TITLEBAR_HEIGHT as i64 + img_y as i64;
        OverlayPosition { margin_left: to_margin(left), margin_top: to_margin(top) }
    }
}

impl Default for OverlayPosition {
    fn default() -> (r: Self)
        ensures
            r.margin_left == DEFAULT_MARGIN,
            r.margin_top == DEFAULT_MARGIN,
            r.wf(),
    {
        OverlayPosition { margin_left: DEFAULT_MARGIN, margin_top: DEFAULT_MARGIN }
    }
}

} // verus!
