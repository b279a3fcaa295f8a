use vstd::prelude::*;
use crate::image::ImageState;
use crate::overlay::{margin_of, OverlayPosition, DEFAULT_MARGIN};

verus! {

/// Which window shows the image: the main window, or the always-on-top overlay.
#[derive(Clone, Copy, Debug, PartialEq, Eq, Structural)]
pub enum WindowMode {
    Normal,
    Overlay,
}

/// The state that the viewer's event handlers share, less what only the
/// toolkit holds (the bitmap, the zoom factor and the pan offset).
#[derive(Clone, Copy, Debug, PartialEq, Eq, Structural)]
pub struct Viewer {
    pub image: ImageState,
    pub mode: WindowMode,
    pub overlay: OverlayPosition,
}

impl Viewer {
    pub open spec fn wf(&self) -> bool {
        self.image.wf() && self.overlay.wf()
    }

    /// A viewer with no image yet, in the given mode, with the overlay at its
    /// default place.
    pub fn new(mode: WindowMode) -> (r: Self)
        ensures
            r.wf(),
            r.mode == mode,
            !r.image.loaded,
            r.image.rotation == 0,
            r.overlay.margin_left == DEFAULT_MARGIN,
            r.overlay.margin_top == DEFAULT_MARGIN,
    {
        Viewer { image: ImageState::default(), mode, overlay: OverlayPosition::default() }
    }

    /// Switches to the overlay, placed at `pos`, when an image is loaded; without
    /// one nothing changes. Returns whether the switch took place, after which
    /// the main window is hidden and the overlay opened.
    pub fn enter_overlay(&mut self, pos: OverlayPosition) -> (entered: bool)
        requires
            old(self).wf(),
            pos.wf(),
        ensures
            final(self).wf(),
            entered == old(self).image.loaded,
            final(self).image == old(self).image,
            entered ==> final(self).mode == WindowMode::Overlay && final(self).overlay == pos,
            !entered ==> *final(self) == *old(self),
    {
        if self.image.loaded {
            self.mode = WindowMode::Overlay;
            self.overlay = pos;
            true
        } else {
            false
        }
    }

    /// Leaves the overlay for the main window. The overlay keeps its place for
    /// the next time.
    pub fn exit_overlay(&mut self)
        requires
            old(self).wf(),
        ensures
            final(self).wf(),
            final(self).mode == WindowMode::Normal,
            final(self).image == old(self).image,
            final(self).overlay == old(self).overlay,
    {
        self.mode = WindowMode::Normal;
    }

    /// Moves the overlay to the margins (`left`, `top`) reached by a drag, each
    /// kept from going negative.
    pub fn drag_overlay(&mut self, left: i32, top: i32)
        requires
            old(self).wf(),
        ensures
            final(self).wf(),
            final(self).overlay.margin_left == margin_of(left as int),
            final(self).overlay.margin_top == margin_of(top as int),
            final(self).mode == old(self).mode,
            final(self).image == old(self).image,
    {
        self.overlay = OverlayPosition::clamped(left, top);
    }
}

} // verus!
