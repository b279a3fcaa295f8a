use vstd::prelude::*;

verus! {

/// The rotation recorded for a raster cache that holds nothing yet.
pub const NO_CACHED_ROTATION: i32 = -1;

/// What the viewer knows of the image it shows, in whole pixels: whether one is
/// loaded, its size as loaded, and how many quarter turns clockwise it is shown
/// rotated by.
#[derive(Clone, Copy, Debug, PartialEq, Eq, Structural)]
pub struct ImageState {
    pub loaded: bool,
    pub rotation: i32,
    pub original_width: i32,
    pub original_height: i32,
}

/// Size of a `w` x `h` image once turned by `rotation` quarter turns: an odd
/// number of turns swaps the sides.
pub open spec fn rotated_size_spec(w: int, h: int, rotation: int) -> (int, int) {
    if rotation % 2 == 0 {
        (w, h)
    } else {
        (h, w)
    }
}

impl ImageState {
    /// The rotation is a number of quarter turns below a full turn, and the sizes
    /// are not negative.
    pub open spec fn wf(&self) -> bool {
        &&& 0 <= self.rotation < 4
        &&& self.original_width >= 0
        &&& self.original_height >= 0
    }

    /// Takes a newly loaded image of `width` x `height`, shown unrotated.
    pub fn load(&mut self, width: i32, height: i32)
        requires
            width >= 0,
            height >= 0,
        ensures
            final(self).loaded,
            final(self).rotation == 0,
            final(self).original_width == width,
            final(self).original_height == height,
            final(self).wf(),
    {
        self.loaded = true;
        self.rotation = 0;
        self.original_width = width;
        self.original_height = height;
    }

    /// Turns a loaded image a quarter turn further clockwise; without an image
    /// nothing changes. Returns whether the image turned.
    pub fn rotate(&mut self) -> (turned: bool)
        requires
            old(self).wf(),
        ensures
            turned == old(self).loaded,
            final(self).wf(),
            final(self).loaded == old(self).loaded,
            final(self).original_width == old(self).original_width,
            final(self).original_height == old(self).original_height,
            final(self).rotation == if old(self).loaded {
                (old(self).rotation + 1) % 4
            } else {
                old(self).rotation as int
            },
    {
        if self.loaded {
            self.rotation = (self.rotation + 1) % 4;
            true
        } else {
            false
        }
    }

    /// Size of the image as shown, before scaling: width and height swap places
    /// after an odd number of quarter turns.
    pub fn rotated_size(&self) -> (r: (i32, i32))
        requires
            self.wf(),
        ensures
            (r.0 as int, r.1 as int) == rotated_size_spec(
                self.original_width as int,
                self.original_height as int,
                self.rotation as int,
            ),
    {
        if self.rotation % 2 == 0 {
            (self.original_width, self.original_height)
        } else {
            (self.original_height, self.original_width)
        }
    }

    /// Whether the cached unrotated raster of the image must be drawn anew: it
    /// is, for a loaded image, when there is no cached raster or it was made for
    /// another rotation.
    pub fn needs_rerender(&self, cached_rotation: i32, has_cached_raster: bool) -> (r: bool)
        ensures
            r == (self.loaded && (cached_rotation != self.rotation || !has_cached_raster)),
    {
        self.loaded && (cached_rotation != self.rotation || !has_cached_raster)
    }
}

/// Four quarter turns bring an image back to where it started, and a half turn
/// leaves its shown size as it was.
pub proof fn lemma_full_turn(w: int, h: int, rotation: int)
    requires
        0 <= rotation < 4,
    ensures
        ((((rotation + 1) % 4 + 1) % 4 + 1) % 4 + 1) % 4 == rotation,
        rotated_size_spec(w, h, ((rotation + 1) % 4 + 1) % 4) == rotated_size_spec(w, h, rotation),
{
}

impl Default for ImageState {
    fn default() -> (r: Self)
        ensures
            !r.loaded,
            r.rotation == 0,
            r.original_width == 0,
            r.original_height == 0,
            r.wf(),
    {
        ImageState { loaded: false, rotation: 0, original_width: 0, original_height: 0 }
    }
}

} // verus!
