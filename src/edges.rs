use vstd::prelude::*;

verus! {

/// Distance in pixels from the window's border within which a drag resizes the
/// window instead of moving the image.
pub const EDGE_SIZE: i32 = 8;

/// The edge or corner of the window that a drag near its border resizes.
#[derive(Clone, Copy, Debug, PartialEq, Eq, Structural)]
pub enum ResizeEdge {
    NorthWest,
    SouthWest,
    NorthEast,
    SouthEast,
    West,
    East,
    North,
    South,
}

/// The edge that a pointer near the given borders picks. A corner wins over a
/// side, the left border over the right and the top border over the bottom.
pub open spec fn resize_edge_spec(on_left: bool, on_right: bool, on_top: bool, on_bottom: bool) -> Option<ResizeEdge> {
    if on_left && on_top {
        Some(ResizeEdge::NorthWest)
    } else if on_left && on_bottom {
        Some(ResizeEdge::SouthWest)
    } else if on_right && on_top {
        Some(ResizeEdge::NorthEast)
    } else if on_right && on_bottom {
        Some(ResizeEdge::SouthEast)
    } else if on_left {
        Some(ResizeEdge::West)
    } else if on_right {
        Some(ResizeEdge::East)
    } else if on_top {
        Some(ResizeEdge::North)
    } else if on_bottom {
        Some(ResizeEdge::South)
    } else {
        None
    }
}

/// The edge or corner to resize for a pointer that lies within `EDGE_SIZE` of
/// the borders flagged; `None` away from all of them.
pub fn resize_edge(on_left: bool, on_right: bool, on_top: bool, on_bottom: bool) -> (r: Option<ResizeEdge>)
    ensures
        r == resize_edge_spec(on_left, on_right, on_top, on_bottom),
        r is None <==> !(on_left || on_right || on_top || on_bottom),
{
    if on_left && on_top {
        Some(ResizeEdge::NorthWest)
    } else if on_left && on_bottom {
        Some(ResizeEdge::SouthWest)
    } else if on_right && on_top {
        Some(ResizeEdge::NorthEast)
    } else if on_right && on_bottom {
        Some(ResizeEdge::SouthEast)
    } else if on_left {
        Some(ResizeEdge::West)
    } else if on_right {
        Some(ResizeEdge::East)
    } else if on_top {
        Some(ResizeEdge::North)
    } else if on_bottom {
        Some(ResizeEdge::South)
    } else {
        None
    }
}

/// The name of the pointer cursor shown over each edge.
pub open spec fn cursor_name_spec(edge: ResizeEdge) -> Seq<char> {
    match edge {
        ResizeEdge::NorthWest => "nw-resize"@,
        ResizeEdge::SouthWest => "sw-resize"@,
        ResizeEdge::NorthEast => "ne-resize"@,
        ResizeEdge::SouthEast => "se-resize"@,
        ResizeEdge::West => "w-resize"@,
        ResizeEdge::East => "e-resize"@,
        ResizeEdge::North => "n-resize"@,
        ResizeEdge::South => "s-resize"@,
    }
}

impl ResizeEdge {
    /// The cursor name that announces a resize at this edge.
    pub fn cursor_name(&self) -> (r: &'static str)
        ensures
            r@ == cursor_name_spec(*self),
    {
        match self {
            ResizeEdge::NorthWest => "nw-resize",
            ResizeEdge::SouthWest => "sw-resize",
            ResizeEdge::NorthEast => "ne-resize",
            ResizeEdge::SouthEast => "se-resize",
            ResizeEdge::West => "w-resize",
            ResizeEdge::East => "e-resize",
            ResizeEdge::North => "n-resize",
            ResizeEdge::South => "s-resize",
        }
    }
}

} // verus!
