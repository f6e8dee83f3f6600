use vstd::prelude::*;

verus! {

/// The discretized position of a normalized pivot: one of the nine named
/// points of a box (corners, edge midpoints, centre), or `Custom` when the
/// pivot lies at none of them.
#[derive(Clone, Copy, Debug, PartialEq, Eq, Structural, Hash)]
pub enum Anchor {
    Custom,
    TopLeft,
    TopCenter,
    TopRight,
    CenterLeft,
    Center,
    CenterRight,
    BottomLeft,
    BottomCenter,
    BottomRight,
}

} // verus!
