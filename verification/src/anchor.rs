//! Anchor positions for manager overlays.
//!
//! An anchor names the reference point on the parent drawing area against
//! which an overlay is placed. The managers accept only the six edge and
//! edge-center anchors; the three vertically centered positions would need
//! diagonal stacking math and are rejected at configuration time.

use vstd::prelude::*;

verus! {

/// A reference point within the parent drawing area: one of the nine
/// combinations of {left, center, right} and {top, center, bottom}.
///
/// Only the six positions with a top or bottom edge are valid manager
/// anchors; see [`Anchor::is_valid`].
#[derive(Debug, Clone, Copy, PartialEq, Eq, Hash, Structural)]
pub enum Anchor {
    /// Top-left corner of the parent area.
    LeftTop,
    /// Middle of the parent area's top edge.
    CenterTop,
    /// Top-right corner of the parent area.
    RightTop,
    /// Middle of the parent area's left edge (not a valid manager anchor).
    LeftCenter,
    /// Center of the parent area (not a valid manager anchor).
    Center,
    /// Middle of the parent area's right edge (not a valid manager anchor).
    RightCenter,
    /// Bottom-left corner of the parent area.
    LeftBottom,
    /// Middle of the parent area's bottom edge.
    CenterBottom,
    /// Bottom-right corner of the parent area.
    RightBottom,
}

impl Anchor {
    /// A manager anchor must sit on the top or the bottom edge.
    pub open spec fn spec_is_valid(self) -> bool {
        self.spec_is_top() || self.spec_is_bottom()
    }

    /// Whether the anchor sits on the top edge.
    pub open spec fn spec_is_top(self) -> bool {
        self == Anchor::LeftTop || self == Anchor::CenterTop || self == Anchor::RightTop
    }

    /// Whether the anchor sits on the bottom edge.
    pub open spec fn spec_is_bottom(self) -> bool {
        self == Anchor::LeftBottom || self == Anchor::CenterBottom || self == Anchor::RightBottom
    }

    /// Runtime check matching [`Anchor::spec_is_valid`]; callers test this
    /// before configuring a manager with an anchor of unknown origin.
    #[verifier::when_used_as_spec(spec_is_valid)]
    pub fn is_valid(self) -> (r: bool)
        ensures
            r == self.spec_is_valid(),
    {
        match self {
            Anchor::LeftTop => true,
            Anchor::CenterTop => true,
            Anchor::RightTop => true,
            Anchor::LeftBottom => true,
            Anchor::CenterBottom => true,
            Anchor::RightBottom => true,
            _ => false,
        }
    }

    /// Runtime check matching [`Anchor::spec_is_bottom`]: bottom-anchored
    /// stacks grow upward, with the newest entry nearest the bottom edge.
    #[verifier::when_used_as_spec(spec_is_bottom)]
    pub fn is_bottom(self) -> (r: bool)
        ensures
            r == self.spec_is_bottom(),
    {
        match self {
            Anchor::LeftBottom => true,
            Anchor::CenterBottom => true,
            Anchor::RightBottom => true,
            _ => false,
        }
    }
}

} // verus!
