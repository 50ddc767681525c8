use vstd::prelude::*;

verus! {

/// The eight places around the safe area where a piece of viewport chrome
/// can be anchored.
#[derive(Clone, Copy, Debug, PartialEq, Eq, Structural, Hash)]
pub enum ChromeAnchor {
    TopLeft,
    TopCentre,
    TopRight,
    LeftCentre,
    RightCentre,
    BottomLeft,
    BottomCentre,
    BottomRight,
}

impl ChromeAnchor {
    /// Whether a stack at this anchor grows downward from the top edge.
    pub open spec fn spec_grows_down(self) -> bool {
        self is TopLeft || self is TopCentre || self is TopRight
    }

    /// Whether this anchor sits halfway down a side edge.
    pub open spec fn spec_is_side(self) -> bool {
        self is LeftCentre || self is RightCentre
    }

    /// A stack at a top anchor grows down; every other stack grows up or
    /// is centred on its side.
    pub fn grows_down(self) -> (result: bool)
        ensures
            result == self.spec_grows_down(),
    {
        matches!(self, Self::TopLeft | Self::TopCentre | Self::TopRight)
    }

    /// The two anchors centred on a side edge.
    pub fn is_side(self) -> (result: bool)
        ensures
            result == self.spec_is_side(),
    {
        matches!(self, Self::LeftCentre | Self::RightCentre)
    }
}

} // verus!
