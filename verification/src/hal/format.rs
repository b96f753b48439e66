//! Image formats, as far as commands depend on them.
use vstd::prelude::*;

verus! {

/// A set of the aspects that an image can have.
#[derive(Clone, Copy, Debug, PartialEq, Eq)]
pub struct Aspects {
    pub color: bool,
    pub depth: bool,
    pub stencil: bool,
}

impl Aspects {
    /// The colour aspect alone.
    pub open spec fn spec_color() -> Aspects {
        Aspects { color: true, depth: false, stencil: false }
    }

    /// The depth and the stencil aspect.
    pub open spec fn spec_depth_stencil() -> Aspects {
        Aspects { color: false, depth: true, stencil: true }
    }

    /// Every aspect of `other` is one of `self`.
    pub open spec fn spec_contains(self, other: Aspects) -> bool {
        &&& other.color ==> self.color
        &&& other.depth ==> self.depth
        &&& other.stencil ==> self.stencil
    }

    /// The colour aspect alone.
    pub fn color() -> (aspects: Aspects)
        ensures
            aspects == Aspects::spec_color(),
    {
        Aspects { color: true, depth: false, stencil: false }
    }

    /// The depth and the stencil aspect.
    pub fn depth_stencil() -> (aspects: Aspects)
        ensures
            aspects == Aspects::spec_depth_stencil(),
    {
        Aspects { color: false, depth: true, stencil: true }
    }

    /// Whether every aspect of `other` is one of `self`.
    pub fn contains(self, other: Aspects) -> (contained: bool)
        ensures
            contained == self.spec_contains(other),
    {
        (!other.color || self.color) && (!other.depth || self.depth) && (!other.stencil
            || self.stencil)
    }
}

} // verus!
