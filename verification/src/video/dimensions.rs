use vstd::prelude::*;

verus! {

/// The size of a picture in pixels.
#[derive(Debug, Clone, Copy, PartialEq, Eq, Hash, Structural)]
pub struct Dimensions {
    pub width: u32,
    pub height: u32,
}

impl Dimensions {
    pub fn new(width: u32, height: u32) -> (d: Dimensions)
        ensures
            d.width == width,
            d.height == height,
    {
        Dimensions { width, height }
    }

    /// Whether the picture has any pixels: neither side is zero.
    pub open spec fn is_positive(self) -> bool {
        self.width != 0 && self.height != 0
    }

    /// Whether the picture has any pixels: neither side is zero.
    pub fn has_area(&self) -> (positive: bool)
        ensures
            positive == self.is_positive(),
    {
        self.width != 0 && self.height != 0
    }
}

impl Default for Dimensions {
    /// The empty picture.
    fn default() -> (d: Dimensions)
        ensures
            d.width == 0,
            d.height == 0,
    {
        Dimensions { width: 0, height: 0 }
    }
}

/// Whether a size that has to be there is there and has pixels.
pub open spec fn required_positive(size: Option<Dimensions>) -> bool {
    size matches Some(d) && d.is_positive()
}

/// Whether a size that may be left out has pixels where it is there.
pub open spec fn optional_positive(size: Option<Dimensions>) -> bool {
    size matches Some(d) ==> d.is_positive()
}

} // verus!
