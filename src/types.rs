use vstd::prelude::*;

verus! {

/// A rectangle: origin and extent, in pixels.
#[derive(Clone, Copy, Debug, PartialEq, Eq, Structural)]
pub struct Rect {
    pub x: u32,
    pub y: u32,
    pub width: u32,
    pub height: u32,
}

/// A width and height in pixels.
#[derive(Clone, Copy, Debug, PartialEq, Eq, Structural)]
pub struct Size {
    pub width: u32,
    pub height: u32,
}

impl Size {
    /// Number of pixels covered by this size.
    pub open spec fn area(self) -> nat {
        (self.width as nat) * (self.height as nat)
    }

    /// Returns the linear size (width times height).
    pub fn linear(&self) -> (r: usize)
        requires
            self.area() <= u32::MAX,
        ensures
            r as nat == self.area(),
    {
        proof {
            assert((self.width as nat) * (self.height as nat) <= u32::MAX);
        }
        (self.width * self.height) as usize
    }
}

impl From<(u32, u32)> for Size {
    fn from(value: (u32, u32)) -> (r: Size)
        ensures
            r == (Size { width: value.0, height: value.1 }),
    {
        Size { width: value.0, height: value.1 }
    }
}

impl vstd::std_specs::convert::FromSpecImpl<(u32, u32)> for Size {
    open spec fn obeys_from_spec() -> bool {
        true
    }

    open spec fn from_spec(v: (u32, u32)) -> Size {
        Size { width: v.0, height: v.1 }
    }
}

impl Size {
    /// The size as a `(width, height)` pair.
    pub fn into_pair(self) -> (r: (u32, u32))
        ensures
            r == (self.width, self.height),
    {
        (self.width, self.height)
    }
}

} // verus!
