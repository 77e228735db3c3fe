use vstd::prelude::*;

verus! {

/// A width and a height in whole pixels.
#[derive(Debug, Clone, Copy, PartialEq, Eq, Structural)]
pub struct Size {
    pub width: u32,
    pub height: u32,
}

impl Size {
    /// Creates a new [`Size`].
    pub fn new(width: u32, height: u32) -> (r: Self)
        ensures
            r.width == width,
            r.height == height,
    {
        Size { width, height }
    }
}

/// A sizing policy for a track, a child or the grid itself.
#[derive(Debug, Clone, Copy, PartialEq, Eq, Structural)]
pub enum Length {
    /// As small as the content allows.
    Shrink,
    /// A fixed number of pixels.
    Fixed(u32),
    /// Take all the space that is left.
    Fill,
    /// Take a share of the space that is left, by weight.
    FillPortion(u16),
}

impl Length {
    /// The policy expands into the space that is available.
    pub open spec fn fill_like(self) -> bool {
        self is Fill || self is FillPortion
    }

    /// Whether the policy expands into the space that is available.
    pub fn is_fill(&self) -> (r: bool)
        ensures
            r == self.fill_like(),
    {
        match self {
            Length::Fill | Length::FillPortion(_) => true,
            _ => false,
        }
    }
}

/// Where content sits across a cell.
#[derive(Debug, Clone, Copy, PartialEq, Eq, Structural)]
pub enum Horizontal {
    Left,
    Center,
    Right,
}

/// Where content sits down a cell.
#[derive(Debug, Clone, Copy, PartialEq, Eq, Structural)]
pub enum Vertical {
    Top,
    Center,
    Bottom,
}

/// An inset on each of the four sides, in whole pixels.
#[derive(Debug, Clone, Copy, PartialEq, Eq, Structural)]
pub struct Padding {
    pub top: u32,
    pub right: u32,
    pub bottom: u32,
    pub left: u32,
}

impl Padding {
    /// No inset on any side.
    pub fn zero() -> (r: Self)
        ensures
            r.top == 0 && r.right == 0 && r.bottom == 0 && r.left == 0,
    {
        Padding { top: 0, right: 0, bottom: 0, left: 0 }
    }

    /// The same inset on all four sides.
    pub fn all(value: u32) -> (r: Self)
        ensures
            r.top == value && r.right == value && r.bottom == value && r.left == value,
    {
        Padding { top: value, right: value, bottom: value, left: value }
    }
}

} // verus!
