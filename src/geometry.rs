use vstd::prelude::*;

verus! {

/// A rectangle of cells: `x`/`y` is the top-left corner.
#[derive(Clone, Copy, Debug, PartialEq, Eq, Structural)]
pub struct Rect {
    pub x: u16,
    pub y: u16,
    pub width: u16,
    pub height: u16,
}

impl Rect {
    /// The right and bottom edges are representable as `u16`.
    pub open spec fn wf(&self) -> bool {
        self.x + self.width <= u16::MAX && self.y + self.height <= u16::MAX
    }

    pub open spec fn right_spec(&self) -> int {
        self.x + self.width
    }

    pub open spec fn bottom_spec(&self) -> int {
        self.y + self.height
    }

    pub open spec fn is_empty_spec(&self) -> bool {
        self.width == 0 || self.height == 0
    }

    /// Whether the cell at (`cx`, `cy`) lies inside the rectangle.
    pub open spec fn holds(&self, cx: int, cy: int) -> bool {
        self.x <= cx < self.right_spec() && self.y <= cy < self.bottom_spec()
    }

    /// Whether `other` lies entirely inside this rectangle.
    pub open spec fn contains_rect(&self, other: Rect) -> bool {
        self.x <= other.x && other.right_spec() <= self.right_spec() && self.y <= other.y
            && other.bottom_spec() <= self.bottom_spec()
    }

    /// Builds a rectangle; the size is shrunk so that the right and bottom
    /// edges stay within `u16`.
    pub fn new(x: u16, y: u16, width: u16, height: u16) -> (r: Rect)
        ensures
            r.wf(),
            r.x == x,
            r.y == y,
            r.width == if x + width <= u16::MAX { width as int } else { u16::MAX - x },
            r.height == if y + height <= u16::MAX { height as int } else { u16::MAX - y },
    {
        let w: u16 = if width <= u16::MAX - x { width } else { u16::MAX - x };
        let h: u16 = if height <= u16::MAX - y { height } else { u16::MAX - y };
        Rect { x, y, width: w, height: h }
    }

    pub fn left(&self) -> (r: u16)
        ensures
            r == self.x,
    {
        self.x
    }

    pub fn top(&self) -> (r: u16)
        ensures
            r == self.y,
    {
        self.y
    }

    pub fn right(&self) -> (r: u16)
        requires
            self.wf(),
        ensures
            r == self.right_spec(),
    {
        self.x + self.width
    }

    pub fn bottom(&self) -> (r: u16)
        requires
            self.wf(),
        ensures
            r == self.bottom_spec(),
    {
        self.y + self.height
    }

    pub fn is_empty(&self) -> (r: bool)
        ensures
            r == self.is_empty_spec(),
    {
        self.width == 0 || self.height == 0
    }
}

} // verus!
