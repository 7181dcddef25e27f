use vstd::prelude::*;

verus! {

/// Whether a mathematical integer is representable as an `i16` coordinate.
pub open spec fn fits_i16(v: int) -> bool {
    i16::MIN <= v <= i16::MAX
}

/// Integer division rounding toward zero, as Rust's `/` does on signed integers.
pub open spec fn div_trunc(a: int, b: int) -> int
    recommends
        b > 0,
{
    if a >= 0 {
        a / b
    } else {
        -((-a) / b)
    }
}

/// Signed division of `a` by a positive `b`, rounding toward zero.
pub fn i32_div_trunc(a: i32, b: i32) -> (q: i32)
    requires
        b > 0,
        a > i32::MIN,
    ensures
        q == div_trunc(a as int, b as int),
{
    if a >= 0 {
        a / b
    } else {
        let n: i32 = -a;
        -(n / b)
    }
}

/// `area` moved inward by `insets` keeps every side within `i16`.
pub open spec fn inset_fits(area: Rect, insets: Insets) -> bool {
    &&& fits_i16(area.x0 + insets.left)
    &&& fits_i16(area.y0 + insets.top)
    &&& fits_i16(area.x1 - insets.right)
    &&& fits_i16(area.y1 - insets.bottom)
}

/// `area` moved inward by `insets`.
pub open spec fn spec_inset(area: Rect, insets: Insets) -> Rect {
    Rect {
        x0: (area.x0 + insets.left) as i16,
        y0: (area.y0 + insets.top) as i16,
        x1: (area.x1 - insets.right) as i16,
        y1: (area.y1 - insets.bottom) as i16,
    }
}

/// A displacement on the screen, in pixels.
#[derive(Clone, Copy, PartialEq, Eq, Structural, Debug)]
pub struct Offset {
    pub x: i16,
    pub y: i16,
}

impl Offset {
    pub fn new(x: i16, y: i16) -> (r: Self)
        ensures
            r.x == x,
            r.y == y,
    {
        Offset { x, y }
    }

    pub fn zero() -> (r: Self)
        ensures
            r.x == 0,
            r.y == 0,
    {
        Offset { x: 0, y: 0 }
    }

    /// Horizontal offset.
    pub fn x(x: i16) -> (r: Self)
        ensures
            r.x == x,
            r.y == 0,
    {
        Offset { x, y: 0 }
    }

    /// Vertical offset.
    pub fn y(y: i16) -> (r: Self)
        ensures
            r.x == 0,
            r.y == y,
    {
        Offset { x: 0, y }
    }

    /// The top-left corner of a box of this size centered on `center`.
    pub fn snap_center(self, center: Point) -> (r: Point)
        requires
            self.x >= 0,
            self.y >= 0,
            fits_i16(center.x - self.x / 2),
            fits_i16(center.y - self.y / 2),
        ensures
            r.x == center.x - self.x / 2,
            r.y == center.y - self.y / 2,
    {
        Point { x: center.x - self.x / 2, y: center.y - self.y / 2 }
    }
}

/// A position on the screen, in pixels.
#[derive(Clone, Copy, PartialEq, Eq, Structural, Debug)]
pub struct Point {
    pub x: i16,
    pub y: i16,
}

impl Point {
    pub fn new(x: i16, y: i16) -> (r: Self)
        ensures
            r.x == x,
            r.y == y,
    {
        Point { x, y }
    }

    /// This point moved by `offset`.
    pub fn ofs(self, offset: Offset) -> (r: Self)
        requires
            fits_i16(self.x + offset.x),
            fits_i16(self.y + offset.y),
        ensures
            r.x == self.x + offset.x,
            r.y == self.y + offset.y,
    {
        Point { x: self.x + offset.x, y: self.y + offset.y }
    }
}

/// Amounts by which each side of a rectangle moves inward.
#[derive(Clone, Copy, PartialEq, Eq, Structural, Debug)]
pub struct Insets {
    pub top: i16,
    pub right: i16,
    pub bottom: i16,
    pub left: i16,
}

impl Insets {
    pub fn new(top: i16, right: i16, bottom: i16, left: i16) -> (r: Self)
        ensures
            r == (Insets { top, right, bottom, left }),
    {
        Insets { top, right, bottom, left }
    }

    /// Only the bottom side moves.
    pub fn bottom(d: i16) -> (r: Self)
        ensures
            r == (Insets { top: 0, right: 0, bottom: d, left: 0 }),
    {
        Insets { top: 0, right: 0, bottom: d, left: 0 }
    }

    pub fn uniform(d: i16) -> (r: Self)
        ensures
            r == (Insets { top: d, right: d, bottom: d, left: d }),
    {
        Insets { top: d, right: d, bottom: d, left: d }
    }

    /// Insets on the left and right side only.
    pub fn sides(d: i16) -> (r: Self)
        ensures
            r == (Insets { top: 0, right: d, bottom: 0, left: d }),
    {
        Insets { top: 0, right: d, bottom: 0, left: d }
    }
}

/// An axis-aligned rectangle; `x1` and `y1` are exclusive.
#[derive(Clone, Copy, PartialEq, Eq, Structural, Debug)]
pub struct Rect {
    pub x0: i16,
    pub y0: i16,
    pub x1: i16,
    pub y1: i16,
}

impl Rect {
    /// The corners are ordered and the extent is representable.
    pub open spec fn wf(self) -> bool {
        &&& self.x0 <= self.x1
        &&& self.y0 <= self.y1
        &&& fits_i16(self.x1 - self.x0)
        &&& fits_i16(self.y1 - self.y0)
    }

    pub open spec fn spec_width(self) -> int {
        self.x1 - self.x0
    }

    pub open spec fn spec_height(self) -> int {
        self.y1 - self.y0
    }

    pub open spec fn spec_contains(self, p: Point) -> bool {
        self.x0 <= p.x < self.x1 && self.y0 <= p.y < self.y1
    }

    pub fn zero() -> (r: Self)
        ensures
            r == (Rect { x0: 0, y0: 0, x1: 0, y1: 0 }),
            r.wf(),
    {
        Rect { x0: 0, y0: 0, x1: 0, y1: 0 }
    }

    /// The rectangle with top-left corner `p` and the given size.
    pub fn from_top_left_and_size(p: Point, size: Offset) -> (r: Self)
        requires
            fits_i16(p.x + size.x),
            fits_i16(p.y + size.y),
        ensures
            r == (Rect { x0: p.x, y0: p.y, x1: (p.x + size.x) as i16, y1: (p.y + size.y) as i16 }),
    {
        Rect { x0: p.x, y0: p.y, x1: p.x + size.x, y1: p.y + size.y }
    }

    pub fn width(&self) -> (r: i16)
        requires
            fits_i16(self.x1 - self.x0),
        ensures
            r == self.x1 - self.x0,
    {
        self.x1 - self.x0
    }

    pub fn height(&self) -> (r: i16)
        requires
            fits_i16(self.y1 - self.y0),
        ensures
            r == self.y1 - self.y0,
    {
        self.y1 - self.y0
    }

    pub fn top_left(&self) -> (r: Point)
        ensures
            r.x == self.x0,
            r.y == self.y0,
    {
        Point { x: self.x0, y: self.y0 }
    }

    pub fn top_right(&self) -> (r: Point)
        ensures
            r.x == self.x1,
            r.y == self.y0,
    {
        Point { x: self.x1, y: self.y0 }
    }

    pub fn bottom_left(&self) -> (r: Point)
        ensures
            r.x == self.x0,
            r.y == self.y1,
    {
        Point { x: self.x0, y: self.y1 }
    }

    pub fn bottom_right(&self) -> (r: Point)
        ensures
            r.x == self.x1,
            r.y == self.y1,
    {
        Point { x: self.x1, y: self.y1 }
    }

    /// The rectangle with bottom-left corner `p` and the given size.
    pub fn from_bottom_left_and_size(p: Point, size: Offset) -> (r: Self)
        requires
            fits_i16(p.x + size.x),
            fits_i16(p.y - size.y),
        ensures
            r == (Rect { x0: p.x, y0: (p.y - size.y) as i16, x1: (p.x + size.x) as i16, y1: p.y }),
    {
        Rect { x0: p.x, y0: p.y - size.y, x1: p.x + size.x, y1: p.y }
    }

    /// The rectangle with bottom-right corner `p` and the given size.
    pub fn from_bottom_right_and_size(p: Point, size: Offset) -> (r: Self)
        requires
            fits_i16(p.x - size.x),
            fits_i16(p.y - size.y),
        ensures
            r == (Rect { x0: (p.x - size.x) as i16, y0: (p.y - size.y) as i16, x1: p.x, y1: p.y }),
    {
        Rect { x0: p.x - size.x, y0: p.y - size.y, x1: p.x, y1: p.y }
    }

    /// The middle of the rectangle, rounded toward the top-left corner.
    pub fn center(&self) -> (r: Point)
        requires
            self.wf(),
        ensures
            r.x == self.x0 + self.spec_width() / 2,
            r.y == self.y0 + self.spec_height() / 2,
    {
        Point { x: self.x0 + (self.x1 - self.x0) / 2, y: self.y0 + (self.y1 - self.y0) / 2 }
    }

    /// The middle of the left edge.
    pub fn left_center(&self) -> (r: Point)
        requires
            self.wf(),
        ensures
            r.x == self.x0,
            r.y == self.y0 + self.spec_height() / 2,
    {
        Point { x: self.x0, y: self.y0 + (self.y1 - self.y0) / 2 }
    }

    pub fn contains(&self, p: Point) -> (r: bool)
        ensures
            r == self.spec_contains(p),
    {
        self.x0 <= p.x && p.x < self.x1 && self.y0 <= p.y && p.y < self.y1
    }

    /// `v` clamped to the range from `lo` to `hi`.
    pub open spec fn clamp(v: int, lo: int, hi: int) -> int {
        if v < lo {
            lo
        } else if v > hi {
            hi
        } else {
            v
        }
    }

    /// The top `height` pixels (clamped to the rectangle) and the rest.
    pub open spec fn spec_split_top(self, height: int) -> (Rect, Rect) {
        let h = Rect::clamp(height, 0, self.spec_height());
        (Rect { y1: (self.y0 + h) as i16, ..self }, Rect { y0: (self.y0 + h) as i16, ..self })
    }

    /// The rest and the bottom `height` pixels (clamped to the rectangle).
    pub open spec fn spec_split_bottom(self, height: int) -> (Rect, Rect) {
        let h = Rect::clamp(height, 0, self.spec_height());
        (Rect { y1: (self.y1 - h) as i16, ..self }, Rect { y0: (self.y1 - h) as i16, ..self })
    }

    /// The left `width` pixels (clamped to the rectangle) and the rest.
    pub open spec fn spec_split_left(self, width: int) -> (Rect, Rect) {
        let w = Rect::clamp(width, 0, self.spec_width());
        (Rect { x1: (self.x0 + w) as i16, ..self }, Rect { x0: (self.x0 + w) as i16, ..self })
    }

    /// The rest and the right `width` pixels (clamped to the rectangle).
    pub open spec fn spec_split_right(self, width: int) -> (Rect, Rect) {
        let w = Rect::clamp(width, 0, self.spec_width());
        (Rect { x1: (self.x1 - w) as i16, ..self }, Rect { x0: (self.x1 - w) as i16, ..self })
    }

    /// Three columns: the middle one `width` wide and centered (rounding
    /// toward the left), each clamped to what is left of the rectangle.
    pub open spec fn spec_split_center(self, width: int) -> (Rect, Rect, Rect) {
        let (left, center_right) = self.spec_split_left(div_trunc(self.spec_width() - width, 2));
        let (center, right) = center_right.spec_split_left(width);
        (left, center, right)
    }

    /// Splits off the top `height` pixels (clamped to the rectangle).
    pub fn split_top(self, height: i16) -> (r: (Rect, Rect))
        requires
            self.wf(),
        ensures
            r == self.spec_split_top(height as int),
            r.0.wf(),
            r.1.wf(),
    {
        let h = if height < 0 { 0 } else if height > self.y1 - self.y0 { self.y1 - self.y0 } else { height };
        (Rect { y1: self.y0 + h, ..self }, Rect { y0: self.y0 + h, ..self })
    }

    /// Splits off the bottom `height` pixels (clamped to the rectangle).
    pub fn split_bottom(self, height: i16) -> (r: (Rect, Rect))
        requires
            self.wf(),
        ensures
            r == self.spec_split_bottom(height as int),
            r.0.wf(),
            r.1.wf(),
    {
        let h = if height < 0 { 0 } else if height > self.y1 - self.y0 { self.y1 - self.y0 } else { height };
        (Rect { y1: self.y1 - h, ..self }, Rect { y0: self.y1 - h, ..self })
    }

    /// Splits off the left `width` pixels (clamped to the rectangle).
    pub fn split_left(self, width: i16) -> (r: (Rect, Rect))
        requires
            self.wf(),
        ensures
            r == self.spec_split_left(width as int),
            r.0.wf(),
            r.1.wf(),
    {
        let w = if width < 0 { 0 } else if width > self.x1 - self.x0 { self.x1 - self.x0 } else { width };
        (Rect { x1: self.x0 + w, ..self }, Rect { x0: self.x0 + w, ..self })
    }

    /// Splits off the right `width` pixels (clamped to the rectangle).
    pub fn split_right(self, width: i16) -> (r: (Rect, Rect))
        requires
            self.wf(),
        ensures
            r == self.spec_split_right(width as int),
            r.0.wf(),
            r.1.wf(),
    {
        let w = if width < 0 { 0 } else if width > self.x1 - self.x0 { self.x1 - self.x0 } else { width };
        (Rect { x1: self.x1 - w, ..self }, Rect { x0: self.x1 - w, ..self })
    }

    /// Splits into three columns, the middle one `width` wide and centered.
    pub fn split_center(self, width: i16) -> (r: (Rect, Rect, Rect))
        requires
            self.wf(),
        ensures
            r == self.spec_split_center(width as int),
            r.0.wf(),
            r.1.wf(),
            r.2.wf(),
    {
        let diff: i32 = (self.x1 as i32 - self.x0 as i32) - width as i32;
        let left_right: i32 = i32_div_trunc(diff, 2);
        let (left, center_right) = self.split_left(left_right as i16);
        let (center, right) = center_right.split_left(width);
        (left, center, right)
    }

    /// Moves each side inward by the matching inset.
    pub fn inset(self, insets: Insets) -> (r: Rect)
        requires
            fits_i16(self.x0 + insets.left),
            fits_i16(self.y0 + insets.top),
            fits_i16(self.x1 - insets.right),
            fits_i16(self.y1 - insets.bottom),
        ensures
            r.x0 == self.x0 + insets.left,
            r.y0 == self.y0 + insets.top,
            r.x1 == self.x1 - insets.right,
            r.y1 == self.y1 - insets.bottom,
    {
        Rect {
            x0: self.x0 + insets.left,
            y0: self.y0 + insets.top,
            x1: self.x1 - insets.right,
            y1: self.y1 - insets.bottom,
        }
    }

    /// Moves each side outward by the matching inset.
    pub fn outset(self, insets: Insets) -> (r: Rect)
        requires
            fits_i16(self.x0 - insets.left),
            fits_i16(self.y0 - insets.top),
            fits_i16(self.x1 + insets.right),
            fits_i16(self.y1 + insets.bottom),
        ensures
            r.x0 == self.x0 - insets.left,
            r.y0 == self.y0 - insets.top,
            r.x1 == self.x1 + insets.right,
            r.y1 == self.y1 + insets.bottom,
    {
        Rect {
            x0: self.x0 - insets.left,
            y0: self.y0 - insets.top,
            x1: self.x1 + insets.right,
            y1: self.y1 + insets.bottom,
        }
    }
}

} // verus!
