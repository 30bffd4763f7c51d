use vstd::prelude::*;

verus! {

/// Height of the tab header strip, in logical units.
pub const TAB_HEIGHT: i32 = 24;

/// A point in logical integer coordinates.
#[derive(Clone, Copy, Debug, PartialEq, Eq, Structural)]
pub struct Point {
    pub x: i32,
    pub y: i32,
}

/// A delivered pointer position. It is wider than `Point` so that every
/// translation between stack, header and member space is exact.
#[derive(Clone, Copy, Debug, PartialEq, Eq, Structural)]
pub struct Position {
    pub x: i64,
    pub y: i64,
}

#[derive(Clone, Copy, Debug, PartialEq, Eq, Structural)]
pub struct Size {
    pub w: i32,
    pub h: i32,
}

/// A rectangle given by its origin and its size.
#[derive(Clone, Copy, Debug, PartialEq, Eq, Structural)]
pub struct Rect {
    pub loc: Point,
    pub size: Size,
}

/// A rectangle whose header strip can be split off without overflow.
pub open spec fn splittable(r: Rect) -> bool {
    r.loc.y + TAB_HEIGHT <= i32::MAX && r.size.h - TAB_HEIGHT >= i32::MIN
}

/// What remains of `r` below the header strip.
pub open spec fn content_of(r: Rect) -> Rect {
    Rect {
        loc: Point { x: r.loc.x, y: (r.loc.y + TAB_HEIGHT) as i32 },
        size: Size { w: r.size.w, h: (r.size.h - TAB_HEIGHT) as i32 },
    }
}

/// `r` grown downwards by the header height.
pub open spec fn with_header(r: Rect) -> Rect {
    Rect { loc: r.loc, size: Size { w: r.size.w, h: (r.size.h + TAB_HEIGHT) as i32 } }
}

/// Whether `(x, y)` lies inside `r` (origin included, far edges excluded).
pub open spec fn rect_contains(r: Rect, x: int, y: int) -> bool {
    r.loc.x <= x < r.loc.x + r.size.w && r.loc.y <= y < r.loc.y + r.size.h
}

impl Rect {
    /// The part of this rectangle below the header strip.
    pub fn content(&self) -> (r: Rect)
        requires
            splittable(*self),
        ensures
            r == content_of(*self),
    {
        Rect {
            loc: Point { x: self.loc.x, y: self.loc.y + TAB_HEIGHT },
            size: Size { w: self.size.w, h: self.size.h - TAB_HEIGHT },
        }
    }

    /// This rectangle with the header height added to its height.
    pub fn grown_by_header(&self) -> (r: Rect)
        requires
            self.size.h + TAB_HEIGHT <= i32::MAX,
        ensures
            r == with_header(*self),
    {
        Rect { loc: self.loc, size: Size { w: self.size.w, h: self.size.h + TAB_HEIGHT } }
    }

    /// Whether the point `(x, y)` lies inside this rectangle.
    pub fn contains(&self, x: i64, y: i64) -> (r: bool)
        ensures
            r == rect_contains(*self, x as int, y as int),
    {
        let x0 = self.loc.x as i64;
        let y0 = self.loc.y as i64;
        x0 <= x && x < x0 + self.size.w as i64 && y0 <= y && y < y0 + self.size.h as i64
    }

    /// The overlap of two rectangles, if they share any area.
    pub fn intersection(&self, other: &Rect) -> (r: Option<Rect>)
        ensures
            r == intersection_of(*self, *other),
    {
        let x0 = if self.loc.x >= other.loc.x { self.loc.x as i64 } else { other.loc.x as i64 };
        let y0 = if self.loc.y >= other.loc.y { self.loc.y as i64 } else { other.loc.y as i64 };
        let ax = self.loc.x as i64 + self.size.w as i64;
        let bx = other.loc.x as i64 + other.size.w as i64;
        let ay = self.loc.y as i64 + self.size.h as i64;
        let by = other.loc.y as i64 + other.size.h as i64;
        let x1 = if ax <= bx { ax } else { bx };
        let y1 = if ay <= by { ay } else { by };
        if x0 < x1 && y0 < y1 {
            Some(Rect {
                loc: Point { x: x0 as i32, y: y0 as i32 },
                size: Size { w: (x1 - x0) as i32, h: (y1 - y0) as i32 },
            })
        } else {
            None
        }
    }
}

pub open spec fn max_int(a: int, b: int) -> int {
    if a >= b { a } else { b }
}

pub open spec fn min_int(a: int, b: int) -> int {
    if a <= b { a } else { b }
}

/// The overlap of `a` and `b`, or `None` where they share no area.
pub open spec fn intersection_of(a: Rect, b: Rect) -> Option<Rect> {
    let x0 = max_int(a.loc.x as int, b.loc.x as int);
    let y0 = max_int(a.loc.y as int, b.loc.y as int);
    let x1 = min_int(a.loc.x + a.size.w, b.loc.x + b.size.w);
    let y1 = min_int(a.loc.y + a.size.h, b.loc.y + b.size.h);
    if x0 < x1 && y0 < y1 {
        Some(
            Rect {
                loc: Point { x: x0 as i32, y: y0 as i32 },
                size: Size { w: (x1 - x0) as i32, h: (y1 - y0) as i32 },
            },
        )
    } else {
        None
    }
}

} // verus!
