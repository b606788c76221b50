//! Pixel grid dimensions, pixel positions and resolution-independent
//! projections.
use vstd::prelude::*;
use crate::color::Color;
use crate::saturate::{clamp, saturate};

verus! {

/// The largest projection coordinate.
pub const MAX: u32 = 4294967295;

/// The last coordinate of the first half of the range, `MAX / 2`.
pub const MID: u32 = 2147483647;

/// Width and height of a pixel grid.
#[derive(Clone, Copy)]
pub struct Size {
    width: u32,
    height: u32,
}

impl Size {
    /// The number of columns.
    pub closed spec fn width(self) -> int {
        self.width as int
    }

    /// The number of rows.
    pub closed spec fn height(self) -> int {
        self.height as int
    }

    pub fn new(w: u32, h: u32) -> (s: Size)
        ensures
            s.width() == w,
            s.height() == h,
    {
        Size { width: w, height: h }
    }

    pub fn get_width(&self) -> (w: u32)
        ensures
            w == self.width(),
    {
        self.width
    }

    pub fn get_height(&self) -> (h: u32)
        ensures
            h == self.height(),
    {
        self.height
    }
}

/// A pixel position on the grid.
#[derive(Clone, Copy)]
pub struct Position {
    x: u32,
    y: u32,
}

/// The square of the difference of two coordinates.
pub open spec fn square_gap(a: int, b: int) -> int {
    (a - b) * (a - b)
}

impl Position {
    /// The column.
    pub closed spec fn x(self) -> int {
        self.x as int
    }

    /// The row.
    pub closed spec fn y(self) -> int {
        self.y as int
    }

    pub fn new(x: u32, y: u32) -> (p: Position)
        ensures
            p.x() == x,
            p.y() == y,
    {
        Position { x, y }
    }

    /// The square of the Euclidean distance to `point`.
    pub fn distance_squared(&self, point: Position) -> (d: u128)
        ensures
            d == square_gap(self.x(), point.x()) + square_gap(self.y(), point.y()),
    {
        let dx: u128 = if self.x > point.x {
            (self.x - point.x) as u128
        } else {
            (point.x - self.x) as u128
        };
        let dy: u128 = if self.y > point.y {
            (self.y - point.y) as u128
        } else {
            (point.y - self.y) as u128
        };
        assert(dx * dx <= 0xffff_ffff * 0xffff_ffff) by (nonlinear_arith)
            requires dx <= 0xffff_ffff;
        assert(dy * dy <= 0xffff_ffff * 0xffff_ffff) by (nonlinear_arith)
            requires dy <= 0xffff_ffff;
        assert(dx * dx == square_gap(self.x(), point.x())) by (nonlinear_arith)
            requires dx == self.x() - point.x() || dx == point.x() - self.x();
        assert(dy * dy == square_gap(self.y(), point.y())) by (nonlinear_arith)
            requires dy == self.y() - point.y() || dy == point.y() - self.y();
        dx * dx + dy * dy
    }
}

/// A pixel's place normalized to `0..=MAX` on each axis, whatever the grid's
/// resolution. This is all a layer sees.
#[derive(Clone, Copy, PartialEq, Eq, Structural)]
pub struct Projection {
    pub x: u32,
    pub y: u32,
}

/// The projection of coordinate `p` on an axis of `extent` pixels:
/// `p / extent` scaled to `0..=MAX`, truncated, saturating at `MAX`.
/// On an empty axis the ratio is undefined: the origin maps to 0 and
/// anything past it to `MAX`.
pub open spec fn axis_coordinate(p: int, extent: int) -> int {
    if extent == 0 {
        if p == 0 {
            0
        } else {
            MAX as int
        }
    } else {
        clamp(p * MAX / extent, MAX as int)
    }
}

/// The projection of `position` on a grid of `size`.
pub open spec fn project(size: Size, position: Position) -> Projection {
    Projection {
        x: axis_coordinate(position.x(), size.width()) as u32,
        y: axis_coordinate(position.y(), size.height()) as u32,
    }
}

/// Whether a projection falls in the second half of the split range.
pub open spec fn in_second_half(p: Projection) -> bool {
    p.y > MID
}

/// A projection as the child layer of its half sees it: `y` measured from
/// the half's start, doubled to span the full range, saturating at `MAX`;
/// `x` is kept.
pub open spec fn remap(p: Projection) -> Projection {
    Projection {
        x: p.x,
        y: (if in_second_half(p) {
            clamp(2 * (p.y - MID), MAX as int)
        } else {
            clamp(2 * p.y, MAX as int)
        }) as u32,
    }
}

fn axis(p: u32, extent: u32) -> (r: u32)
    ensures
        r == axis_coordinate(p as int, extent as int),
{
    if extent == 0 {
        if p == 0 {
            0
        } else {
            MAX
        }
    } else {
        let a = p as u128;
        let m = MAX as u128;
        assert(a * m <= 0xffff_ffff * 0xffff_ffff) by (nonlinear_arith)
            requires a <= 0xffff_ffff, m == 0xffff_ffff;
        let scaled = a * m / (extent as u128);
        saturate(scaled, MAX as u128) as u32
    }
}

impl Projection {
    /// Hands the projection to `f1` when it lies in the first half of the
    /// `y` range and to `f2` otherwise, remapped so that the chosen half
    /// spans the whole range, and returns that call's color.
    pub fn proxy_split<F1: Fn(Projection) -> Color, F2: Fn(Projection) -> Color>(
        &self,
        f1: F1,
        f2: F2,
    ) -> (c: Color)
        requires
            !in_second_half(*self) ==> f1.requires((remap(*self),)),
            in_second_half(*self) ==> f2.requires((remap(*self),)),
        ensures
            !in_second_half(*self) ==> f1.ensures((remap(*self),), c),
            in_second_half(*self) ==> f2.ensures((remap(*self),), c),
    {
        let latter = self.y > MID;
        let doubled: u128 = if latter {
            2 * ((self.y - MID) as u128)
        } else {
            2 * (self.y as u128)
        };
        let p = Projection { x: self.x, y: saturate(doubled, MAX as u128) as u32 };
        if latter {
            f2(p)
        } else {
            f1(p)
        }
    }

    /// The projection of `position` on a grid of `canvas_size`. Coordinates
    /// inside the grid map below `MAX`; any at or past its far edge
    /// saturate to `MAX`.
    pub fn new(canvas_size: &Size, position: Position) -> (p: Projection)
        ensures
            p == project(*canvas_size, position),
            position.x() < canvas_size.width() ==> p.x < MAX,
            position.y() < canvas_size.height() ==> p.y < MAX,
            position.x() >= canvas_size.width() > 0 ==> p.x == MAX,
            position.y() >= canvas_size.height() > 0 ==> p.y == MAX,
    {
        let x = axis(position.x, canvas_size.width);
        let y = axis(position.y, canvas_size.height);
        proof {
            lemma_axis_bounds(position.x(), canvas_size.width());
            lemma_axis_bounds(position.y(), canvas_size.height());
        }
        Projection { x, y }
    }
}

/// Inside the axis a coordinate projects below `MAX`; at or past its end,
/// to exactly `MAX`.
pub proof fn lemma_axis_bounds(p: int, extent: int)
    requires
        0 <= p,
        0 <= extent,
    ensures
        0 <= axis_coordinate(p, extent) <= MAX,
        p < extent ==> axis_coordinate(p, extent) < MAX,
        p >= extent > 0 ==> axis_coordinate(p, extent) == MAX,
{
    let m = MAX as int;
    if extent > 0 {
        assert(p * m / extent >= 0) by (nonlinear_arith)
            requires p >= 0, m > 0, extent > 0;
        if p < extent {
            assert(p * m / extent < m) by (nonlinear_arith)
                requires 0 <= p < extent, m > 0;
        } else {
            assert(p * m / extent >= m) by (nonlinear_arith)
                requires p >= extent > 0, m > 0;
        }
    }
}

/// Each half of the split range is stretched over the whole range, in
/// order: the first half runs from 0 to `MAX - 1`, the second from 2 up to
/// `MAX`, and dispatch changes hands just above `MID`.
pub proof fn lemma_remap_spans_halves(p: Projection, q: Projection)
    ensures
        in_second_half(p) == in_second_half(q) && p.y <= q.y ==> remap(p).y <= remap(q).y,
        remap(p).x == p.x,
        remap(Projection { x: p.x, y: 0 }).y == 0,
        !in_second_half(Projection { x: p.x, y: MID }),
        remap(Projection { x: p.x, y: MID }).y == MAX - 1,
        in_second_half(Projection { x: p.x, y: (MID + 1) as u32 }),
        remap(Projection { x: p.x, y: (MID + 1) as u32 }).y == 2,
        remap(Projection { x: p.x, y: MAX }).y == MAX,
{
}

} // verus!
