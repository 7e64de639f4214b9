//! Win32 rectangle reconciliation: the edge-based rectangle the native
//! system reports, its conversions to and from the library's geometry, and
//! the frame-adjustment arithmetic that recovers a window's logical
//! rectangle from the native window rectangle.

use vstd::prelude::*;

use crate::geometry::IRect;

verus! {

/// Native window coordinates stay far inside this bound, which keeps every
/// sum and difference below representable.
pub const COORD_LIMIT: i32 = 0x100_0000;

/// A rectangle as the native system reports it: by its four edges.
#[derive(Copy, Clone, PartialEq, Eq, Structural, Debug)]
pub struct WinRect {
    pub left: i32,
    pub top: i32,
    pub right: i32,
    pub bottom: i32,
}

pub open spec fn coords_bounded(r: WinRect) -> bool {
    &&& -COORD_LIMIT <= r.left <= COORD_LIMIT
    &&& -COORD_LIMIT <= r.top <= COORD_LIMIT
    &&& -COORD_LIMIT <= r.right <= COORD_LIMIT
    &&& -COORD_LIMIT <= r.bottom <= COORD_LIMIT
}

impl WinRect {
    /// The edge rectangle of a position-and-size rectangle.
    pub fn from_rect(r: IRect) -> (w: WinRect)
        requires
            -COORD_LIMIT <= r.x <= COORD_LIMIT,
            -COORD_LIMIT <= r.y <= COORD_LIMIT,
            -COORD_LIMIT <= r.w <= COORD_LIMIT,
            -COORD_LIMIT <= r.h <= COORD_LIMIT,
        ensures
            w.left == r.x,
            w.top == r.y,
            w.right == r.x + r.w,
            w.bottom == r.y + r.h,
    {
        WinRect { left: r.x, top: r.y, right: r.x + r.w, bottom: r.y + r.h }
    }

    /// The position-and-size rectangle of an edge rectangle.
    pub fn to_rect(self) -> (r: IRect)
        requires
            coords_bounded(self),
        ensures
            r.x == self.left,
            r.y == self.top,
            r.w == self.right - self.left,
            r.h == self.bottom - self.top,
    {
        IRect {
            x: self.left,
            y: self.top,
            w: self.right - self.left,
            h: self.bottom - self.top,
        }
    }

    /// The signed area the edges span.
    pub fn area(&self) -> (a: i64)
        requires
            coords_bounded(*self),
        ensures
            a == (self.right - self.left) as i64 * (self.bottom - self.top) as i64,
    {
        let w: i64 = self.right as i64 - self.left as i64;
        let h: i64 = self.bottom as i64 - self.top as i64;
        proof {
            assert((-0x200_0000 <= w <= 0x200_0000 && -0x200_0000 <= h <= 0x200_0000)
                ==> -0x4_0000_0000_0000 <= w * h <= 0x4_0000_0000_0000) by (nonlinear_arith);
        }
        w * h
    }
}

/// Recover the logical window rectangle: the native system reports the
/// window rectangle including its frame, and separately how much frame an
/// empty rectangle would grow by; backing each edge off by that adjustment
/// leaves the rectangle the application reasons about.
pub fn client_rect(wr: WinRect, ar: WinRect) -> (r: IRect)
    requires
        coords_bounded(wr),
        coords_bounded(ar),
    ensures
        r.x == wr.left - ar.left,
        r.y == wr.top - ar.top,
        r.w == (wr.right - ar.right) - (wr.left - ar.left),
        r.h == (wr.bottom - ar.bottom) - (wr.top - ar.top),
{
    let adjusted = WinRect {
        left: wr.left - ar.left,
        top: wr.top - ar.top,
        right: wr.right - ar.right,
        bottom: wr.bottom - ar.bottom,
    };
    IRect {
        x: adjusted.left,
        y: adjusted.top,
        w: adjusted.right - adjusted.left,
        h: adjusted.bottom - adjusted.top,
    }
}

} // verus!
