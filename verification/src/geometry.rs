//! Plain geometric value types shared by every part of the library:
//! points, sizes, rectangles and margins.

use vstd::prelude::*;

verus! {

pub type IPoint = Point<i32>;

pub type ISize = Size<i32>;

pub type IRect = Rect<i32>;

pub type IMargins = Margins<i32>;

#[derive(Copy, Clone, PartialEq, Eq, Structural, Debug)]
pub struct Point<T: Copy> {
    pub x: T,
    pub y: T,
}

impl<T: Copy> Point<T> {
    pub fn new(x: T, y: T) -> (r: Point<T>)
        ensures
            r == (Point { x, y }),
    {
        Point { x, y }
    }
}

#[derive(Copy, Clone, PartialEq, Eq, Structural, Debug)]
pub struct Size<T: Copy> {
    pub w: T,
    pub h: T,
}

impl<T: Copy> Size<T> {
    pub fn new(w: T, h: T) -> (r: Size<T>)
        ensures
            r == (Size { w, h }),
    {
        Size { w, h }
    }
}

#[derive(Copy, Clone, PartialEq, Eq, Structural, Debug)]
pub struct Rect<T: Copy> {
    pub x: T,
    pub y: T,
    pub w: T,
    pub h: T,
}

impl<T: Copy> Rect<T> {
    pub fn new(x: T, y: T, w: T, h: T) -> (r: Rect<T>)
        ensures
            r == (Rect { x, y, w, h }),
    {
        Rect { x, y, w, h }
    }

    pub fn new_s(x: T, y: T, size: Size<T>) -> (r: Rect<T>)
        ensures
            r == (Rect { x, y, w: size.w, h: size.h }),
    {
        Rect { x, y, w: size.w, h: size.h }
    }

    pub fn new_p(point: Point<T>, w: T, h: T) -> (r: Rect<T>)
        ensures
            r == (Rect { x: point.x, y: point.y, w, h }),
    {
        Rect { x: point.x, y: point.y, w, h }
    }

    pub fn new_ps(point: Point<T>, size: Size<T>) -> (r: Rect<T>)
        ensures
            r == (Rect { x: point.x, y: point.y, w: size.w, h: size.h }),
    {
        Rect { x: point.x, y: point.y, w: size.w, h: size.h }
    }

    pub fn point(&self) -> (r: Point<T>)
        ensures
            r == (Point { x: self.x, y: self.y }),
    {
        Point { x: self.x, y: self.y }
    }

    pub fn size(&self) -> (r: Size<T>)
        ensures
            r == (Size { w: self.w, h: self.h }),
    {
        Size { w: self.w, h: self.h }
    }
}

#[derive(Copy, Clone, PartialEq, Eq, Structural, Debug)]
pub struct Margins<T: Copy> {
    pub l: T,
    pub r: T,
    pub t: T,
    pub b: T,
}

impl<T: Copy> Margins<T> {
    pub fn new(l: T, r: T, t: T, b: T) -> (m: Margins<T>)
        ensures
            m == (Margins { l, r, t, b }),
    {
        Margins { l, r, t, b }
    }
}

} // verus!
