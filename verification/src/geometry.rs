//! Geometric primitives: sizes, rectangles, points and lines.
use vstd::prelude::*;
use crate::length::{add_len, sat};

verus! {

/// The width and height of a box.
#[derive(Debug, Clone, Copy, PartialEq, Eq)]
pub struct Size<T> {
    /// The horizontal extent.
    pub width: T,
    /// The vertical extent.
    pub height: T,
}

/// An amount on each of the four sides of a box.
#[derive(Debug, Clone, Copy, PartialEq, Eq)]
pub struct Rect<T> {
    /// The left side.
    pub left: T,
    /// The right side.
    pub right: T,
    /// The top side.
    pub top: T,
    /// The bottom side.
    pub bottom: T,
}

/// A position in two dimensions.
#[derive(Debug, Clone, Copy, PartialEq, Eq)]
pub struct Point<T> {
    /// The horizontal coordinate.
    pub x: T,
    /// The vertical coordinate.
    pub y: T,
}

/// A pair of values for the start and end of an axis.
#[derive(Debug, Clone, Copy, PartialEq, Eq)]
pub struct Line<T> {
    /// The start of the axis.
    pub start: T,
    /// The end of the axis.
    pub end: T,
}

/// The size with both extents zero.
pub open spec fn zero_size() -> Size<i64> {
    Size { width: 0, height: 0 }
}

/// The rectangle with all four sides zero.
pub open spec fn zero_rect() -> Rect<i64> {
    Rect { left: 0, right: 0, top: 0, bottom: 0 }
}

/// The side-by-side sum of two rectangles.
pub open spec fn rect_sum(a: Rect<i64>, b: Rect<i64>) -> Rect<i64> {
    Rect {
        left: sat(a.left + b.left),
        right: sat(a.right + b.right),
        top: sat(a.top + b.top),
        bottom: sat(a.bottom + b.bottom),
    }
}

/// The total of a rectangle's horizontal sides and of its vertical sides.
pub open spec fn axis_sums(r: Rect<i64>) -> Size<i64> {
    Size { width: sat(r.left + r.right), height: sat(r.top + r.bottom) }
}

impl Size<i64> {
    /// The size with both extents zero.
    pub fn zero() -> (r: Size<i64>)
        ensures
            r == zero_size(),
    {
        Size { width: 0, height: 0 }
    }
}

impl Size<Option<i64>> {
    /// The size with both extents absent.
    pub fn none() -> (r: Size<Option<i64>>)
        ensures
            r.width is None,
            r.height is None,
    {
        Size { width: None, height: None }
    }
}

impl Rect<i64> {
    /// The rectangle with all four sides zero.
    pub fn zero() -> (r: Rect<i64>)
        ensures
            r == zero_rect(),
    {
        Rect { left: 0, right: 0, top: 0, bottom: 0 }
    }

    /// The side-by-side sum of two rectangles.
    pub fn plus(&self, other: &Rect<i64>) -> (r: Rect<i64>)
        ensures
            r == rect_sum(*self, *other),
    {
        Rect {
            left: add_len(self.left, other.left),
            right: add_len(self.right, other.right),
            top: add_len(self.top, other.top),
            bottom: add_len(self.bottom, other.bottom),
        }
    }

    /// The total of the horizontal sides (as the width) and of the vertical
    /// sides (as the height).
    pub fn sum_axes(&self) -> (r: Size<i64>)
        ensures
            r == axis_sums(*self),
    {
        Size { width: add_len(self.left, self.right), height: add_len(self.top, self.bottom) }
    }
}

} // verus!
