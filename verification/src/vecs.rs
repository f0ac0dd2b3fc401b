//! Two-component vectors and axis-aligned bounding boxes, the value types
//! that all of the shape geometry is built from.

use vstd::prelude::*;
use vstd::std_specs::convert::FromSpec;

verus! {

/// A two-component vector over a single numeric type. A pure value: every
/// operation returns a new vector.
#[derive(Clone, Copy, PartialEq, Eq, Structural, Debug)]
pub struct Vec2<T> {
    pub x: T,
    pub y: T,
}

impl<T: Copy> core::convert::From<[T; 2]> for Vec2<T> {
    fn from(v: [T; 2]) -> (r: Vec2<T>) {
        Vec2 { x: v[0], y: v[1] }
    }
}

impl<T: Copy> vstd::std_specs::convert::FromSpecImpl<[T; 2]> for Vec2<T> {
    open spec fn obeys_from_spec() -> bool {
        true
    }

    open spec fn from_spec(v: [T; 2]) -> Vec2<T> {
        Vec2 { x: v[0], y: v[1] }
    }
}

impl<T> Vec2<T> {
    /// Applies `f` to both components, giving a vector of the result type.
    pub fn map<A, F: Fn(T) -> A>(self, f: F) -> (r: Vec2<A>)
        requires
            call_requires(f, (self.x,)),
            call_requires(f, (self.y,)),
        ensures
            call_ensures(f, (self.x,), r.x),
            call_ensures(f, (self.y,), r.y),
    {
        let Vec2 { x, y } = self;
        Vec2 { x: f(x), y: f(y) }
    }

    /// Converts both components with the target type's `From` conversion.
    pub fn to_type<A: core::convert::From<T>>(self) -> (r: Vec2<A>)
        ensures
            <A as FromSpec<T>>::obeys_from_spec() ==> r.x == <A as FromSpec<T>>::from_spec(
                self.x,
            ) && r.y == <A as FromSpec<T>>::from_spec(self.y),
    {
        let Vec2 { x, y } = self;
        Vec2 { x: A::from(x), y: A::from(y) }
    }
}

impl Vec2<i32> {
    /// Component-wise sum of two vectors.
    pub fn add(self, other: Vec2<i32>) -> (r: Vec2<i32>)
        requires
            i32::MIN <= self.x + other.x <= i32::MAX,
            i32::MIN <= self.y + other.y <= i32::MAX,
        ensures
            r.x == self.x + other.x,
            r.y == self.y + other.y,
    {
        Vec2 { x: self.x + other.x, y: self.y + other.y }
    }

    /// Component-wise difference of two vectors.
    pub fn sub(self, other: Vec2<i32>) -> (r: Vec2<i32>)
        requires
            i32::MIN <= self.x - other.x <= i32::MAX,
            i32::MIN <= self.y - other.y <= i32::MAX,
        ensures
            r.x == self.x - other.x,
            r.y == self.y - other.y,
    {
        Vec2 { x: self.x - other.x, y: self.y - other.y }
    }

    /// Adds the scalar to both components.
    pub fn add_scalar(self, other: i32) -> (r: Vec2<i32>)
        requires
            i32::MIN <= self.x + other <= i32::MAX,
            i32::MIN <= self.y + other <= i32::MAX,
        ensures
            r.x == self.x + other,
            r.y == self.y + other,
    {
        Vec2 { x: self.x + other, y: self.y + other }
    }

    /// Subtracts the scalar from both components.
    pub fn sub_scalar(self, other: i32) -> (r: Vec2<i32>)
        requires
            i32::MIN <= self.x - other <= i32::MAX,
            i32::MIN <= self.y - other <= i32::MAX,
        ensures
            r.x == self.x - other,
            r.y == self.y - other,
    {
        Vec2 { x: self.x - other, y: self.y - other }
    }

    /// In-place component-wise sum.
    pub fn add_assign(&mut self, other: Vec2<i32>)
        requires
            i32::MIN <= old(self).x + other.x <= i32::MAX,
            i32::MIN <= old(self).y + other.y <= i32::MAX,
        ensures
            final(self).x == old(self).x + other.x,
            final(self).y == old(self).y + other.y,
    {
        *self = self.add(other);
    }

    /// In-place component-wise difference.
    pub fn sub_assign(&mut self, other: Vec2<i32>)
        requires
            i32::MIN <= old(self).x - other.x <= i32::MAX,
            i32::MIN <= old(self).y - other.y <= i32::MAX,
        ensures
            final(self).x == old(self).x - other.x,
            final(self).y == old(self).y - other.y,
    {
        *self = self.sub(other);
    }

    /// In-place addition of a scalar to both components.
    pub fn add_assign_scalar(&mut self, other: i32)
        requires
            i32::MIN <= old(self).x + other <= i32::MAX,
            i32::MIN <= old(self).y + other <= i32::MAX,
        ensures
            final(self).x == old(self).x + other,
            final(self).y == old(self).y + other,
    {
        *self = self.add_scalar(other);
    }

    /// In-place subtraction of a scalar from both components.
    pub fn sub_assign_scalar(&mut self, other: i32)
        requires
            i32::MIN <= old(self).x - other <= i32::MAX,
            i32::MIN <= old(self).y - other <= i32::MAX,
        ensures
            final(self).x == old(self).x - other,
            final(self).y == old(self).y - other,
    {
        *self = self.sub_scalar(other);
    }
}

impl Vec2<u16> {
    /// Component-wise sum of two vectors.
    pub fn add(self, other: Vec2<u16>) -> (r: Vec2<u16>)
        requires
            self.x + other.x <= u16::MAX,
            self.y + other.y <= u16::MAX,
        ensures
            r.x == self.x + other.x,
            r.y == self.y + other.y,
    {
        Vec2 { x: self.x + other.x, y: self.y + other.y }
    }

    /// Component-wise difference of two vectors.
    pub fn sub(self, other: Vec2<u16>) -> (r: Vec2<u16>)
        requires
            other.x <= self.x,
            other.y <= self.y,
        ensures
            r.x == self.x - other.x,
            r.y == self.y - other.y,
    {
        Vec2 { x: self.x - other.x, y: self.y - other.y }
    }
}

/// An axis-aligned box between two corner points: `start` is the inclusive
/// minimum corner and `end` is one past the maximum occupied coordinate on
/// each axis.
#[derive(Clone, Copy, PartialEq, Eq, Structural, Debug)]
pub struct BoundingBox<T> {
    pub start: Vec2<T>,
    pub end: Vec2<T>,
}

impl<T> BoundingBox<T> {
    /// Builds the box from its two corners, `(x0, y0)` inclusive start and
    /// `(x1, y1)` exclusive end.
    pub fn new(x0: T, y0: T, x1: T, y1: T) -> (r: BoundingBox<T>)
        ensures
            r.start == (Vec2 { x: x0, y: y0 }),
            r.end == (Vec2 { x: x1, y: y1 }),
    {
        BoundingBox { start: Vec2 { x: x0, y: y0 }, end: Vec2 { x: x1, y: y1 } }
    }
}

impl BoundingBox<u16> {
    /// The corners are ordered on both axes.
    pub open spec fn wf(self) -> bool {
        self.start.x <= self.end.x && self.start.y <= self.end.y
    }

    /// Horizontal extent of the box.
    pub fn width(&self) -> (r: u16)
        requires
            self.start.x <= self.end.x,
        ensures
            r == self.end.x - self.start.x,
    {
        self.end.x - self.start.x
    }

    /// Vertical extent of the box.
    pub fn height(&self) -> (r: u16)
        requires
            self.start.y <= self.end.y,
        ensures
            r == self.end.y - self.start.y,
    {
        self.end.y - self.start.y
    }

    /// Both extents of the box as a vector.
    pub fn dimensions(&self) -> (r: Vec2<u16>)
        requires
            self.wf(),
        ensures
            r.x == self.end.x - self.start.x,
            r.y == self.end.y - self.start.y,
    {
        Vec2 { x: self.width(), y: self.height() }
    }
}

} // verus!
