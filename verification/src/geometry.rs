//! Points, sizes, rectangles and affine transforms over any coordinate type.

use crate::scalar::{Double, Single};
use vstd::prelude::*;

verus! {

/// A point of the plane.
#[derive(Clone, Copy, Debug, PartialEq, Eq, Structural)]
pub struct Point2D<T> {
    pub x: T,
    pub y: T,
}

/// The extent of an area.
#[derive(Clone, Copy, Debug, PartialEq, Eq, Structural)]
pub struct Size2D<T> {
    pub width: T,
    pub height: T,
}

/// A rectangle with its sides parallel to the axes.
#[derive(Clone, Copy, Debug, PartialEq, Eq, Structural)]
pub struct Rect<T> {
    pub origin: Point2D<T>,
    pub size: Size2D<T>,
}

/// An affine transform of the plane, as the six entries of its matrix.
#[derive(Clone, Copy, Debug, PartialEq, Eq, Structural)]
pub struct Transform2D<T> {
    pub m11: T,
    pub m12: T,
    pub m21: T,
    pub m22: T,
    pub m31: T,
    pub m32: T,
}

impl Size2D<Double> {
    /// The size in whole pixels.
    pub open spec fn spec_to_u64(self) -> Size2D<u64> {
        Size2D { width: self.width.whole() as u64, height: self.height.whole() as u64 }
    }

    /// The size in whole pixels: each side is cut down to its whole part
    /// and kept within what a `u64` holds.
    #[verifier::when_used_as_spec(spec_to_u64)]
    pub fn to_u64(self) -> (size: Size2D<u64>)
        ensures
            size == self.spec_to_u64(),
    {
        Size2D { width: self.width.to_u64(), height: self.height.to_u64() }
    }
}

impl Rect<Double> {
    /// The rectangle in whole pixels.
    pub open spec fn spec_to_u64(self) -> Rect<u64> {
        Rect {
            origin: Point2D {
                x: self.origin.x.whole() as u64,
                y: self.origin.y.whole() as u64,
            },
            size: self.size.spec_to_u64(),
        }
    }

    /// The rectangle in whole pixels: the origin and each side are cut
    /// down to their whole parts and kept within what a `u64` holds.
    #[verifier::when_used_as_spec(spec_to_u64)]
    pub fn to_u64(self) -> (rect: Rect<u64>)
        ensures
            rect == self.spec_to_u64(),
    {
        Rect {
            origin: Point2D { x: self.origin.x.to_u64(), y: self.origin.y.to_u64() },
            size: self.size.to_u64(),
        }
    }
}

/// The smaller of two numbers.
pub open spec fn least(a: int, b: int) -> int {
    if a <= b {
        a
    } else {
        b
    }
}

impl Rect<u64> {
    /// Whether the rectangle holds no pixel.
    pub open spec fn spec_is_empty(&self) -> bool {
        self.size.width == 0 || self.size.height == 0
    }

    /// Whether the rectangle lies within a surface of size `bounds` whose
    /// origin is the point `(0, 0)`.
    pub open spec fn within(self, bounds: Size2D<u64>) -> bool {
        &&& self.origin.x + self.size.width <= bounds.width
        &&& self.origin.y + self.size.height <= bounds.height
    }

    /// The part of the rectangle that lies within a surface of size
    /// `bounds`.
    pub open spec fn spec_clamp_to(&self, bounds: Size2D<u64>) -> Rect<u64> {
        let left = least(self.origin.x as int, bounds.width as int);
        let top = least(self.origin.y as int, bounds.height as int);
        let right = least(self.origin.x + self.size.width, bounds.width as int);
        let bottom = least(self.origin.y + self.size.height, bounds.height as int);
        Rect {
            origin: Point2D { x: left as u64, y: top as u64 },
            size: Size2D { width: (right - left) as u64, height: (bottom - top) as u64 },
        }
    }

    /// Whether the rectangle holds no pixel.
    #[verifier::when_used_as_spec(spec_is_empty)]
    pub fn is_empty(&self) -> (empty: bool)
        ensures
            empty == self.spec_is_empty(),
    {
        self.size.width == 0 || self.size.height == 0
    }

    /// The part of the rectangle that lies within a surface of size
    /// `bounds`.
    #[verifier::when_used_as_spec(spec_clamp_to)]
    pub fn clamp_to(&self, bounds: Size2D<u64>) -> (clamped: Rect<u64>)
        ensures
            clamped == self.spec_clamp_to(bounds),
    {
        let left = if self.origin.x <= bounds.width {
            self.origin.x
        } else {
            bounds.width
        };
        let top = if self.origin.y <= bounds.height {
            self.origin.y
        } else {
            bounds.height
        };
        // Where the far edge does not fit a `u64` it lies beyond the bounds.
        let right = match self.origin.x.checked_add(self.size.width) {
            Some(right) => if right <= bounds.width {
                right
            } else {
                bounds.width
            },
            None => bounds.width,
        };
        let bottom = match self.origin.y.checked_add(self.size.height) {
            Some(bottom) => if bottom <= bounds.height {
                bottom
            } else {
                bounds.height
            },
            None => bounds.height,
        };
        Rect {
            origin: Point2D { x: left, y: top },
            size: Size2D { width: right - left, height: bottom - top },
        }
    }

    /// What is left of a rectangle after clamping lies within the bounds,
    /// and a rectangle that lay within them is left as it was.
    pub proof fn lemma_clamp_to(self, bounds: Size2D<u64>)
        ensures
            self.spec_clamp_to(bounds).within(bounds),
            self.within(bounds) ==> self.spec_clamp_to(bounds) == self,
    {
    }
}

impl Transform2D<Single> {
    /// The transform that moves no point.
    pub open spec fn spec_identity() -> Transform2D<Single> {
        Transform2D {
            m11: Single::spec_one(),
            m12: Single::spec_zero(),
            m21: Single::spec_zero(),
            m22: Single::spec_one(),
            m31: Single::spec_zero(),
            m32: Single::spec_zero(),
        }
    }

    /// The transform that moves no point.
    #[verifier::when_used_as_spec(spec_identity)]
    pub fn identity() -> (transform: Transform2D<Single>)
        ensures
            transform == Transform2D::<Single>::spec_identity(),
    {
        Transform2D {
            m11: Single::one(),
            m12: Single::zero(),
            m21: Single::zero(),
            m22: Single::one(),
            m31: Single::zero(),
            m32: Single::zero(),
        }
    }
}

} // verus!
