//! The rectangle record and its area.
//!
//! The area of a rectangle may exceed what a `u32` can hold. This library
//! saturates: `area` returns the exact product where it fits and `u32::MAX`
//! where it does not. It never wraps and never panics.

use vstd::prelude::*;

verus! {

/// The dimensions of a rectangle. Every pair of sides is a valid rectangle;
/// a side of zero gives a rectangle of zero area.
#[derive(Clone, Copy, Debug, PartialEq, Eq, Structural)]
pub struct Rect {
    pub width: u32,
    pub height: u32,
}

impl Rect {
    /// The product of the two sides as a mathematical integer.
    pub open spec fn exact_area(self) -> int {
        self.width * self.height
    }

    /// Whether the exact area can be held in a `u32`.
    pub open spec fn area_fits(self) -> bool {
        self.exact_area() <= u32::MAX
    }

    /// The exact area where it fits, `u32::MAX` where it does not.
    pub open spec fn saturated_area(self) -> int {
        if self.area_fits() {
            self.exact_area()
        } else {
            u32::MAX as int
        }
    }

    /// The same rectangle turned by a quarter: width and height exchanged.
    pub open spec fn transposed(self) -> Rect {
        Rect { width: self.height, height: self.width }
    }
}

/// The area of `rect`, saturating at `u32::MAX`.
///
/// The rectangle is only borrowed: the caller keeps it, unchanged.
pub fn area(rect: &Rect) -> (a: u32)
    ensures
        a == rect.saturated_area(),
        rect.area_fits() ==> a == rect.width * rect.height,
        !rect.area_fits() ==> a == u32::MAX,
        rect.width == 0 || rect.height == 0 ==> a == 0,
{
    match rect.width.checked_mul(rect.height) {
        Some(product) => product,
        None => u32::MAX,
    }
}

/// Exchanging width and height changes neither the exact area, nor whether
/// it fits, nor what `area` returns.
pub proof fn lemma_area_commutes(rect: Rect)
    ensures
        rect.transposed().exact_area() == rect.exact_area(),
        rect.transposed().area_fits() == rect.area_fits(),
        rect.transposed().saturated_area() == rect.saturated_area(),
{
    assert(rect.height * rect.width == rect.width * rect.height) by (nonlinear_arith);
}

} // verus!
