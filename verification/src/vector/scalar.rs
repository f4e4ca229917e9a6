//! The single-valued instantiation: one real number per component.

use vstd::prelude::*;

use crate::vector::CompOps;
use crate::vector::FromRatio;

pub use self::vec2::Vec2;
pub use self::vec3::Vec3;

pub mod vec2;
pub mod vec3;

verus! {

/// A single real number, as the engine needs it.
///
/// This is the one place where an arithmetic is plugged in. Every method must
/// return the value of its specification function, for all arguments and
/// without panicking: that is all this crate assumes of an implementation, and
/// nothing in this crate checks it.
pub trait Scalar: CompOps + FromRatio {
    spec fn lt_spec(self, other: Self) -> bool;

    /// Whether `self` is strictly less than `other`.
    fn lt(self, other: Self) -> (r: bool)
        ensures
            r == self.lt_spec(other),
    ;

    spec fn gt_spec(self, other: Self) -> bool;

    /// Whether `self` is strictly greater than `other`.
    fn gt(self, other: Self) -> (r: bool)
        ensures
            r == self.gt_spec(other),
    ;

    spec fn max_value_spec() -> Self;

    /// The largest finite value.
    fn max_value() -> (r: Self)
        ensures
            r == Self::max_value_spec(),
    ;

    spec fn to_byte_spec(self) -> u8;

    /// Truncates the value to a byte, dropping its fractional part.
    fn to_byte(self) -> (r: u8)
        ensures
            r == self.to_byte_spec(),
    ;
}

} // verus!
