//! The eight-wide instantiation: groups of eight components processed in
//! lock-step, one per lane.
//!
//! Every operation on a group is the single-valued operation applied in each
//! lane, which is how the specification functions below are written.

use vstd::prelude::*;

use crate::vector::scalar::Scalar;
use crate::vector::CompOps;
use crate::vector::FromRatio;
use crate::vector::Maskable;
use crate::vector::Ops;

pub use self::vec2::Vec2x8;
pub use self::vec3::Vec3x8;

pub mod vec2;
pub mod vec3;

verus! {

/// The number of lanes in a group.
pub const LANES: usize = 8;

/// Eight components processed together.
pub struct Lanes<T: Scalar> {
    pub lanes: [T; 8],
}

/// Eight booleans, one per lane, as produced by a comparison of two groups.
pub struct Mask8 {
    pub lanes: [bool; 8],
}

impl<T: Scalar> Clone for Lanes<T> {
    fn clone(&self) -> (r: Self)
        ensures
            r == *self,
    {
        *self
    }
}

impl<T: Scalar> Copy for Lanes<T> {

}

impl Clone for Mask8 {
    fn clone(&self) -> (r: Self)
        ensures
            r == *self,
    {
        *self
    }
}

impl Copy for Mask8 {

}

impl<T: Scalar> Lanes<T> {
    /// The component in lane `i`.
    pub open spec fn lane(self, i: int) -> T {
        self.lanes[i]
    }

    pub fn from_array(lanes: [T; 8]) -> (r: Self)
        ensures
            r.lanes == lanes,
    {
        Lanes { lanes }
    }

    pub fn to_array(self) -> (r: [T; 8])
        ensures
            r == self.lanes,
    {
        self.lanes
    }

    /// The component in lane `i`.
    pub fn get(&self, i: usize) -> (r: T)
        requires
            i < LANES,
        ensures
            r == self.lane(i as int),
    {
        self.lanes[i]
    }

    pub open spec fn splat_spec(v: T) -> Self {
        Lanes { lanes: [v, v, v, v, v, v, v, v] }
    }

    /// The group with `v` in every lane.
    pub fn splat(v: T) -> (r: Self)
        ensures
            r == Self::splat_spec(v),
            forall|i: int| 0 <= i < 8 ==> #[trigger] r.lane(i) == v,
    {
        Lanes { lanes: [v, v, v, v, v, v, v, v] }
    }

    pub open spec fn simd_lt_spec(self, other: Self) -> Mask8 {
        Mask8 {
            lanes: [
                self.lanes[0].lt_spec(other.lanes[0]),
                self.lanes[1].lt_spec(other.lanes[1]),
                self.lanes[2].lt_spec(other.lanes[2]),
                self.lanes[3].lt_spec(other.lanes[3]),
                self.lanes[4].lt_spec(other.lanes[4]),
                self.lanes[5].lt_spec(other.lanes[5]),
                self.lanes[6].lt_spec(other.lanes[6]),
                self.lanes[7].lt_spec(other.lanes[7]),
            ],
        }
    }

    /// Compares lane by lane: the mask is set where `self` is strictly less.
    pub fn simd_lt(self, other: Self) -> (r: Mask8)
        ensures
            r == self.simd_lt_spec(other),
            forall|i: int| 0 <= i < 8 ==> #[trigger] r.lanes[i] == self.lane(i).lt_spec(other.lane(i)),
    {
        Mask8 {
            lanes: [
                self.lanes[0].lt(other.lanes[0]),
                self.lanes[1].lt(other.lanes[1]),
                self.lanes[2].lt(other.lanes[2]),
                self.lanes[3].lt(other.lanes[3]),
                self.lanes[4].lt(other.lanes[4]),
                self.lanes[5].lt(other.lanes[5]),
                self.lanes[6].lt(other.lanes[6]),
                self.lanes[7].lt(other.lanes[7]),
            ],
        }
    }

    pub open spec fn simd_gt_spec(self, other: Self) -> Mask8 {
        Mask8 {
            lanes: [
                self.lanes[0].gt_spec(other.lanes[0]),
                self.lanes[1].gt_spec(other.lanes[1]),
                self.lanes[2].gt_spec(other.lanes[2]),
                self.lanes[3].gt_spec(other.lanes[3]),
                self.lanes[4].gt_spec(other.lanes[4]),
                self.lanes[5].gt_spec(other.lanes[5]),
                self.lanes[6].gt_spec(other.lanes[6]),
                self.lanes[7].gt_spec(other.lanes[7]),
            ],
        }
    }

    /// Compares lane by lane: the mask is set where `self` is strictly greater.
    pub fn simd_gt(self, other: Self) -> (r: Mask8)
        ensures
            r == self.simd_gt_spec(other),
            forall|i: int| 0 <= i < 8 ==> #[trigger] r.lanes[i] == self.lane(i).gt_spec(other.lane(i)),
    {
        Mask8 {
            lanes: [
                self.lanes[0].gt(other.lanes[0]),
                self.lanes[1].gt(other.lanes[1]),
                self.lanes[2].gt(other.lanes[2]),
                self.lanes[3].gt(other.lanes[3]),
                self.lanes[4].gt(other.lanes[4]),
                self.lanes[5].gt(other.lanes[5]),
                self.lanes[6].gt(other.lanes[6]),
                self.lanes[7].gt(other.lanes[7]),
            ],
        }
    }

    pub open spec fn max_value_spec() -> Self {
        Self::splat_spec(T::max_value_spec())
    }

    /// The largest finite value, in every lane.
    pub fn max_value() -> (r: Self)
        ensures
            r == Self::max_value_spec(),
    {
        Self::splat(T::max_value())
    }
}

impl Mask8 {
    pub open spec fn splat_spec(v: bool) -> Self {
        Mask8 { lanes: [v, v, v, v, v, v, v, v] }
    }

    /// The mask with `v` in every lane.
    pub fn splat(v: bool) -> (r: Self)
        ensures
            r == Self::splat_spec(v),
            forall|i: int| 0 <= i < 8 ==> #[trigger] r.lanes[i] == v,
    {
        Mask8 { lanes: [v, v, v, v, v, v, v, v] }
    }

    /// The boolean in lane `i`.
    pub fn test(&self, i: usize) -> (r: bool)
        requires
            i < LANES,
        ensures
            r == self.lanes[i as int],
    {
        self.lanes[i]
    }

    pub open spec fn all_spec(self) -> bool {
        forall|i: int| 0 <= i < 8 ==> #[trigger] self.lanes[i]
    }

    /// Whether every lane is set.
    pub fn all(self) -> (r: bool)
        ensures
            r == self.all_spec(),
    {
        self.lanes[0] && self.lanes[1] && self.lanes[2] && self.lanes[3] && self.lanes[4]
            && self.lanes[5] && self.lanes[6] && self.lanes[7]
    }

    pub open spec fn or_spec(self, other: Self) -> Self {
        Mask8 {
            lanes: [
                self.lanes[0] || other.lanes[0],
                self.lanes[1] || other.lanes[1],
                self.lanes[2] || other.lanes[2],
                self.lanes[3] || other.lanes[3],
                self.lanes[4] || other.lanes[4],
                self.lanes[5] || other.lanes[5],
                self.lanes[6] || other.lanes[6],
                self.lanes[7] || other.lanes[7],
            ],
        }
    }

    /// The lane-wise disjunction of two masks.
    pub fn or(self, other: Self) -> (r: Self)
        ensures
            r == self.or_spec(other),
            forall|i: int| 0 <= i < 8 ==> #[trigger] r.lanes[i] == (self.lanes[i] || other.lanes[i]),
    {
        Mask8 {
            lanes: [
                self.lanes[0] || other.lanes[0],
                self.lanes[1] || other.lanes[1],
                self.lanes[2] || other.lanes[2],
                self.lanes[3] || other.lanes[3],
                self.lanes[4] || other.lanes[4],
                self.lanes[5] || other.lanes[5],
                self.lanes[6] || other.lanes[6],
                self.lanes[7] || other.lanes[7],
            ],
        }
    }
}

impl<T: Scalar> Maskable<Lanes<T>> for Mask8 {
    open spec fn select_spec(&self, true_values: Lanes<T>, false_values: Lanes<T>) -> Lanes<T> {
        Lanes {
            lanes: [
                if self.lanes[0] { true_values.lanes[0] } else { false_values.lanes[0] },
                if self.lanes[1] { true_values.lanes[1] } else { false_values.lanes[1] },
                if self.lanes[2] { true_values.lanes[2] } else { false_values.lanes[2] },
                if self.lanes[3] { true_values.lanes[3] } else { false_values.lanes[3] },
                if self.lanes[4] { true_values.lanes[4] } else { false_values.lanes[4] },
                if self.lanes[5] { true_values.lanes[5] } else { false_values.lanes[5] },
                if self.lanes[6] { true_values.lanes[6] } else { false_values.lanes[6] },
                if self.lanes[7] { true_values.lanes[7] } else { false_values.lanes[7] },
            ],
        }
    }

    fn select(&self, true_values: Lanes<T>, false_values: Lanes<T>) -> (r: Lanes<T>) {
        Lanes {
            lanes: [
                if self.lanes[0] { true_values.lanes[0] } else { false_values.lanes[0] },
                if self.lanes[1] { true_values.lanes[1] } else { false_values.lanes[1] },
                if self.lanes[2] { true_values.lanes[2] } else { false_values.lanes[2] },
                if self.lanes[3] { true_values.lanes[3] } else { false_values.lanes[3] },
                if self.lanes[4] { true_values.lanes[4] } else { false_values.lanes[4] },
                if self.lanes[5] { true_values.lanes[5] } else { false_values.lanes[5] },
                if self.lanes[6] { true_values.lanes[6] } else { false_values.lanes[6] },
                if self.lanes[7] { true_values.lanes[7] } else { false_values.lanes[7] },
            ],
        }
    }
}

impl<T: Scalar> Ops for Lanes<T> {
    open spec fn add_spec(self, rhs: Self) -> Self {
        Lanes {
            lanes: [
                self.lanes[0].add_spec(rhs.lanes[0]),
                self.lanes[1].add_spec(rhs.lanes[1]),
                self.lanes[2].add_spec(rhs.lanes[2]),
                self.lanes[3].add_spec(rhs.lanes[3]),
                self.lanes[4].add_spec(rhs.lanes[4]),
                self.lanes[5].add_spec(rhs.lanes[5]),
                self.lanes[6].add_spec(rhs.lanes[6]),
                self.lanes[7].add_spec(rhs.lanes[7]),
            ],
        }
    }

    fn add(self, rhs: Self) -> (r: Self) {
        Lanes {
            lanes: [
                self.lanes[0].add(rhs.lanes[0]),
                self.lanes[1].add(rhs.lanes[1]),
                self.lanes[2].add(rhs.lanes[2]),
                self.lanes[3].add(rhs.lanes[3]),
                self.lanes[4].add(rhs.lanes[4]),
                self.lanes[5].add(rhs.lanes[5]),
                self.lanes[6].add(rhs.lanes[6]),
                self.lanes[7].add(rhs.lanes[7]),
            ],
        }
    }

    open spec fn sub_spec(self, rhs: Self) -> Self {
        Lanes {
            lanes: [
                self.lanes[0].sub_spec(rhs.lanes[0]),
                self.lanes[1].sub_spec(rhs.lanes[1]),
                self.lanes[2].sub_spec(rhs.lanes[2]),
                self.lanes[3].sub_spec(rhs.lanes[3]),
                self.lanes[4].sub_spec(rhs.lanes[4]),
                self.lanes[5].sub_spec(rhs.lanes[5]),
                self.lanes[6].sub_spec(rhs.lanes[6]),
                self.lanes[7].sub_spec(rhs.lanes[7]),
            ],
        }
    }

    fn sub(self, rhs: Self) -> (r: Self) {
        Lanes {
            lanes: [
                self.lanes[0].sub(rhs.lanes[0]),
                self.lanes[1].sub(rhs.lanes[1]),
                self.lanes[2].sub(rhs.lanes[2]),
                self.lanes[3].sub(rhs.lanes[3]),
                self.lanes[4].sub(rhs.lanes[4]),
                self.lanes[5].sub(rhs.lanes[5]),
                self.lanes[6].sub(rhs.lanes[6]),
                self.lanes[7].sub(rhs.lanes[7]),
            ],
        }
    }

    open spec fn mul_spec(self, rhs: Self) -> Self {
        Lanes {
            lanes: [
                self.lanes[0].mul_spec(rhs.lanes[0]),
                self.lanes[1].mul_spec(rhs.lanes[1]),
                self.lanes[2].mul_spec(rhs.lanes[2]),
                self.lanes[3].mul_spec(rhs.lanes[3]),
                self.lanes[4].mul_spec(rhs.lanes[4]),
                self.lanes[5].mul_spec(rhs.lanes[5]),
                self.lanes[6].mul_spec(rhs.lanes[6]),
                self.lanes[7].mul_spec(rhs.lanes[7]),
            ],
        }
    }

    fn mul(self, rhs: Self) -> (r: Self) {
        Lanes {
            lanes: [
                self.lanes[0].mul(rhs.lanes[0]),
                self.lanes[1].mul(rhs.lanes[1]),
                self.lanes[2].mul(rhs.lanes[2]),
                self.lanes[3].mul(rhs.lanes[3]),
                self.lanes[4].mul(rhs.lanes[4]),
                self.lanes[5].mul(rhs.lanes[5]),
                self.lanes[6].mul(rhs.lanes[6]),
                self.lanes[7].mul(rhs.lanes[7]),
            ],
        }
    }

    open spec fn div_spec(self, rhs: Self) -> Self {
        Lanes {
            lanes: [
                self.lanes[0].div_spec(rhs.lanes[0]),
                self.lanes[1].div_spec(rhs.lanes[1]),
                self.lanes[2].div_spec(rhs.lanes[2]),
                self.lanes[3].div_spec(rhs.lanes[3]),
                self.lanes[4].div_spec(rhs.lanes[4]),
                self.lanes[5].div_spec(rhs.lanes[5]),
                self.lanes[6].div_spec(rhs.lanes[6]),
                self.lanes[7].div_spec(rhs.lanes[7]),
            ],
        }
    }

    fn div(self, rhs: Self) -> (r: Self) {
        Lanes {
            lanes: [
                self.lanes[0].div(rhs.lanes[0]),
                self.lanes[1].div(rhs.lanes[1]),
                self.lanes[2].div(rhs.lanes[2]),
                self.lanes[3].div(rhs.lanes[3]),
                self.lanes[4].div(rhs.lanes[4]),
                self.lanes[5].div(rhs.lanes[5]),
                self.lanes[6].div(rhs.lanes[6]),
                self.lanes[7].div(rhs.lanes[7]),
            ],
        }
    }

    open spec fn rem_spec(self, rhs: Self) -> Self {
        Lanes {
            lanes: [
                self.lanes[0].rem_spec(rhs.lanes[0]),
                self.lanes[1].rem_spec(rhs.lanes[1]),
                self.lanes[2].rem_spec(rhs.lanes[2]),
                self.lanes[3].rem_spec(rhs.lanes[3]),
                self.lanes[4].rem_spec(rhs.lanes[4]),
                self.lanes[5].rem_spec(rhs.lanes[5]),
                self.lanes[6].rem_spec(rhs.lanes[6]),
                self.lanes[7].rem_spec(rhs.lanes[7]),
            ],
        }
    }

    fn rem(self, rhs: Self) -> (r: Self) {
        Lanes {
            lanes: [
                self.lanes[0].rem(rhs.lanes[0]),
                self.lanes[1].rem(rhs.lanes[1]),
                self.lanes[2].rem(rhs.lanes[2]),
                self.lanes[3].rem(rhs.lanes[3]),
                self.lanes[4].rem(rhs.lanes[4]),
                self.lanes[5].rem(rhs.lanes[5]),
                self.lanes[6].rem(rhs.lanes[6]),
                self.lanes[7].rem(rhs.lanes[7]),
            ],
        }
    }
}

impl<T: Scalar> FromRatio for Lanes<T> {
    open spec fn from_ratio_spec(num: i64, den: i64) -> Self {
        Lanes::splat_spec(T::from_ratio_spec(num, den))
    }

    fn from_ratio(num: i64, den: i64) -> (r: Self) {
        Lanes::splat(T::from_ratio(num, den))
    }
}

impl<T: Scalar> CompOps for Lanes<T> {
    open spec fn zero_spec() -> Self {
        Lanes::splat_spec(T::zero_spec())
    }

    fn zero() -> (r: Self) {
        Lanes::splat(T::zero())
    }

    open spec fn one_spec() -> Self {
        Lanes::splat_spec(T::one_spec())
    }

    fn one() -> (r: Self) {
        Lanes::splat(T::one())
    }

    open spec fn neg_spec(self) -> Self {
        Lanes {
            lanes: [
                self.lanes[0].neg_spec(),
                self.lanes[1].neg_spec(),
                self.lanes[2].neg_spec(),
                self.lanes[3].neg_spec(),
                self.lanes[4].neg_spec(),
                self.lanes[5].neg_spec(),
                self.lanes[6].neg_spec(),
                self.lanes[7].neg_spec(),
            ],
        }
    }

    fn neg(self) -> (r: Self) {
        Lanes {
            lanes: [
                self.lanes[0].neg(),
                self.lanes[1].neg(),
                self.lanes[2].neg(),
                self.lanes[3].neg(),
                self.lanes[4].neg(),
                self.lanes[5].neg(),
                self.lanes[6].neg(),
                self.lanes[7].neg(),
            ],
        }
    }

    open spec fn min_spec(&self, other: Self) -> Self {
        Lanes {
            lanes: [
                self.lanes[0].min_spec(other.lanes[0]),
                self.lanes[1].min_spec(other.lanes[1]),
                self.lanes[2].min_spec(other.lanes[2]),
                self.lanes[3].min_spec(other.lanes[3]),
                self.lanes[4].min_spec(other.lanes[4]),
                self.lanes[5].min_spec(other.lanes[5]),
                self.lanes[6].min_spec(other.lanes[6]),
                self.lanes[7].min_spec(other.lanes[7]),
            ],
        }
    }

    fn min(&self, other: Self) -> (r: Self) {
        Lanes {
            lanes: [
                self.lanes[0].min(other.lanes[0]),
                self.lanes[1].min(other.lanes[1]),
                self.lanes[2].min(other.lanes[2]),
                self.lanes[3].min(other.lanes[3]),
                self.lanes[4].min(other.lanes[4]),
                self.lanes[5].min(other.lanes[5]),
                self.lanes[6].min(other.lanes[6]),
                self.lanes[7].min(other.lanes[7]),
            ],
        }
    }

    open spec fn max_spec(&self, other: Self) -> Self {
        Lanes {
            lanes: [
                self.lanes[0].max_spec(other.lanes[0]),
                self.lanes[1].max_spec(other.lanes[1]),
                self.lanes[2].max_spec(other.lanes[2]),
                self.lanes[3].max_spec(other.lanes[3]),
                self.lanes[4].max_spec(other.lanes[4]),
                self.lanes[5].max_spec(other.lanes[5]),
                self.lanes[6].max_spec(other.lanes[6]),
                self.lanes[7].max_spec(other.lanes[7]),
            ],
        }
    }

    fn max(&self, other: Self) -> (r: Self) {
        Lanes {
            lanes: [
                self.lanes[0].max(other.lanes[0]),
                self.lanes[1].max(other.lanes[1]),
                self.lanes[2].max(other.lanes[2]),
                self.lanes[3].max(other.lanes[3]),
                self.lanes[4].max(other.lanes[4]),
                self.lanes[5].max(other.lanes[5]),
                self.lanes[6].max(other.lanes[6]),
                self.lanes[7].max(other.lanes[7]),
            ],
        }
    }

    open spec fn clamp_spec(&self, min: Self, max: Self) -> Self {
        Lanes {
            lanes: [
                self.lanes[0].clamp_spec(min.lanes[0], max.lanes[0]),
                self.lanes[1].clamp_spec(min.lanes[1], max.lanes[1]),
                self.lanes[2].clamp_spec(min.lanes[2], max.lanes[2]),
                self.lanes[3].clamp_spec(min.lanes[3], max.lanes[3]),
                self.lanes[4].clamp_spec(min.lanes[4], max.lanes[4]),
                self.lanes[5].clamp_spec(min.lanes[5], max.lanes[5]),
                self.lanes[6].clamp_spec(min.lanes[6], max.lanes[6]),
                self.lanes[7].clamp_spec(min.lanes[7], max.lanes[7]),
            ],
        }
    }

    fn clamp(&self, min: Self, max: Self) -> (r: Self) {
        Lanes {
            lanes: [
                self.lanes[0].clamp(min.lanes[0], max.lanes[0]),
                self.lanes[1].clamp(min.lanes[1], max.lanes[1]),
                self.lanes[2].clamp(min.lanes[2], max.lanes[2]),
                self.lanes[3].clamp(min.lanes[3], max.lanes[3]),
                self.lanes[4].clamp(min.lanes[4], max.lanes[4]),
                self.lanes[5].clamp(min.lanes[5], max.lanes[5]),
                self.lanes[6].clamp(min.lanes[6], max.lanes[6]),
                self.lanes[7].clamp(min.lanes[7], max.lanes[7]),
            ],
        }
    }

    open spec fn powf_spec(&self, exp: Self) -> Self {
        Lanes {
            lanes: [
                self.lanes[0].powf_spec(exp.lanes[0]),
                self.lanes[1].powf_spec(exp.lanes[1]),
                self.lanes[2].powf_spec(exp.lanes[2]),
                self.lanes[3].powf_spec(exp.lanes[3]),
                self.lanes[4].powf_spec(exp.lanes[4]),
                self.lanes[5].powf_spec(exp.lanes[5]),
                self.lanes[6].powf_spec(exp.lanes[6]),
                self.lanes[7].powf_spec(exp.lanes[7]),
            ],
        }
    }

    fn powf(&self, exp: Self) -> (r: Self) {
        Lanes {
            lanes: [
                self.lanes[0].powf(exp.lanes[0]),
                self.lanes[1].powf(exp.lanes[1]),
                self.lanes[2].powf(exp.lanes[2]),
                self.lanes[3].powf(exp.lanes[3]),
                self.lanes[4].powf(exp.lanes[4]),
                self.lanes[5].powf(exp.lanes[5]),
                self.lanes[6].powf(exp.lanes[6]),
                self.lanes[7].powf(exp.lanes[7]),
            ],
        }
    }

    open spec fn sqrt_spec(self) -> Self {
        Lanes {
            lanes: [
                self.lanes[0].sqrt_spec(),
                self.lanes[1].sqrt_spec(),
                self.lanes[2].sqrt_spec(),
                self.lanes[3].sqrt_spec(),
                self.lanes[4].sqrt_spec(),
                self.lanes[5].sqrt_spec(),
                self.lanes[6].sqrt_spec(),
                self.lanes[7].sqrt_spec(),
            ],
        }
    }

    fn sqrt(self) -> (r: Self) {
        Lanes {
            lanes: [
                self.lanes[0].sqrt(),
                self.lanes[1].sqrt(),
                self.lanes[2].sqrt(),
                self.lanes[3].sqrt(),
                self.lanes[4].sqrt(),
                self.lanes[5].sqrt(),
                self.lanes[6].sqrt(),
                self.lanes[7].sqrt(),
            ],
        }
    }

    open spec fn recip_spec(self) -> Self {
        Lanes {
            lanes: [
                self.lanes[0].recip_spec(),
                self.lanes[1].recip_spec(),
                self.lanes[2].recip_spec(),
                self.lanes[3].recip_spec(),
                self.lanes[4].recip_spec(),
                self.lanes[5].recip_spec(),
                self.lanes[6].recip_spec(),
                self.lanes[7].recip_spec(),
            ],
        }
    }

    fn recip(self) -> (r: Self) {
        Lanes {
            lanes: [
                self.lanes[0].recip(),
                self.lanes[1].recip(),
                self.lanes[2].recip(),
                self.lanes[3].recip(),
                self.lanes[4].recip(),
                self.lanes[5].recip(),
                self.lanes[6].recip(),
                self.lanes[7].recip(),
            ],
        }
    }

    open spec fn abs_spec(self) -> Self {
        Lanes {
            lanes: [
                self.lanes[0].abs_spec(),
                self.lanes[1].abs_spec(),
                self.lanes[2].abs_spec(),
                self.lanes[3].abs_spec(),
                self.lanes[4].abs_spec(),
                self.lanes[5].abs_spec(),
                self.lanes[6].abs_spec(),
                self.lanes[7].abs_spec(),
            ],
        }
    }

    fn abs(self) -> (r: Self) {
        Lanes {
            lanes: [
                self.lanes[0].abs(),
                self.lanes[1].abs(),
                self.lanes[2].abs(),
                self.lanes[3].abs(),
                self.lanes[4].abs(),
                self.lanes[5].abs(),
                self.lanes[6].abs(),
                self.lanes[7].abs(),
            ],
        }
    }

    open spec fn mul_add_spec(self, m: Self, a: Self) -> Self {
        Lanes {
            lanes: [
                self.lanes[0].mul_add_spec(m.lanes[0], a.lanes[0]),
                self.lanes[1].mul_add_spec(m.lanes[1], a.lanes[1]),
                self.lanes[2].mul_add_spec(m.lanes[2], a.lanes[2]),
                self.lanes[3].mul_add_spec(m.lanes[3], a.lanes[3]),
                self.lanes[4].mul_add_spec(m.lanes[4], a.lanes[4]),
                self.lanes[5].mul_add_spec(m.lanes[5], a.lanes[5]),
                self.lanes[6].mul_add_spec(m.lanes[6], a.lanes[6]),
                self.lanes[7].mul_add_spec(m.lanes[7], a.lanes[7]),
            ],
        }
    }

    fn mul_add(self, m: Self, a: Self) -> (r: Self) {
        Lanes {
            lanes: [
                self.lanes[0].mul_add(m.lanes[0], a.lanes[0]),
                self.lanes[1].mul_add(m.lanes[1], a.lanes[1]),
                self.lanes[2].mul_add(m.lanes[2], a.lanes[2]),
                self.lanes[3].mul_add(m.lanes[3], a.lanes[3]),
                self.lanes[4].mul_add(m.lanes[4], a.lanes[4]),
                self.lanes[5].mul_add(m.lanes[5], a.lanes[5]),
                self.lanes[6].mul_add(m.lanes[6], a.lanes[6]),
                self.lanes[7].mul_add(m.lanes[7], a.lanes[7]),
            ],
        }
    }
}

} // verus!
