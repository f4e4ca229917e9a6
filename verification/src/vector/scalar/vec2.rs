//! 2D vectors of single components.

use vstd::prelude::*;

use crate::vector::lanes::Lanes;
use crate::vector::lanes::Vec2x8;
use crate::vector::scalar::Scalar;
use crate::vector::Comp;
use crate::vector::CompOps;
use crate::vector::Ops;
use crate::vector::Vector;
use crate::vector::Vector2D;

verus! {

/// A 2D vector of single components.
pub struct Vec2<T: Scalar> {
    pub x: T,
    pub y: T,
}

impl<T: Scalar> Clone for Vec2<T> {
    fn clone(&self) -> (r: Self)
        ensures
            r == *self,
    {
        *self
    }
}

impl<T: Scalar> Copy for Vec2<T> {

}

impl<T: Scalar> Vec2<T> {
    pub fn new(x: T, y: T) -> (r: Self)
        ensures
            r == (Vec2 { x, y }),
    {
        Vec2 { x, y }
    }

    pub open spec fn splat_spec(v: T) -> Self {
        Vec2 { x: v, y: v }
    }

    /// The vector with every component `v`.
    pub fn splat(v: T) -> (r: Self)
        ensures
            r == Self::splat_spec(v),
    {
        Vec2 { x: v, y: v }
    }

    pub open spec fn widen_spec(&self) -> Vec2x8<T> {
        Vec2x8 { x: Lanes::splat_spec(self.x), y: Lanes::splat_spec(self.y) }
    }

    /// The same vector in each of the eight lanes.
    pub fn widen(&self) -> (r: Vec2x8<T>)
        ensures
            r == self.widen_spec(),
            forall|i: int| 0 <= i < 8 ==> #[trigger] r.lane(i) == *self,
    {
        Vec2x8::new(Lanes::splat(self.x), Lanes::splat(self.y))
    }

    pub open spec fn dot_spec(&self, rhs: Self) -> T {
        self.x.mul_spec(rhs.x).add_spec(self.y.mul_spec(rhs.y))
    }

    /// The sum of the products of corresponding components.
    pub fn dot(&self, rhs: Self) -> (r: T)
        ensures
            r == self.dot_spec(rhs),
    {
        self.x.mul(rhs.x).add(self.y.mul(rhs.y))
    }

    pub open spec fn length_spec(&self) -> T {
        self.length_sq_spec().sqrt_spec()
    }

    pub fn length(&self) -> (r: T)
        ensures
            r == self.length_spec(),
    {
        self.length_sq().sqrt()
    }

    pub open spec fn length_sq_spec(&self) -> T {
        self.dot_spec(*self)
    }

    /// The squared length, the dot product of the vector with itself.
    pub fn length_sq(&self) -> (r: T)
        ensures
            r == self.length_sq_spec(),
    {
        self.dot(*self)
    }

    pub open spec fn length_recip_spec(self) -> T {
        self.length_spec().recip_spec()
    }

    /// The reciprocal of the length.
    pub fn length_recip(self) -> (r: T)
        ensures
            r == self.length_recip_spec(),
    {
        self.length().recip()
    }

    pub open spec fn normalise_spec(&self) -> Self {
        let k = self.length_recip_spec();
        Vec2 { x: self.x.mul_spec(k), y: self.y.mul_spec(k) }
    }

    /// The vector scaled by the reciprocal of its length.
    #[must_use]
    pub fn normalise(&self) -> (r: Self)
        ensures
            r == self.normalise_spec(),
    {
        let k = self.length_recip();
        Vec2 { x: self.x.mul(k), y: self.y.mul(k) }
    }

    pub open spec fn mul_add_spec(&self, m: Self, a: Self) -> Self {
        Vec2 { x: self.x.mul_add_spec(m.x, a.x), y: self.y.mul_add_spec(m.y, a.y) }
    }

    /// `self * m + a`, fused, component by component.
    pub fn mul_add(&self, m: Self, a: Self) -> (r: Self)
        ensures
            r == self.mul_add_spec(m, a),
    {
        Vec2 { x: self.x.mul_add(m.x, a.x), y: self.y.mul_add(m.y, a.y) }
    }

    pub open spec fn powf_spec(self, n: T) -> Self {
        Vec2 { x: self.x.powf_spec(n), y: self.y.powf_spec(n) }
    }

    pub fn powf(self, n: T) -> (r: Self)
        ensures
            r == self.powf_spec(n),
    {
        Vec2 { x: self.x.powf(n), y: self.y.powf(n) }
    }

    pub open spec fn min_spec(&self, rhs: Self) -> Self {
        Vec2 { x: self.x.min_spec(rhs.x), y: self.y.min_spec(rhs.y) }
    }

    pub fn min(&self, rhs: Self) -> (r: Self)
        ensures
            r == self.min_spec(rhs),
    {
        Vec2 { x: self.x.min(rhs.x), y: self.y.min(rhs.y) }
    }

    pub open spec fn max_spec(&self, rhs: Self) -> Self {
        Vec2 { x: self.x.max_spec(rhs.x), y: self.y.max_spec(rhs.y) }
    }

    pub fn max(&self, rhs: Self) -> (r: Self)
        ensures
            r == self.max_spec(rhs),
    {
        Vec2 { x: self.x.max(rhs.x), y: self.y.max(rhs.y) }
    }

    pub open spec fn min_element_spec(&self) -> T {
        self.x.min_spec(self.y)
    }

    /// The smallest of the components.
    pub fn min_element(&self) -> (r: T)
        ensures
            r == self.min_element_spec(),
    {
        self.x.min(self.y)
    }

    pub open spec fn max_element_spec(&self) -> T {
        self.x.max_spec(self.y)
    }

    /// The largest of the components.
    pub fn max_element(&self) -> (r: T)
        ensures
            r == self.max_element_spec(),
    {
        self.x.max(self.y)
    }

    pub open spec fn abs_spec(&self) -> Self {
        Vec2 { x: self.x.abs_spec(), y: self.y.abs_spec() }
    }

    pub fn abs(&self) -> (r: Self)
        ensures
            r == self.abs_spec(),
    {
        Vec2 { x: self.x.abs(), y: self.y.abs() }
    }
}

impl<T: Scalar> Ops for Vec2<T> {
    open spec fn add_spec(self, rhs: Self) -> Self {
        Vec2 { x: self.x.add_spec(rhs.x), y: self.y.add_spec(rhs.y) }
    }

    fn add(self, rhs: Self) -> (r: Self) {
        Vec2 { x: self.x.add(rhs.x), y: self.y.add(rhs.y) }
    }

    open spec fn sub_spec(self, rhs: Self) -> Self {
        Vec2 { x: self.x.sub_spec(rhs.x), y: self.y.sub_spec(rhs.y) }
    }

    fn sub(self, rhs: Self) -> (r: Self) {
        Vec2 { x: self.x.sub(rhs.x), y: self.y.sub(rhs.y) }
    }

    open spec fn mul_spec(self, rhs: Self) -> Self {
        Vec2 { x: self.x.mul_spec(rhs.x), y: self.y.mul_spec(rhs.y) }
    }

    fn mul(self, rhs: Self) -> (r: Self) {
        Vec2 { x: self.x.mul(rhs.x), y: self.y.mul(rhs.y) }
    }

    open spec fn div_spec(self, rhs: Self) -> Self {
        Vec2 { x: self.x.div_spec(rhs.x), y: self.y.div_spec(rhs.y) }
    }

    fn div(self, rhs: Self) -> (r: Self) {
        Vec2 { x: self.x.div(rhs.x), y: self.y.div(rhs.y) }
    }

    open spec fn rem_spec(self, rhs: Self) -> Self {
        Vec2 { x: self.x.rem_spec(rhs.x), y: self.y.rem_spec(rhs.y) }
    }

    fn rem(self, rhs: Self) -> (r: Self) {
        Vec2 { x: self.x.rem(rhs.x), y: self.y.rem(rhs.y) }
    }
}

impl<T: Scalar> Ops<T, Vec2<T>> for Vec2<T> {
    open spec fn add_spec(self, rhs: T) -> Self {
        Vec2 { x: self.x.add_spec(rhs), y: self.y.add_spec(rhs) }
    }

    fn add(self, rhs: T) -> (r: Self) {
        Vec2 { x: self.x.add(rhs), y: self.y.add(rhs) }
    }

    open spec fn sub_spec(self, rhs: T) -> Self {
        Vec2 { x: self.x.sub_spec(rhs), y: self.y.sub_spec(rhs) }
    }

    fn sub(self, rhs: T) -> (r: Self) {
        Vec2 { x: self.x.sub(rhs), y: self.y.sub(rhs) }
    }

    open spec fn mul_spec(self, rhs: T) -> Self {
        Vec2 { x: self.x.mul_spec(rhs), y: self.y.mul_spec(rhs) }
    }

    fn mul(self, rhs: T) -> (r: Self) {
        Vec2 { x: self.x.mul(rhs), y: self.y.mul(rhs) }
    }

    open spec fn div_spec(self, rhs: T) -> Self {
        Vec2 { x: self.x.div_spec(rhs), y: self.y.div_spec(rhs) }
    }

    fn div(self, rhs: T) -> (r: Self) {
        Vec2 { x: self.x.div(rhs), y: self.y.div(rhs) }
    }

    open spec fn rem_spec(self, rhs: T) -> Self {
        Vec2 { x: self.x.rem_spec(rhs), y: self.y.rem_spec(rhs) }
    }

    fn rem(self, rhs: T) -> (r: Self) {
        Vec2 { x: self.x.rem(rhs), y: self.y.rem(rhs) }
    }
}

impl<T: Scalar> Vector<2, T> for Vec2<T> {
    open spec fn zero_spec() -> Self {
        Vec2::splat_spec(T::zero_spec())
    }

    fn zero() -> (r: Self) {
        Vec2::splat(T::zero())
    }

    open spec fn one_spec() -> Self {
        Vec2::splat_spec(T::one_spec())
    }

    fn one() -> (r: Self) {
        Vec2::splat(T::one())
    }

    open spec fn splat_spec(v: T) -> Self {
        Vec2::splat_spec(v)
    }

    fn splat(v: T) -> (r: Self) {
        Vec2::splat(v)
    }

    open spec fn neg_spec(self) -> Self {
        Vec2 { x: self.x.neg_spec(), y: self.y.neg_spec() }
    }

    fn neg(self) -> (r: Self) {
        Vec2 { x: self.x.neg(), y: self.y.neg() }
    }

    open spec fn dot_spec(&self, other: Self) -> T {
        Vec2::dot_spec(self, other)
    }

    fn dot(&self, other: Self) -> (r: T) {
        Vec2::dot(self, other)
    }

    open spec fn length_spec(&self) -> T {
        Vec2::length_spec(self)
    }

    fn length(&self) -> (r: T) {
        Vec2::length(self)
    }

    open spec fn normalise_spec(&self) -> Self {
        Vec2::normalise_spec(self)
    }

    fn normalise(&self) -> (r: Self) {
        Vec2::normalise(self)
    }

    open spec fn mul_add_spec(&self, m: Self, a: Self) -> Self {
        Vec2::mul_add_spec(self, m, a)
    }

    fn mul_add(&self, m: Self, a: Self) -> (r: Self) {
        Vec2::mul_add(self, m, a)
    }

    open spec fn abs_spec(&self) -> Self {
        Vec2::abs_spec(self)
    }

    fn abs(&self) -> (r: Self) {
        Vec2::abs(self)
    }

    open spec fn max_spec(&self, other: Self) -> Self {
        Vec2::max_spec(self, other)
    }

    fn max(&self, other: Self) -> (r: Self) {
        Vec2::max(self, other)
    }

    open spec fn max_element_spec(&self) -> T {
        Vec2::max_element_spec(self)
    }

    fn max_element(&self) -> (r: T) {
        Vec2::max_element(self)
    }

    open spec fn min_spec(&self, other: Self) -> Self {
        Vec2::min_spec(self, other)
    }

    fn min(&self, other: Self) -> (r: Self) {
        Vec2::min(self, other)
    }

    open spec fn min_element_spec(&self) -> T {
        Vec2::min_element_spec(self)
    }

    fn min_element(&self) -> (r: T) {
        Vec2::min_element(self)
    }

    open spec fn powf_spec(&self, exp: T) -> Self {
        Vec2::powf_spec(*self, exp)
    }

    fn powf(&self, exp: T) -> (r: Self) {
        Vec2::powf(*self, exp)
    }
}

impl<T: Scalar> Vector2D<T> for Vec2<T> {
    open spec fn x_spec(&self) -> T {
        self.x
    }

    fn x(&self) -> (r: T) {
        self.x
    }

    open spec fn y_spec(&self) -> T {
        self.y
    }

    fn y(&self) -> (r: T) {
        self.y
    }
}

impl<T: Scalar> Comp<2> for T {
    type Vec = Vec2<T>;

    open spec fn new_vec_spec(arr: [T; 2]) -> Vec2<T> {
        Vec2 { x: arr[0], y: arr[1] }
    }

    fn new_vec(arr: [T; 2]) -> (r: Vec2<T>) {
        Vec2::new(arr[0], arr[1])
    }
}

} // verus!
