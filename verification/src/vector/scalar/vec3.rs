//! 3D vectors of single components.

use vstd::prelude::*;

use crate::vector::lanes::Lanes;
use crate::vector::lanes::Vec3x8;
use crate::vector::scalar::Scalar;
use crate::vector::Comp;
use crate::vector::CompOps;
use crate::vector::Ops;
use crate::vector::Vector;
use crate::vector::Vector3D;

verus! {

/// A 3D vector of single components.
pub struct Vec3<T: Scalar> {
    pub x: T,
    pub y: T,
    pub z: T,
}

impl<T: Scalar> Clone for Vec3<T> {
    fn clone(&self) -> (r: Self)
        ensures
            r == *self,
    {
        *self
    }
}

impl<T: Scalar> Copy for Vec3<T> {

}

impl<T: Scalar> Vec3<T> {
    pub fn new(x: T, y: T, z: T) -> (r: Self)
        ensures
            r == (Vec3 { x, y, z }),
    {
        Vec3 { x, y, z }
    }

    pub open spec fn splat_spec(v: T) -> Self {
        Vec3 { x: v, y: v, z: v }
    }

    /// The vector with every component `v`.
    pub fn splat(v: T) -> (r: Self)
        ensures
            r == Self::splat_spec(v),
    {
        Vec3 { x: v, y: v, z: v }
    }

    pub open spec fn widen_spec(&self) -> Vec3x8<T> {
        Vec3x8 { x: Lanes::splat_spec(self.x), y: Lanes::splat_spec(self.y), z: Lanes::splat_spec(self.z) }
    }

    /// The same vector in each of the eight lanes.
    pub fn widen(&self) -> (r: Vec3x8<T>)
        ensures
            r == self.widen_spec(),
            forall|i: int| 0 <= i < 8 ==> #[trigger] r.lane(i) == *self,
    {
        Vec3x8::new(Lanes::splat(self.x), Lanes::splat(self.y), Lanes::splat(self.z))
    }

    pub open spec fn dot_spec(&self, rhs: Self) -> T {
        self.x.mul_spec(rhs.x).add_spec(self.y.mul_spec(rhs.y)).add_spec(self.z.mul_spec(rhs.z))
    }

    /// The sum of the products of corresponding components.
    pub fn dot(&self, rhs: Self) -> (r: T)
        ensures
            r == self.dot_spec(rhs),
    {
        self.x.mul(rhs.x).add(self.y.mul(rhs.y)).add(self.z.mul(rhs.z))
    }

    pub open spec fn length_spec(&self) -> T {
        self.length_sq_spec().sqrt_spec()
    }

    pub fn length(&self) -> (r: T)
        ensures
            r == self.length_spec(),
    {
        self.length_sq().sqrt()
    }

    pub open spec fn length_sq_spec(&self) -> T {
        self.dot_spec(*self)
    }

    /// The squared length, the dot product of the vector with itself.
    pub fn length_sq(&self) -> (r: T)
        ensures
            r == self.length_sq_spec(),
    {
        self.dot(*self)
    }

    pub open spec fn length_recip_spec(self) -> T {
        self.length_spec().recip_spec()
    }

    /// The reciprocal of the length.
    pub fn length_recip(self) -> (r: T)
        ensures
            r == self.length_recip_spec(),
    {
        self.length().recip()
    }

    pub open spec fn normalise_spec(&self) -> Self {
        let k = self.length_recip_spec();
        Vec3 { x: self.x.mul_spec(k), y: self.y.mul_spec(k), z: self.z.mul_spec(k) }
    }

    /// The vector scaled by the reciprocal of its length.
    #[must_use]
    pub fn normalise(&self) -> (r: Self)
        ensures
            r == self.normalise_spec(),
    {
        let k = self.length_recip();
        Vec3 { x: self.x.mul(k), y: self.y.mul(k), z: self.z.mul(k) }
    }

    pub open spec fn mul_add_spec(&self, m: Self, a: Self) -> Self {
        Vec3 { x: self.x.mul_add_spec(m.x, a.x), y: self.y.mul_add_spec(m.y, a.y), z: self.z.mul_add_spec(m.z, a.z) }
    }

    /// `self * m + a`, fused, component by component.
    pub fn mul_add(&self, m: Self, a: Self) -> (r: Self)
        ensures
            r == self.mul_add_spec(m, a),
    {
        Vec3 { x: self.x.mul_add(m.x, a.x), y: self.y.mul_add(m.y, a.y), z: self.z.mul_add(m.z, a.z) }
    }

    pub open spec fn powf_spec(self, n: T) -> Self {
        Vec3 { x: self.x.powf_spec(n), y: self.y.powf_spec(n), z: self.z.powf_spec(n) }
    }

    pub fn powf(self, n: T) -> (r: Self)
        ensures
            r == self.powf_spec(n),
    {
        Vec3 { x: self.x.powf(n), y: self.y.powf(n), z: self.z.powf(n) }
    }

    pub open spec fn min_spec(&self, rhs: Self) -> Self {
        Vec3 { x: self.x.min_spec(rhs.x), y: self.y.min_spec(rhs.y), z: self.z.min_spec(rhs.z) }
    }

    pub fn min(&self, rhs: Self) -> (r: Self)
        ensures
            r == self.min_spec(rhs),
    {
        Vec3 { x: self.x.min(rhs.x), y: self.y.min(rhs.y), z: self.z.min(rhs.z) }
    }

    pub open spec fn max_spec(&self, rhs: Self) -> Self {
        Vec3 { x: self.x.max_spec(rhs.x), y: self.y.max_spec(rhs.y), z: self.z.max_spec(rhs.z) }
    }

    pub fn max(&self, rhs: Self) -> (r: Self)
        ensures
            r == self.max_spec(rhs),
    {
        Vec3 { x: self.x.max(rhs.x), y: self.y.max(rhs.y), z: self.z.max(rhs.z) }
    }

    pub open spec fn min_element_spec(&self) -> T {
        self.x.min_spec(self.y.min_spec(self.z))
    }

    /// The smallest of the components.
    pub fn min_element(&self) -> (r: T)
        ensures
            r == self.min_element_spec(),
    {
        self.x.min(self.y.min(self.z))
    }

    pub open spec fn max_element_spec(&self) -> T {
        self.x.max_spec(self.y.max_spec(self.z))
    }

    /// The largest of the components.
    pub fn max_element(&self) -> (r: T)
        ensures
            r == self.max_element_spec(),
    {
        self.x.max(self.y.max(self.z))
    }

    pub open spec fn abs_spec(&self) -> Self {
        Vec3 { x: self.x.abs_spec(), y: self.y.abs_spec(), z: self.z.abs_spec() }
    }

    pub fn abs(&self) -> (r: Self)
        ensures
            r == self.abs_spec(),
    {
        Vec3 { x: self.x.abs(), y: self.y.abs(), z: self.z.abs() }
    }
}

impl<T: Scalar> Ops for Vec3<T> {
    open spec fn add_spec(self, rhs: Self) -> Self {
        Vec3 { x: self.x.add_spec(rhs.x), y: self.y.add_spec(rhs.y), z: self.z.add_spec(rhs.z) }
    }

    fn add(self, rhs: Self) -> (r: Self) {
        Vec3 { x: self.x.add(rhs.x), y: self.y.add(rhs.y), z: self.z.add(rhs.z) }
    }

    open spec fn sub_spec(self, rhs: Self) -> Self {
        Vec3 { x: self.x.sub_spec(rhs.x), y: self.y.sub_spec(rhs.y), z: self.z.sub_spec(rhs.z) }
    }

    fn sub(self, rhs: Self) -> (r: Self) {
        Vec3 { x: self.x.sub(rhs.x), y: self.y.sub(rhs.y), z: self.z.sub(rhs.z) }
    }

    open spec fn mul_spec(self, rhs: Self) -> Self {
        Vec3 { x: self.x.mul_spec(rhs.x), y: self.y.mul_spec(rhs.y), z: self.z.mul_spec(rhs.z) }
    }

    fn mul(self, rhs: Self) -> (r: Self) {
        Vec3 { x: self.x.mul(rhs.x), y: self.y.mul(rhs.y), z: self.z.mul(rhs.z) }
    }

    open spec fn div_spec(self, rhs: Self) -> Self {
        Vec3 { x: self.x.div_spec(rhs.x), y: self.y.div_spec(rhs.y), z: self.z.div_spec(rhs.z) }
    }

    fn div(self, rhs: Self) -> (r: Self) {
        Vec3 { x: self.x.div(rhs.x), y: self.y.div(rhs.y), z: self.z.div(rhs.z) }
    }

    open spec fn rem_spec(self, rhs: Self) -> Self {
        Vec3 { x: self.x.rem_spec(rhs.x), y: self.y.rem_spec(rhs.y), z: self.z.rem_spec(rhs.z) }
    }

    fn rem(self, rhs: Self) -> (r: Self) {
        Vec3 { x: self.x.rem(rhs.x), y: self.y.rem(rhs.y), z: self.z.rem(rhs.z) }
    }
}

impl<T: Scalar> Ops<T, Vec3<T>> for Vec3<T> {
    open spec fn add_spec(self, rhs: T) -> Self {
        Vec3 { x: self.x.add_spec(rhs), y: self.y.add_spec(rhs), z: self.z.add_spec(rhs) }
    }

    fn add(self, rhs: T) -> (r: Self) {
        Vec3 { x: self.x.add(rhs), y: self.y.add(rhs), z: self.z.add(rhs) }
    }

    open spec fn sub_spec(self, rhs: T) -> Self {
        Vec3 { x: self.x.sub_spec(rhs), y: self.y.sub_spec(rhs), z: self.z.sub_spec(rhs) }
    }

    fn sub(self, rhs: T) -> (r: Self) {
        Vec3 { x: self.x.sub(rhs), y: self.y.sub(rhs), z: self.z.sub(rhs) }
    }

    open spec fn mul_spec(self, rhs: T) -> Self {
        Vec3 { x: self.x.mul_spec(rhs), y: self.y.mul_spec(rhs), z: self.z.mul_spec(rhs) }
    }

    fn mul(self, rhs: T) -> (r: Self) {
        Vec3 { x: self.x.mul(rhs), y: self.y.mul(rhs), z: self.z.mul(rhs) }
    }

    open spec fn div_spec(self, rhs: T) -> Self {
        Vec3 { x: self.x.div_spec(rhs), y: self.y.div_spec(rhs), z: self.z.div_spec(rhs) }
    }

    fn div(self, rhs: T) -> (r: Self) {
        Vec3 { x: self.x.div(rhs), y: self.y.div(rhs), z: self.z.div(rhs) }
    }

    open spec fn rem_spec(self, rhs: T) -> Self {
        Vec3 { x: self.x.rem_spec(rhs), y: self.y.rem_spec(rhs), z: self.z.rem_spec(rhs) }
    }

    fn rem(self, rhs: T) -> (r: Self) {
        Vec3 { x: self.x.rem(rhs), y: self.y.rem(rhs), z: self.z.rem(rhs) }
    }
}

impl<T: Scalar> Vector<3, T> for Vec3<T> {
    open spec fn zero_spec() -> Self {
        Vec3::splat_spec(T::zero_spec())
    }

    fn zero() -> (r: Self) {
        Vec3::splat(T::zero())
    }

    open spec fn one_spec() -> Self {
        Vec3::splat_spec(T::one_spec())
    }

    fn one() -> (r: Self) {
        Vec3::splat(T::one())
    }

    open spec fn splat_spec(v: T) -> Self {
        Vec3::splat_spec(v)
    }

    fn splat(v: T) -> (r: Self) {
        Vec3::splat(v)
    }

    open spec fn neg_spec(self) -> Self {
        Vec3 { x: self.x.neg_spec(), y: self.y.neg_spec(), z: self.z.neg_spec() }
    }

    fn neg(self) -> (r: Self) {
        Vec3 { x: self.x.neg(), y: self.y.neg(), z: self.z.neg() }
    }

    open spec fn dot_spec(&self, other: Self) -> T {
        Vec3::dot_spec(self, other)
    }

    fn dot(&self, other: Self) -> (r: T) {
        Vec3::dot(self, other)
    }

    open spec fn length_spec(&self) -> T {
        Vec3::length_spec(self)
    }

    fn length(&self) -> (r: T) {
        Vec3::length(self)
    }

    open spec fn normalise_spec(&self) -> Self {
        Vec3::normalise_spec(self)
    }

    fn normalise(&self) -> (r: Self) {
        Vec3::normalise(self)
    }

    open spec fn mul_add_spec(&self, m: Self, a: Self) -> Self {
        Vec3::mul_add_spec(self, m, a)
    }

    fn mul_add(&self, m: Self, a: Self) -> (r: Self) {
        Vec3::mul_add(self, m, a)
    }

    open spec fn abs_spec(&self) -> Self {
        Vec3::abs_spec(self)
    }

    fn abs(&self) -> (r: Self) {
        Vec3::abs(self)
    }

    open spec fn max_spec(&self, other: Self) -> Self {
        Vec3::max_spec(self, other)
    }

    fn max(&self, other: Self) -> (r: Self) {
        Vec3::max(self, other)
    }

    open spec fn max_element_spec(&self) -> T {
        Vec3::max_element_spec(self)
    }

    fn max_element(&self) -> (r: T) {
        Vec3::max_element(self)
    }

    open spec fn min_spec(&self, other: Self) -> Self {
        Vec3::min_spec(self, other)
    }

    fn min(&self, other: Self) -> (r: Self) {
        Vec3::min(self, other)
    }

    open spec fn min_element_spec(&self) -> T {
        Vec3::min_element_spec(self)
    }

    fn min_element(&self) -> (r: T) {
        Vec3::min_element(self)
    }

    open spec fn powf_spec(&self, exp: T) -> Self {
        Vec3::powf_spec(*self, exp)
    }

    fn powf(&self, exp: T) -> (r: Self) {
        Vec3::powf(*self, exp)
    }
}

impl<T: Scalar> Vector3D<T> for Vec3<T> {
    open spec fn x_spec(&self) -> T {
        self.x
    }

    fn x(&self) -> (r: T) {
        self.x
    }

    open spec fn y_spec(&self) -> T {
        self.y
    }

    fn y(&self) -> (r: T) {
        self.y
    }

    open spec fn z_spec(&self) -> T {
        self.z
    }

    fn z(&self) -> (r: T) {
        self.z
    }
}

impl<T: Scalar> Comp<3> for T {
    type Vec = Vec3<T>;

    open spec fn new_vec_spec(arr: [T; 3]) -> Vec3<T> {
        Vec3 { x: arr[0], y: arr[1], z: arr[2] }
    }

    fn new_vec(arr: [T; 3]) -> (r: Vec3<T>) {
        Vec3::new(arr[0], arr[1], arr[2])
    }
}

} // verus!
