//! 3D vectors of lane groups: eight 3D vectors processed together.

use vstd::prelude::*;

use crate::vector::lanes::Lanes;
use crate::vector::scalar::Scalar;
use crate::vector::scalar::Vec3;
use crate::vector::Comp;
use crate::vector::CompOps;
use crate::vector::Ops;
use crate::vector::Vector;
use crate::vector::Vector3D;

verus! {

/// Eight 3D vectors, stored component by component.
pub struct Vec3x8<T: Scalar> {
    pub x: Lanes<T>,
    pub y: Lanes<T>,
    pub z: Lanes<T>,
}

impl<T: Scalar> Clone for Vec3x8<T> {
    fn clone(&self) -> (r: Self)
        ensures
            r == *self,
    {
        *self
    }
}

impl<T: Scalar> Copy for Vec3x8<T> {

}

impl<T: Scalar> Vec3x8<T> {
    /// The vector held in lane `i`.
    pub open spec fn lane(self, i: int) -> Vec3<T> {
        Vec3 { x: self.x.lane(i), y: self.y.lane(i), z: self.z.lane(i) }
    }

    pub fn new(x: Lanes<T>, y: Lanes<T>, z: Lanes<T>) -> (r: Self)
        ensures
            r == (Vec3x8 { x, y, z }),
    {
        Vec3x8 { x, y, z }
    }

    pub open spec fn splat_spec(v: Lanes<T>) -> Self {
        Vec3x8 { x: v, y: v, z: v }
    }

    /// The vector with every component `v`.
    pub fn splat(v: Lanes<T>) -> (r: Self)
        ensures
            r == Self::splat_spec(v),
            forall|i: int| 0 <= i < 8 ==> #[trigger] r.lane(i) == Vec3::splat_spec(v.lane(i)),
    {
        Vec3x8 { x: v, y: v, z: v }
    }

    pub open spec fn new_splat_spec(v: T) -> Self {
        Self::splat_spec(Lanes::splat_spec(v))
    }

    /// The vector with `v` in every component of every lane.
    pub fn new_splat(v: T) -> (r: Self)
        ensures
            r == Self::new_splat_spec(v),
            forall|i: int| 0 <= i < 8 ==> #[trigger] r.lane(i) == Vec3::splat_spec(v),
    {
        Self::splat(Lanes::splat(v))
    }

    /// The vector held in lane `i`.
    pub fn extract(&self, i: usize) -> (r: Vec3<T>)
        requires
            i < 8,
        ensures
            r == self.lane(i as int),
    {
        Vec3 { x: self.x.get(i), y: self.y.get(i), z: self.z.get(i) }
    }

    pub open spec fn dot_spec(&self, rhs: Self) -> Lanes<T> {
        self.x.mul_spec(rhs.x).add_spec(self.y.mul_spec(rhs.y)).add_spec(self.z.mul_spec(rhs.z))
    }

    /// The dot product, lane by lane.
    pub fn dot(&self, rhs: Self) -> (r: Lanes<T>)
        ensures
            r == self.dot_spec(rhs),
            forall|i: int| 0 <= i < 8 ==> #[trigger] r.lane(i) == self.lane(i).dot_spec(rhs.lane(i)),
    {
        self.x.mul(rhs.x).add(self.y.mul(rhs.y)).add(self.z.mul(rhs.z))
    }

    pub open spec fn length_spec(&self) -> Lanes<T> {
        self.length_sq_spec().sqrt_spec()
    }

    pub fn length(&self) -> (r: Lanes<T>)
        ensures
            r == self.length_spec(),
            forall|i: int| 0 <= i < 8 ==> #[trigger] r.lane(i) == self.lane(i).length_spec(),
    {
        self.length_sq().sqrt()
    }

    pub open spec fn length_sq_spec(&self) -> Lanes<T> {
        self.dot_spec(*self)
    }

    pub fn length_sq(&self) -> (r: Lanes<T>)
        ensures
            r == self.length_sq_spec(),
            forall|i: int| 0 <= i < 8 ==> #[trigger] r.lane(i) == self.lane(i).length_sq_spec(),
    {
        self.dot(*self)
    }

    pub open spec fn length_recip_spec(&self) -> Lanes<T> {
        self.length_spec().recip_spec()
    }

    pub fn length_recip(&self) -> (r: Lanes<T>)
        ensures
            r == self.length_recip_spec(),
            forall|i: int| 0 <= i < 8 ==> #[trigger] r.lane(i) == self.lane(i).length_recip_spec(),
    {
        self.length().recip()
    }

    pub open spec fn normalise_spec(&self) -> Self {
        let k = self.length_recip_spec();
        Vec3x8 { x: self.x.mul_spec(k), y: self.y.mul_spec(k), z: self.z.mul_spec(k) }
    }

    #[must_use]
    pub fn normalise(&self) -> (r: Self)
        ensures
            r == self.normalise_spec(),
            forall|i: int| 0 <= i < 8 ==> #[trigger] r.lane(i) == self.lane(i).normalise_spec(),
    {
        let k = self.length_recip();
        Vec3x8 { x: self.x.mul(k), y: self.y.mul(k), z: self.z.mul(k) }
    }

    pub open spec fn mul_add_spec(&self, m: Self, a: Self) -> Self {
        Vec3x8 { x: self.x.mul_add_spec(m.x, a.x), y: self.y.mul_add_spec(m.y, a.y), z: self.z.mul_add_spec(m.z, a.z) }
    }

    pub fn mul_add(&self, m: Self, a: Self) -> (r: Self)
        ensures
            r == self.mul_add_spec(m, a),
            forall|i: int| 0 <= i < 8 ==> #[trigger] r.lane(i) == self.lane(i).mul_add_spec(m.lane(i), a.lane(i)),
    {
        Vec3x8 { x: self.x.mul_add(m.x, a.x), y: self.y.mul_add(m.y, a.y), z: self.z.mul_add(m.z, a.z) }
    }

    pub open spec fn powf_spec(&self, n: Lanes<T>) -> Self {
        Vec3x8 { x: self.x.powf_spec(n), y: self.y.powf_spec(n), z: self.z.powf_spec(n) }
    }

    pub fn powf(&self, n: Lanes<T>) -> (r: Self)
        ensures
            r == self.powf_spec(n),
            forall|i: int| 0 <= i < 8 ==> #[trigger] r.lane(i) == self.lane(i).powf_spec(n.lane(i)),
    {
        Vec3x8 { x: self.x.powf(n), y: self.y.powf(n), z: self.z.powf(n) }
    }

    pub open spec fn min_spec(&self, rhs: Self) -> Self {
        Vec3x8 { x: self.x.min_spec(rhs.x), y: self.y.min_spec(rhs.y), z: self.z.min_spec(rhs.z) }
    }

    pub fn min(&self, rhs: Self) -> (r: Self)
        ensures
            r == self.min_spec(rhs),
            forall|i: int| 0 <= i < 8 ==> #[trigger] r.lane(i) == self.lane(i).min_spec(rhs.lane(i)),
    {
        Vec3x8 { x: self.x.min(rhs.x), y: self.y.min(rhs.y), z: self.z.min(rhs.z) }
    }

    pub open spec fn max_spec(&self, rhs: Self) -> Self {
        Vec3x8 { x: self.x.max_spec(rhs.x), y: self.y.max_spec(rhs.y), z: self.z.max_spec(rhs.z) }
    }

    pub fn max(&self, rhs: Self) -> (r: Self)
        ensures
            r == self.max_spec(rhs),
            forall|i: int| 0 <= i < 8 ==> #[trigger] r.lane(i) == self.lane(i).max_spec(rhs.lane(i)),
    {
        Vec3x8 { x: self.x.max(rhs.x), y: self.y.max(rhs.y), z: self.z.max(rhs.z) }
    }

    pub open spec fn min_element_spec(&self) -> Lanes<T> {
        self.x.min_spec(self.y.min_spec(self.z))
    }

    pub fn min_element(&self) -> (r: Lanes<T>)
        ensures
            r == self.min_element_spec(),
            forall|i: int| 0 <= i < 8 ==> #[trigger] r.lane(i) == self.lane(i).min_element_spec(),
    {
        self.x.min(self.y.min(self.z))
    }

    pub open spec fn max_element_spec(&self) -> Lanes<T> {
        self.x.max_spec(self.y.max_spec(self.z))
    }

    pub fn max_element(&self) -> (r: Lanes<T>)
        ensures
            r == self.max_element_spec(),
            forall|i: int| 0 <= i < 8 ==> #[trigger] r.lane(i) == self.lane(i).max_element_spec(),
    {
        self.x.max(self.y.max(self.z))
    }

    pub open spec fn abs_spec(&self) -> Self {
        Vec3x8 { x: self.x.abs_spec(), y: self.y.abs_spec(), z: self.z.abs_spec() }
    }

    pub fn abs(&self) -> (r: Self)
        ensures
            r == self.abs_spec(),
            forall|i: int| 0 <= i < 8 ==> #[trigger] r.lane(i) == self.lane(i).abs_spec(),
    {
        Vec3x8 { x: self.x.abs(), y: self.y.abs(), z: self.z.abs() }
    }
}

impl<T: Scalar> Ops for Vec3x8<T> {
    open spec fn add_spec(self, rhs: Self) -> Self {
        Vec3x8 { x: self.x.add_spec(rhs.x), y: self.y.add_spec(rhs.y), z: self.z.add_spec(rhs.z) }
    }

    fn add(self, rhs: Self) -> (r: Self)
        ensures
            forall|i: int| 0 <= i < 8 ==> #[trigger] r.lane(i) == self.lane(i).add_spec(rhs.lane(i)),
    {
        Vec3x8 { x: self.x.add(rhs.x), y: self.y.add(rhs.y), z: self.z.add(rhs.z) }
    }

    open spec fn sub_spec(self, rhs: Self) -> Self {
        Vec3x8 { x: self.x.sub_spec(rhs.x), y: self.y.sub_spec(rhs.y), z: self.z.sub_spec(rhs.z) }
    }

    fn sub(self, rhs: Self) -> (r: Self)
        ensures
            forall|i: int| 0 <= i < 8 ==> #[trigger] r.lane(i) == self.lane(i).sub_spec(rhs.lane(i)),
    {
        Vec3x8 { x: self.x.sub(rhs.x), y: self.y.sub(rhs.y), z: self.z.sub(rhs.z) }
    }

    open spec fn mul_spec(self, rhs: Self) -> Self {
        Vec3x8 { x: self.x.mul_spec(rhs.x), y: self.y.mul_spec(rhs.y), z: self.z.mul_spec(rhs.z) }
    }

    fn mul(self, rhs: Self) -> (r: Self)
        ensures
            forall|i: int| 0 <= i < 8 ==> #[trigger] r.lane(i) == self.lane(i).mul_spec(rhs.lane(i)),
    {
        Vec3x8 { x: self.x.mul(rhs.x), y: self.y.mul(rhs.y), z: self.z.mul(rhs.z) }
    }

    open spec fn div_spec(self, rhs: Self) -> Self {
        Vec3x8 { x: self.x.div_spec(rhs.x), y: self.y.div_spec(rhs.y), z: self.z.div_spec(rhs.z) }
    }

    fn div(self, rhs: Self) -> (r: Self)
        ensures
            forall|i: int| 0 <= i < 8 ==> #[trigger] r.lane(i) == self.lane(i).div_spec(rhs.lane(i)),
    {
        Vec3x8 { x: self.x.div(rhs.x), y: self.y.div(rhs.y), z: self.z.div(rhs.z) }
    }

    open spec fn rem_spec(self, rhs: Self) -> Self {
        Vec3x8 { x: self.x.rem_spec(rhs.x), y: self.y.rem_spec(rhs.y), z: self.z.rem_spec(rhs.z) }
    }

    fn rem(self, rhs: Self) -> (r: Self)
        ensures
            forall|i: int| 0 <= i < 8 ==> #[trigger] r.lane(i) == self.lane(i).rem_spec(rhs.lane(i)),
    {
        Vec3x8 { x: self.x.rem(rhs.x), y: self.y.rem(rhs.y), z: self.z.rem(rhs.z) }
    }
}

impl<T: Scalar> Ops<Lanes<T>, Vec3x8<T>> for Vec3x8<T> {
    open spec fn add_spec(self, rhs: Lanes<T>) -> Self {
        Vec3x8 { x: self.x.add_spec(rhs), y: self.y.add_spec(rhs), z: self.z.add_spec(rhs) }
    }

    fn add(self, rhs: Lanes<T>) -> (r: Self)
        ensures
            forall|i: int| 0 <= i < 8 ==> #[trigger] r.lane(i) == self.lane(i).add_spec(rhs.lane(i)),
    {
        Vec3x8 { x: self.x.add(rhs), y: self.y.add(rhs), z: self.z.add(rhs) }
    }

    open spec fn sub_spec(self, rhs: Lanes<T>) -> Self {
        Vec3x8 { x: self.x.sub_spec(rhs), y: self.y.sub_spec(rhs), z: self.z.sub_spec(rhs) }
    }

    fn sub(self, rhs: Lanes<T>) -> (r: Self)
        ensures
            forall|i: int| 0 <= i < 8 ==> #[trigger] r.lane(i) == self.lane(i).sub_spec(rhs.lane(i)),
    {
        Vec3x8 { x: self.x.sub(rhs), y: self.y.sub(rhs), z: self.z.sub(rhs) }
    }

    open spec fn mul_spec(self, rhs: Lanes<T>) -> Self {
        Vec3x8 { x: self.x.mul_spec(rhs), y: self.y.mul_spec(rhs), z: self.z.mul_spec(rhs) }
    }

    fn mul(self, rhs: Lanes<T>) -> (r: Self)
        ensures
            forall|i: int| 0 <= i < 8 ==> #[trigger] r.lane(i) == self.lane(i).mul_spec(rhs.lane(i)),
    {
        Vec3x8 { x: self.x.mul(rhs), y: self.y.mul(rhs), z: self.z.mul(rhs) }
    }

    open spec fn div_spec(self, rhs: Lanes<T>) -> Self {
        Vec3x8 { x: self.x.div_spec(rhs), y: self.y.div_spec(rhs), z: self.z.div_spec(rhs) }
    }

    fn div(self, rhs: Lanes<T>) -> (r: Self)
        ensures
            forall|i: int| 0 <= i < 8 ==> #[trigger] r.lane(i) == self.lane(i).div_spec(rhs.lane(i)),
    {
        Vec3x8 { x: self.x.div(rhs), y: self.y.div(rhs), z: self.z.div(rhs) }
    }

    open spec fn rem_spec(self, rhs: Lanes<T>) -> Self {
        Vec3x8 { x: self.x.rem_spec(rhs), y: self.y.rem_spec(rhs), z: self.z.rem_spec(rhs) }
    }

    fn rem(self, rhs: Lanes<T>) -> (r: Self)
        ensures
            forall|i: int| 0 <= i < 8 ==> #[trigger] r.lane(i) == self.lane(i).rem_spec(rhs.lane(i)),
    {
        Vec3x8 { x: self.x.rem(rhs), y: self.y.rem(rhs), z: self.z.rem(rhs) }
    }
}

impl<T: Scalar> Vector<3, Lanes<T>> for Vec3x8<T> {
    open spec fn zero_spec() -> Self {
        Vec3x8::new_splat_spec(T::zero_spec())
    }

    fn zero() -> (r: Self) {
        Vec3x8::new_splat(T::zero())
    }

    open spec fn one_spec() -> Self {
        Vec3x8::new_splat_spec(T::one_spec())
    }

    fn one() -> (r: Self) {
        Vec3x8::new_splat(T::one())
    }

    open spec fn splat_spec(v: Lanes<T>) -> Self {
        Vec3x8::splat_spec(v)
    }

    fn splat(v: Lanes<T>) -> (r: Self) {
        Vec3x8::splat(v)
    }

    open spec fn neg_spec(self) -> Self {
        Vec3x8 { x: self.x.neg_spec(), y: self.y.neg_spec(), z: self.z.neg_spec() }
    }

    fn neg(self) -> (r: Self)
        ensures
            forall|i: int| 0 <= i < 8 ==> #[trigger] r.lane(i) == Vector::neg_spec(self.lane(i)),
    {
        Vec3x8 { x: self.x.neg(), y: self.y.neg(), z: self.z.neg() }
    }

    open spec fn dot_spec(&self, other: Self) -> Lanes<T> {
        Vec3x8::dot_spec(self, other)
    }

    fn dot(&self, other: Self) -> (r: Lanes<T>) {
        Vec3x8::dot(self, other)
    }

    open spec fn length_spec(&self) -> Lanes<T> {
        Vec3x8::length_spec(self)
    }

    fn length(&self) -> (r: Lanes<T>) {
        Vec3x8::length(self)
    }

    open spec fn normalise_spec(&self) -> Self {
        Vec3x8::normalise_spec(self)
    }

    fn normalise(&self) -> (r: Self) {
        Vec3x8::normalise(self)
    }

    open spec fn mul_add_spec(&self, m: Self, a: Self) -> Self {
        Vec3x8::mul_add_spec(self, m, a)
    }

    fn mul_add(&self, m: Self, a: Self) -> (r: Self) {
        Vec3x8::mul_add(self, m, a)
    }

    open spec fn abs_spec(&self) -> Self {
        Vec3x8::abs_spec(self)
    }

    fn abs(&self) -> (r: Self) {
        Vec3x8::abs(self)
    }

    open spec fn max_spec(&self, other: Self) -> Self {
        Vec3x8::max_spec(self, other)
    }

    fn max(&self, other: Self) -> (r: Self) {
        Vec3x8::max(self, other)
    }

    open spec fn max_element_spec(&self) -> Lanes<T> {
        Vec3x8::max_element_spec(self)
    }

    fn max_element(&self) -> (r: Lanes<T>) {
        Vec3x8::max_element(self)
    }

    open spec fn min_spec(&self, other: Self) -> Self {
        Vec3x8::min_spec(self, other)
    }

    fn min(&self, other: Self) -> (r: Self) {
        Vec3x8::min(self, other)
    }

    open spec fn min_element_spec(&self) -> Lanes<T> {
        Vec3x8::min_element_spec(self)
    }

    fn min_element(&self) -> (r: Lanes<T>) {
        Vec3x8::min_element(self)
    }

    open spec fn powf_spec(&self, exp: Lanes<T>) -> Self {
        Vec3x8::powf_spec(self, exp)
    }

    fn powf(&self, exp: Lanes<T>) -> (r: Self) {
        Vec3x8::powf(self, exp)
    }
}

impl<T: Scalar> Vector3D<Lanes<T>> for Vec3x8<T> {
    open spec fn x_spec(&self) -> Lanes<T> {
        self.x
    }

    fn x(&self) -> (r: Lanes<T>) {
        self.x
    }

    open spec fn y_spec(&self) -> Lanes<T> {
        self.y
    }

    fn y(&self) -> (r: Lanes<T>) {
        self.y
    }

    open spec fn z_spec(&self) -> Lanes<T> {
        self.z
    }

    fn z(&self) -> (r: Lanes<T>) {
        self.z
    }
}

impl<T: Scalar> Comp<3> for Lanes<T> {
    type Vec = Vec3x8<T>;

    open spec fn new_vec_spec(arr: [Lanes<T>; 3]) -> Vec3x8<T> {
        Vec3x8 { x: arr[0], y: arr[1], z: arr[2] }
    }

    fn new_vec(arr: [Lanes<T>; 3]) -> (r: Vec3x8<T>) {
        Vec3x8::new(arr[0], arr[1], arr[2])
    }
}

} // verus!
