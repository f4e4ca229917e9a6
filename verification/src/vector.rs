//! The numeric abstraction: what an algorithm needs from a component (one real
//! number, or a group of eight processed in lock-step) and from the 2D and 3D
//! vectors built on it.
//!
//! Real numbers are not modelled here. Each operation of a component comes as a
//! pair: a specification function, which names the result, and an executable
//! method, which returns exactly that. Everything stated in this crate about a
//! computed value is stated over those names, so it holds for every
//! implementation of [`Scalar`] whose methods are functions of their arguments.

use vstd::prelude::*;

pub use self::lanes::Lanes;
pub use self::lanes::Mask8;
pub use self::lanes::Vec2x8;
pub use self::lanes::Vec3x8;
pub use self::scalar::Scalar;
pub use self::scalar::Vec2;
pub use self::scalar::Vec3;

pub mod lanes;
pub mod scalar;

verus! {

/// Binary arithmetic between `Self` and a right-hand side `I`, giving `O`.
///
/// Components implement it against themselves; vectors implement it twice,
/// against another vector (element by element) and against a single component
/// (applied to every element).
pub trait Ops<I = Self, O = Self>: Sized {
    spec fn add_spec(self, rhs: I) -> O;

    fn add(self, rhs: I) -> (r: O)
        ensures
            r == self.add_spec(rhs),
    ;

    spec fn sub_spec(self, rhs: I) -> O;

    fn sub(self, rhs: I) -> (r: O)
        ensures
            r == self.sub_spec(rhs),
    ;

    spec fn mul_spec(self, rhs: I) -> O;

    fn mul(self, rhs: I) -> (r: O)
        ensures
            r == self.mul_spec(rhs),
    ;

    spec fn div_spec(self, rhs: I) -> O;

    fn div(self, rhs: I) -> (r: O)
        ensures
            r == self.div_spec(rhs),
    ;

    spec fn rem_spec(self, rhs: I) -> O;

    fn rem(self, rhs: I) -> (r: O)
        ensures
            r == self.rem_spec(rhs),
    ;
}

/// Construction of a component from the ratio of two integers, the form in
/// which this crate writes its numeric constants (`87 / 100` for `0.87`).
pub trait FromRatio: Sized {
    spec fn from_ratio_spec(num: i64, den: i64) -> Self;

    fn from_ratio(num: i64, den: i64) -> (r: Self)
        ensures
            r == Self::from_ratio_spec(num, den),
    ;
}

/// What a component offers beyond binary arithmetic.
pub trait CompOps: Ops + Copy {
    spec fn zero_spec() -> Self;

    /// The additive identity.
    fn zero() -> (r: Self)
        ensures
            r == Self::zero_spec(),
    ;

    spec fn one_spec() -> Self;

    /// The multiplicative identity.
    fn one() -> (r: Self)
        ensures
            r == Self::one_spec(),
    ;

    spec fn neg_spec(self) -> Self;

    fn neg(self) -> (r: Self)
        ensures
            r == self.neg_spec(),
    ;

    spec fn min_spec(&self, other: Self) -> Self;

    fn min(&self, other: Self) -> (r: Self)
        ensures
            r == self.min_spec(other),
    ;

    spec fn max_spec(&self, other: Self) -> Self;

    fn max(&self, other: Self) -> (r: Self)
        ensures
            r == self.max_spec(other),
    ;

    spec fn clamp_spec(&self, min: Self, max: Self) -> Self;

    /// Restricts the value to the interval from `min` to `max`.
    fn clamp(&self, min: Self, max: Self) -> (r: Self)
        ensures
            r == self.clamp_spec(min, max),
    ;

    spec fn powf_spec(&self, exp: Self) -> Self;

    /// Raises the value to the power `exp`.
    fn powf(&self, exp: Self) -> (r: Self)
        ensures
            r == self.powf_spec(exp),
    ;

    spec fn sqrt_spec(self) -> Self;

    fn sqrt(self) -> (r: Self)
        ensures
            r == self.sqrt_spec(),
    ;

    spec fn recip_spec(self) -> Self;

    /// The reciprocal, `1 / self`.
    fn recip(self) -> (r: Self)
        ensures
            r == self.recip_spec(),
    ;

    spec fn abs_spec(self) -> Self;

    fn abs(self) -> (r: Self)
        ensures
            r == self.abs_spec(),
    ;

    spec fn mul_add_spec(self, m: Self, a: Self) -> Self;

    /// Fused multiply-add: `self * m + a` as one operation.
    fn mul_add(self, m: Self, a: Self) -> (r: Self)
        ensures
            r == self.mul_add_spec(m, a),
    ;
}

/// An `N`-dimensional vector with components of type `T`.
///
/// All operations act element by element, except `dot`, `length` and
/// `normalise`, which reduce across the components.
pub trait Vector<const N: usize, T: CompOps>: Sized + Copy + Ops + Ops<T, Self> {
    spec fn zero_spec() -> Self;

    /// The vector with every component zero.
    fn zero() -> (r: Self)
        ensures
            r == Self::zero_spec(),
    ;

    spec fn one_spec() -> Self;

    /// The vector with every component one.
    fn one() -> (r: Self)
        ensures
            r == Self::one_spec(),
    ;

    spec fn splat_spec(v: T) -> Self;

    /// The vector with every component `v`.
    fn splat(v: T) -> (r: Self)
        ensures
            r == Self::splat_spec(v),
    ;

    spec fn neg_spec(self) -> Self;

    fn neg(self) -> (r: Self)
        ensures
            r == self.neg_spec(),
    ;

    spec fn dot_spec(&self, other: Self) -> T;

    fn dot(&self, other: Self) -> (r: T)
        ensures
            r == self.dot_spec(other),
    ;

    spec fn length_spec(&self) -> T;

    fn length(&self) -> (r: T)
        ensures
            r == self.length_spec(),
    ;

    spec fn normalise_spec(&self) -> Self;

    fn normalise(&self) -> (r: Self)
        ensures
            r == self.normalise_spec(),
    ;

    spec fn mul_add_spec(&self, m: Self, a: Self) -> Self;

    fn mul_add(&self, m: Self, a: Self) -> (r: Self)
        ensures
            r == self.mul_add_spec(m, a),
    ;

    spec fn abs_spec(&self) -> Self;

    fn abs(&self) -> (r: Self)
        ensures
            r == self.abs_spec(),
    ;

    spec fn max_spec(&self, other: Self) -> Self;

    fn max(&self, other: Self) -> (r: Self)
        ensures
            r == self.max_spec(other),
    ;

    spec fn max_element_spec(&self) -> T;

    fn max_element(&self) -> (r: T)
        ensures
            r == self.max_element_spec(),
    ;

    spec fn min_spec(&self, other: Self) -> Self;

    fn min(&self, other: Self) -> (r: Self)
        ensures
            r == self.min_spec(other),
    ;

    spec fn min_element_spec(&self) -> T;

    fn min_element(&self) -> (r: T)
        ensures
            r == self.min_element_spec(),
    ;

    spec fn powf_spec(&self, exp: T) -> Self;

    fn powf(&self, exp: T) -> (r: Self)
        ensures
            r == self.powf_spec(exp),
    ;
}

/// Access to the components of a 2D vector.
pub trait Vector2D<T: CompOps>: Vector<2, T> {
    spec fn x_spec(&self) -> T;

    fn x(&self) -> (r: T)
        ensures
            r == self.x_spec(),
    ;

    spec fn y_spec(&self) -> T;

    fn y(&self) -> (r: T)
        ensures
            r == self.y_spec(),
    ;
}

/// Access to the components of a 3D vector.
pub trait Vector3D<T: CompOps>: Vector<3, T> {
    spec fn x_spec(&self) -> T;

    fn x(&self) -> (r: T)
        ensures
            r == self.x_spec(),
    ;

    spec fn y_spec(&self) -> T;

    fn y(&self) -> (r: T)
        ensures
            r == self.y_spec(),
    ;

    spec fn z_spec(&self) -> T;

    fn z(&self) -> (r: T)
        ensures
            r == self.z_spec(),
    ;
}

/// A component of an `N`-dimensional vector.
pub trait Comp<const N: usize>: CompOps + FromRatio {
    /// The vector type built from `N` of these components.
    type Vec: Vector<N, Self>;

    spec fn new_vec_spec(arr: [Self; N]) -> Self::Vec;

    /// Builds the vector whose components are the entries of `arr`, in order.
    fn new_vec(arr: [Self; N]) -> (r: Self::Vec)
        ensures
            r == Self::new_vec_spec(arr),
    ;
}

/// The outcome of a comparison: one boolean, or one per lane.
///
/// `select` is the only way results are reconciled between lanes that have
/// finished and lanes that have not.
pub trait Maskable<T> {
    spec fn select_spec(&self, true_values: T, false_values: T) -> T;

    /// Picks `true_values` where the mask is set and `false_values` elsewhere.
    fn select(&self, true_values: T, false_values: T) -> (r: T)
        ensures
            r == self.select_spec(true_values, false_values),
    ;
}

impl<T> Maskable<T> for bool {
    open spec fn select_spec(&self, true_values: T, false_values: T) -> T {
        if *self {
            true_values
        } else {
            false_values
        }
    }

    fn select(&self, true_values: T, false_values: T) -> (r: T) {
        if *self {
            true_values
        } else {
            false_values
        }
    }
}

/// Broadcasts a single element across all components of the vector.
pub fn broadcast<const N: usize, V: Comp<N>>(val: V) -> (r: V::Vec)
    ensures
        r == <V::Vec as Vector<N, V>>::splat_spec(val),
{
    <V::Vec as Vector<N, V>>::splat(val)
}

/// Creates a new 2D vector from its components.
pub fn vec2<V: Comp<2>>(x: V, y: V) -> (r: V::Vec)
    ensures
        r == V::new_vec_spec([x, y]),
{
    V::new_vec([x, y])
}

/// Creates a new 3D vector from its components.
pub fn vec3<V: Comp<3>>(x: V, y: V, z: V) -> (r: V::Vec)
    ensures
        r == V::new_vec_spec([x, y, z]),
{
    V::new_vec([x, y, z])
}

} // verus!
