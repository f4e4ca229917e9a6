//! Scenes as signed-distance functions: primitive shapes and the combinators
//! that build composite scenes from them.
//!
//! A distance is negative inside the surface, positive outside and zero on
//! it, in the units of the input coordinates. Evaluation is a pure function of
//! the point.

use vstd::prelude::*;

use crate::vector::Comp;
use crate::vector::CompOps;
use crate::vector::Lanes;
use crate::vector::Ops;
use crate::vector::Scalar;
use crate::vector::Vector;

verus! {

/// An object that has a signed distance function.
pub trait Sdf<V: Comp<3>> {
    spec fn dist_spec(&self, p: V::Vec) -> V;

    /// The distance of the surface from point `p` in 3D space.
    fn dist(&self, p: V::Vec) -> (r: V)
        ensures
            r == self.dist_spec(p),
    ;
}

/// Extensions for modifying signed distance fields.
pub trait SdfExt<V: Comp<3>>: Sdf<V> + Sized {
    /// Translates the shape by `pos`.
    fn translate(self, pos: V::Vec) -> (r: Translate<V, Self>)
        ensures
            r.shape() == self,
            r.offset() == pos,
    {
        Translate(self, pos)
    }

    /// Combines two shapes into one whose surface is that of either.
    fn union<U: Sdf<V>>(self, other: U) -> (r: Union<V, Self, U>)
        ensures
            r.first() == self,
            r.second() == other,
    {
        Union::new(self, other)
    }
}

impl<V: Comp<3>, T: Sdf<V> + Sized> SdfExt<V> for T {

}

/// A sphere with a given radius, centred at the origin.
pub struct Sphere<V: Comp<3>>(pub V);

/// A box centred at the origin, with half the extent in each dimension.
pub struct Box<V: Comp<3>>(pub V::Vec);

/// A shape moved by a given vector.
pub struct Translate<V: Comp<3>, S: Sdf<V>>(pub(crate) S, pub(crate) V::Vec);

/// The union of two shapes.
pub struct Union<V: Comp<3>, S: Sdf<V>, U: Sdf<V>> {
    a: S,
    b: U,
    _v: core::marker::PhantomData<V>,
}

impl<T: Scalar> Sphere<T> {
    /// The same sphere in each of the eight lanes.
    pub fn widen(self) -> (r: Sphere<Lanes<T>>)
        ensures
            r.0 == Lanes::splat_spec(self.0),
            forall|p: crate::vector::Vec3x8<T>, i: int|
                0 <= i < 8 ==> #[trigger] r.dist_spec(p).lane(i) == self.dist_spec(p.lane(i)),
    {
        Sphere(Lanes::splat(self.0))
    }
}

impl<V: Comp<3>> Sdf<V> for Sphere<V> {
    /// `|p| - r`.
    open spec fn dist_spec(&self, p: V::Vec) -> V {
        p.length_spec().sub_spec(self.0)
    }

    fn dist(&self, p: V::Vec) -> (r: V) {
        p.length().sub(self.0)
    }
}

impl<T: Scalar> Box<T> {
    /// The same box in each of the eight lanes.
    pub fn widen(self) -> (r: Box<Lanes<T>>)
        ensures
            r.0 == self.0.widen_spec(),
            forall|p: crate::vector::Vec3x8<T>, i: int|
                0 <= i < 8 ==> #[trigger] r.dist_spec(p).lane(i) == self.dist_spec(p.lane(i)),
    {
        Box(self.0.widen())
    }
}

impl<V: Comp<3>> Sdf<V> for Box<V> {
    /// With `q = |p| - half`: `|max(q, 0)| + min(max(q.x, max(q.y, q.z)), 0)`.
    open spec fn dist_spec(&self, p: V::Vec) -> V {
        let q = p.abs_spec().sub_spec(self.0);
        q.max_spec(<V::Vec as Vector<3, V>>::zero_spec()).length_spec().add_spec(
            q.max_element_spec().min_spec(V::zero_spec()),
        )
    }

    fn dist(&self, p: V::Vec) -> (r: V) {
        let q = p.abs().sub(self.0);
        q.max(<V::Vec as Vector<3, V>>::zero()).length().add(q.max_element().min(V::zero()))
    }
}

impl<V: Comp<3>, S: Sdf<V>> Translate<V, S> {
    /// The shape that is moved.
    pub closed spec fn shape(&self) -> S {
        self.0
    }

    /// The vector by which it is moved.
    pub closed spec fn offset(&self) -> V::Vec {
        self.1
    }
}

impl<V: Comp<3>, S: Sdf<V>> Sdf<V> for Translate<V, S> {
    open spec fn dist_spec(&self, p: V::Vec) -> V {
        self.shape().dist_spec(p.sub_spec(self.offset()))
    }

    fn dist(&self, p: V::Vec) -> (r: V) {
        self.0.dist(p.sub(self.1))
    }
}

impl<V: Comp<3>, S: Sdf<V>, U: Sdf<V>> Union<V, S, U> {
    /// The first of the two shapes.
    pub closed spec fn first(&self) -> S {
        self.a
    }

    /// The second of the two shapes.
    pub closed spec fn second(&self) -> U {
        self.b
    }

    pub(crate) fn new(a: S, b: U) -> (r: Self)
        ensures
            r.first() == a,
            r.second() == b,
    {
        Union { a, b, _v: core::marker::PhantomData }
    }
}

impl<V: Comp<3>, S: Sdf<V>, U: Sdf<V>> Sdf<V> for Union<V, S, U> {
    open spec fn dist_spec(&self, p: V::Vec) -> V {
        self.first().dist_spec(p).min_spec(self.second().dist_spec(p))
    }

    fn dist(&self, p: V::Vec) -> (r: V) {
        self.a.dist(p).min(self.b.dist(p))
    }
}

/// Whether subtraction agrees with the order of `T`: the difference of two
/// values is above zero where the first is the greater, and below zero where
/// it is the smaller.
pub open spec fn difference_keeps_order<T: Scalar>() -> bool {
    forall|a: T, b: T|
        (a.gt_spec(b) ==> (#[trigger] a.sub_spec(b)).gt_spec(T::zero_spec())) && (a.lt_spec(b)
            ==> a.sub_spec(b).lt_spec(T::zero_spec()))
}

/// In an arithmetic whose subtraction agrees with its order, the distance to
/// a sphere is above zero at every point farther from the centre than the
/// radius, and below zero at every point nearer to it.
pub proof fn sphere_distance_has_the_sign_of_the_side<T: Scalar>(
    s: Sphere<T>,
    p: crate::vector::Vec3<T>,
)
    requires
        difference_keeps_order::<T>(),
    ensures
        p.length_spec().gt_spec(s.0) ==> s.dist_spec(p).gt_spec(T::zero_spec()),
        p.length_spec().lt_spec(s.0) ==> s.dist_spec(p).lt_spec(T::zero_spec()),
{
}

/// The distance to a union is exactly the smaller of the distances to its
/// two parts.
pub proof fn union_is_minimum<V: Comp<3>, S: Sdf<V>, U: Sdf<V>>(
    a: S,
    b: U,
    u: Union<V, S, U>,
    p: V::Vec,
)
    requires
        u.first() == a,
        u.second() == b,
    ensures
        u.dist_spec(p) == a.dist_spec(p).min_spec(b.dist_spec(p)),
{
}

/// The distance to a translated shape at `p` is exactly the distance to the
/// shape itself at `p - v`.
pub proof fn translate_shifts_point<V: Comp<3>, S: Sdf<V>>(
    child: S,
    v: V::Vec,
    t: Translate<V, S>,
    p: V::Vec,
)
    requires
        t.shape() == child,
        t.offset() == v,
    ensures
        t.dist_spec(p) == child.dist_spec(p.sub_spec(v)),
{
}

} // verus!
