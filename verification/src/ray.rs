//! Rays: an origin and a normalised direction.

use vstd::prelude::*;

use crate::vector::broadcast;
use crate::vector::Comp;
use crate::vector::Vector;

verus! {

/// A ray in 3D space with an `origin` and a direction.
pub struct Ray<V: Comp<3>> {
    /// The origin point of the ray.
    pub origin: V::Vec,
    /// The direction the ray is pointing.
    pub dir: V::Vec,
}

impl<V: Comp<3>> Clone for Ray<V> {
    fn clone(&self) -> (r: Self)
        ensures
            r == *self,
    {
        *self
    }
}

impl<V: Comp<3>> Copy for Ray<V> {

}

impl<V: Comp<3>> Ray<V> {
    /// Whether the direction is a normalised vector, as distances measured
    /// along the ray assume.
    pub open spec fn wf(&self) -> bool {
        exists|d: V::Vec| self.dir == #[trigger] d.normalise_spec()
    }

    /// Creates a ray from `origin` towards `dir`; the direction is normalised.
    pub fn new(origin: V::Vec, dir: V::Vec) -> (r: Self)
        ensures
            r.origin == origin,
            r.dir == dir.normalise_spec(),
            r.wf(),
    {
        let dir = dir.normalise();
        Ray { origin, dir }
    }

    /// The point `origin + t * dir`, as one fused multiply-add per component.
    pub open spec fn at_spec(&self, t: V) -> V::Vec {
        <V::Vec as Vector<3, V>>::splat_spec(t).mul_add_spec(self.dir, self.origin)
    }

    /// Returns the point along the ray at distance `t`.
    pub fn at(&self, t: V) -> (r: V::Vec)
        ensures
            r == self.at_spec(t),
    {
        broadcast(t).mul_add(self.dir, self.origin)
    }
}

} // verus!
