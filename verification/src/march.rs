//! Sphere tracing: finding where a ray first meets the surface of a scene, and
//! the surface normal there.
//!
//! A trace is a pure function of the scene, the ray and the relaxation factor.
//! Running out of steps is reported as a miss, never as an error.

use vstd::prelude::*;

use crate::ray::Ray;
use crate::sdf::Sdf;
use crate::vector::vec3;
use crate::vector::Comp;
use crate::vector::CompOps;
use crate::vector::FromRatio;
use crate::vector::Lanes;
use crate::vector::Mask8;
use crate::vector::Maskable;
use crate::vector::Ops;
use crate::vector::Scalar;
use crate::vector::Vec3;
use crate::vector::Vec3x8;
use crate::vector::Vector;

verus! {

/// The result of marching a ray.
pub struct Trace<D, H> {
    /// The distance travelled along the ray to the surface, or the largest
    /// finite distance where the surface was not found.
    pub distance: D,
    /// Whether the surface was found within tolerance.
    pub hit: H,
}

/// The maximum number of steps that the marcher can take.
pub const MAX_STEPS: u32 = 64;

/// The precision of the algorithms in this module, one thousandth.
pub open spec fn epsilon_spec<V: FromRatio>() -> V {
    V::from_ratio_spec(1, 1000)
}

/// The precision of the algorithms in this module, one thousandth.
pub fn epsilon<V: FromRatio>() -> (r: V)
    ensures
        r == epsilon_spec::<V>(),
{
    V::from_ratio(1, 1000)
}

/// The distance field of a scene: the function from a point to the scene's
/// signed distance there. A trace depends on the scene through it alone.
pub open spec fn field<V: Comp<3>, S: Sdf<V>>(map: &S) -> spec_fn(V::Vec) -> V {
    |p: V::Vec| map.dist_spec(p)
}

/// Marches `ray` through the scene `map`.
///
/// `w` is the relaxation factor of the adaptive algorithm, which controls how
/// far a step may overshoot the safe distance; `None` stands for `0.87`.
pub fn trace<S, V>(map: &S, ray: Ray<V>, w: Option<V>) -> (r: Trace<V, V::Mask>) where
    V: Traceable,
    S: Sdf<V>,

    ensures
        r == V::trace_spec(field(map), ray, w),
        V::misses_are_farthest(r),
{
    V::trace(map, ray, w)
}

/// A component type whose rays can be marched.
pub trait Traceable: Comp<3> {
    /// What a comparison of two components yields.
    type Mask: Maskable<Self>;

    /// The trace of `ray` through the distance field `f`.
    spec fn trace_spec(f: spec_fn(Self::Vec) -> Self, ray: Ray<Self>, w: Option<Self>) -> Trace<
        Self,
        Self::Mask,
    >;

    /// Whether `r` reports the largest finite distance wherever it reports
    /// no hit.
    spec fn misses_are_farthest(r: Trace<Self, Self::Mask>) -> bool;

    fn trace<S: Sdf<Self>>(map: &S, ray: Ray<Self>, w: Option<Self>) -> (r: Trace<Self, Self::Mask>)
        ensures
            r == Self::trace_spec(field(map), ray, w),
            Self::misses_are_farthest(r),
    ;
}

/// What the adaptive marcher carries from one step to the next.
pub struct Adaptive<T> {
    /// The distance to the surface at the previous point.
    pub rp: T,
    /// The distance to the surface at the current point.
    pub rc: T,
    /// The length of the last step.
    pub di: T,
    /// The total distance travelled.
    pub t: T,
}

/// The relaxation factor used when none is given, `0.87`.
pub open spec fn default_relaxation<T: Scalar>() -> T {
    T::from_ratio_spec(87, 100)
}

/// The state in which the adaptive marcher starts.
pub open spec fn adaptive_start<T: Scalar>() -> Adaptive<T> {
    Adaptive { rp: T::zero_spec(), rc: T::one_spec(), di: T::zero_spec(), t: T::zero_spec() }
}

/// The step the adaptive marcher would like to take:
/// `rc + w * rc * max((di - rp + rc) / (di + rp - rc), 0.6)`.
pub open spec fn overstep<T: Scalar>(w: T, s: Adaptive<T>) -> T {
    s.rc.add_spec(
        w.mul_spec(s.rc).mul_spec(
            s.di.sub_spec(s.rp).add_spec(s.rc).div_spec(s.di.add_spec(s.rp).sub_spec(s.rc)).max_spec(
                T::from_ratio_spec(6, 10),
            ),
        ),
    )
}

/// The step the adaptive marcher takes from `s`, with the distance to the
/// surface at the point it leads to. Where the overstep is longer than the
/// distances at its two ends allow, the conservative step `rc` is taken
/// instead.
pub open spec fn adaptive_step<T: Scalar>(
    f: spec_fn(Vec3<T>) -> T,
    ray: Ray<T>,
    w: T,
    s: Adaptive<T>,
) -> (T, T) {
    let di = overstep(w, s);
    let rn = f(ray.at_spec(s.t.add_spec(di)));
    if di.gt_spec(s.rc.add_spec(rn)) {
        (s.rc, f(ray.at_spec(s.t.add_spec(s.rc))))
    } else {
        (di, rn)
    }
}

/// The trace that the adaptive marcher reports when it has `steps` steps left
/// in state `s`.
pub open spec fn adaptive_from<T: Scalar>(
    f: spec_fn(Vec3<T>) -> T,
    ray: Ray<T>,
    w: T,
    s: Adaptive<T>,
    steps: nat,
) -> Trace<T, bool>
    decreases steps,
{
    if steps == 0 {
        Trace { distance: T::max_value_spec(), hit: false }
    } else {
        let (di, rn) = adaptive_step(f, ray, w, s);
        let t = s.t.add_spec(di);
        if rn.lt_spec(t.mul_spec(epsilon_spec::<T>())) {
            Trace { distance: t, hit: true }
        } else {
            adaptive_from(f, ray, w, Adaptive { rp: s.rc, rc: rn, di, t }, (steps - 1) as nat)
        }
    }
}

/// A miss of the adaptive marcher reports the largest finite distance.
pub proof fn adaptive_miss_is_farthest<T: Scalar>(
    f: spec_fn(Vec3<T>) -> T,
    ray: Ray<T>,
    w: T,
    s: Adaptive<T>,
    steps: nat,
)
    ensures
        !adaptive_from(f, ray, w, s, steps).hit ==> adaptive_from(f, ray, w, s, steps).distance
            == T::max_value_spec(),
    decreases steps,
{
    if steps > 0 {
        let (di, rn) = adaptive_step(f, ray, w, s);
        let t = s.t.add_spec(di);
        if !rn.lt_spec(t.mul_spec(epsilon_spec::<T>())) {
            adaptive_miss_is_farthest(
                f,
                ray,
                w,
                Adaptive { rp: s.rc, rc: rn, di, t },
                (steps - 1) as nat,
            );
        }
    }
}

/// At a hit of the adaptive marcher, the scene's distance at the reported
/// point is below the tolerance, which grows with the distance travelled.
pub proof fn adaptive_hit_is_within_tolerance<T: Scalar>(
    f: spec_fn(Vec3<T>) -> T,
    ray: Ray<T>,
    w: T,
    s: Adaptive<T>,
    steps: nat,
)
    ensures
        ({
            let r = adaptive_from(f, ray, w, s, steps);
            r.hit ==> f(ray.at_spec(r.distance)).lt_spec(
                r.distance.mul_spec(epsilon_spec::<T>()),
            )
        }),
    decreases steps,
{
    if steps > 0 {
        let (di, rn) = adaptive_step(f, ray, w, s);
        let t = s.t.add_spec(di);
        if !rn.lt_spec(t.mul_spec(epsilon_spec::<T>())) {
            adaptive_hit_is_within_tolerance(
                f,
                ray,
                w,
                Adaptive { rp: s.rc, rc: rn, di, t },
                (steps - 1) as nat,
            );
        }
    }
}

impl<T: Scalar> Traceable for T {
    type Mask = bool;

    /// Enhanced sphere tracing: each step tries to overshoot the safe
    /// distance and falls back to it where the overshoot proves unsafe.
    open spec fn trace_spec(f: spec_fn(Vec3<T>) -> T, ray: Ray<T>, w: Option<T>) -> Trace<T, bool> {
        let w = match w {
            Some(w) => w,
            None => default_relaxation(),
        };
        adaptive_from(f, ray, w, adaptive_start(), MAX_STEPS as nat)
    }

    open spec fn misses_are_farthest(r: Trace<T, bool>) -> bool {
        !r.hit ==> r.distance == T::max_value_spec()
    }

    fn trace<S: Sdf<T>>(map: &S, ray: Ray<T>, w: Option<T>) -> (r: Trace<T, bool>)
        ensures
            r.hit ==> map.dist_spec(ray.at_spec(r.distance)).lt_spec(
                r.distance.mul_spec(epsilon_spec::<T>()),
            ),
    {
        let relax = match w {
            Some(w) => w,
            None => T::from_ratio(87, 100),
        };
        let mut rp = T::zero();
        let mut rc = T::one();
        let mut di = T::zero();
        let mut t = T::zero();
        let mut step: u32 = 0;
        while step < MAX_STEPS
            invariant
                step <= MAX_STEPS,
                Self::trace_spec(field(map), ray, w) == adaptive_from(
                    field(map),
                    ray,
                    relax,
                    Adaptive { rp, rc, di, t },
                    (MAX_STEPS - step) as nat,
                ),
            decreases MAX_STEPS - step,
        {
            let ratio = di.sub(rp).add(rc).div(di.add(rp).sub(rc));
            di = rc.add(relax.mul(rc).mul(ratio.max(T::from_ratio(6, 10))));
            let mut rn = map.dist(ray.at(t.add(di)));
            if di.gt(rc.add(rn)) {
                // the overstep was unsafe: take the conservative step
                di = rc;
                rn = map.dist(ray.at(t.add(di)));
            }
            t = t.add(di);
            if rn.lt(t.mul(epsilon())) {
                return Trace { distance: t, hit: true };
            }
            rp = rc;
            rc = rn;
            step += 1;
        }
        Trace { distance: T::max_value(), hit: false }
    }
}

/// What the lock-step marcher reports when it stops: a lane that hit reports
/// the distance it travelled, a lane that did not reports the largest finite
/// distance.
pub open spec fn lockstep_report<T: Scalar>(t: Lanes<T>, hit: Mask8) -> Trace<Lanes<T>, Mask8> {
    Trace { distance: hit.select_spec(t, Lanes::max_value_spec()), hit }
}

/// The report of the lock-step marcher, lane by lane.
pub proof fn lockstep_report_by_lane<T: Scalar>(t: Lanes<T>, hit: Mask8)
    ensures
        lockstep_report(t, hit).hit == hit,
        forall|i: int|
            0 <= i < 8 ==> #[trigger] lockstep_report(t, hit).distance.lane(i) == if hit.lanes[i] {
                t.lane(i)
            } else {
                T::max_value_spec()
            },
{
    assert forall|i: int| 0 <= i < 8 implies #[trigger] lockstep_report(t, hit).distance.lane(i)
        == if hit.lanes[i] {
        t.lane(i)
    } else {
        T::max_value_spec()
    } by {
        assert(Lanes::<T>::max_value_spec().lane(i) == T::max_value_spec());
    }
}

/// A lane of the lock-step marcher that reports no hit reports the largest
/// finite distance.
pub proof fn lockstep_miss_is_farthest<T: Scalar>(
    f: spec_fn(Vec3x8<T>) -> Lanes<T>,
    ray: Ray<Lanes<T>>,
    t: Lanes<T>,
    hit: Mask8,
    steps: nat,
)
    ensures
        <Lanes<T> as Traceable>::misses_are_farthest(lockstep_from(f, ray, t, hit, steps)),
    decreases steps,
{
    if steps == 0 {
        lockstep_report_by_lane(t, hit);
    } else {
        let h = f(ray.at_spec(t));
        let now = h.simd_lt_spec(epsilon_spec::<Lanes<T>>().mul_spec(t));
        let finished = now.or_spec(t.simd_gt_spec(Lanes::max_value_spec()));
        if finished.all_spec() {
            lockstep_report_by_lane(t, now);
        } else {
            lockstep_miss_is_farthest(
                f,
                ray,
                t.add_spec(finished.select_spec(Lanes::zero_spec(), h)),
                now,
                (steps - 1) as nat,
            );
        }
    }
}

/// The trace that the lock-step marcher reports when it has `steps` steps
/// left, has travelled `t` in each lane and last saw the hits `hit`.
///
/// One step evaluates the scene once for all eight lanes. A lane is finished
/// when it hit the surface in this step or has gone beyond the largest finite
/// distance; finished lanes keep their distance while the others advance.
/// The march ends when every lane is finished, or no step is left.
pub open spec fn lockstep_from<T: Scalar>(
    f: spec_fn(Vec3x8<T>) -> Lanes<T>,
    ray: Ray<Lanes<T>>,
    t: Lanes<T>,
    hit: Mask8,
    steps: nat,
) -> Trace<Lanes<T>, Mask8>
    decreases steps,
{
    if steps == 0 {
        lockstep_report(t, hit)
    } else {
        let h = f(ray.at_spec(t));
        let hit = h.simd_lt_spec(epsilon_spec::<Lanes<T>>().mul_spec(t));
        let finished = hit.or_spec(t.simd_gt_spec(Lanes::max_value_spec()));
        if finished.all_spec() {
            lockstep_report(t, hit)
        } else {
            lockstep_from(
                f,
                ray,
                t.add_spec(finished.select_spec(Lanes::zero_spec(), h)),
                hit,
                (steps - 1) as nat,
            )
        }
    }
}

impl<T: Scalar> Traceable for Lanes<T> {
    type Mask = Mask8;

    /// Plain sphere tracing of eight rays in lock-step; the relaxation factor
    /// is not used.
    open spec fn trace_spec(
        f: spec_fn(Vec3x8<T>) -> Lanes<T>,
        ray: Ray<Lanes<T>>,
        w: Option<Lanes<T>>,
    ) -> Trace<Lanes<T>, Mask8> {
        lockstep_from(f, ray, Lanes::zero_spec(), Mask8::splat_spec(false), MAX_STEPS as nat)
    }

    open spec fn misses_are_farthest(r: Trace<Lanes<T>, Mask8>) -> bool {
        forall|i: int|
            0 <= i < 8 && !r.hit.lanes[i] ==> #[trigger] r.distance.lane(i) == T::max_value_spec()
    }

    fn trace<S: Sdf<Lanes<T>>>(map: &S, ray: Ray<Lanes<T>>, _w: Option<Lanes<T>>) -> (r: Trace<
        Lanes<T>,
        Mask8,
    >) {
        let mut t = Lanes::<T>::zero();
        let mut hit = Mask8::splat(false);
        let mut step: u32 = 0;
        while step < MAX_STEPS
            invariant
                step <= MAX_STEPS,
                Self::trace_spec(field(map), ray, _w) == lockstep_from(
                    field(map),
                    ray,
                    t,
                    hit,
                    (MAX_STEPS - step) as nat,
                ),
            ensures
                Self::trace_spec(field(map), ray, _w) == lockstep_report(t, hit),
            decreases MAX_STEPS - step,
        {
            let h = map.dist(ray.at(t));
            hit = h.simd_lt(epsilon::<Lanes<T>>().mul(t));
            let finished = hit.or(t.simd_gt(Lanes::max_value()));
            if finished.all() {
                break ;
            }
            t = t.add(finished.select(Lanes::zero(), h));
            step += 1;
        }
        // a lane that did not hit went as far as a ray can
        Trace { distance: hit.select(t, Lanes::max_value()), hit }
    }
}

/// The trace that plain sphere tracing of one ray reports when it has
/// `steps` steps left, has travelled `t` and last saw the hit `hit`: each step
/// advances by the scene's distance, until the surface is within tolerance or
/// the ray has gone beyond the largest finite distance. A trace without a hit
/// reports the largest finite distance.
pub open spec fn plain_from<T: Scalar>(
    g: spec_fn(Vec3<T>) -> T,
    ray: Ray<T>,
    t: T,
    hit: bool,
    steps: nat,
) -> Trace<T, bool>
    decreases steps,
{
    if steps == 0 {
        plain_report(t, hit)
    } else {
        let h = g(ray.at_spec(t));
        let hit = h.lt_spec(epsilon_spec::<T>().mul_spec(t));
        if hit || t.gt_spec(T::max_value_spec()) {
            plain_report(t, hit)
        } else {
            plain_from(g, ray, t.add_spec(h), hit, (steps - 1) as nat)
        }
    }
}

/// What plain sphere tracing reports when it stops.
pub open spec fn plain_report<T: Scalar>(t: T, hit: bool) -> Trace<T, bool> {
    Trace {
        distance: if hit {
            t
        } else {
            T::max_value_spec()
        },
        hit,
    }
}

/// Whether the field `f` of eight points at a time is the field `g` in each
/// lane.
pub open spec fn lanewise<T: Scalar>(
    f: spec_fn(Vec3x8<T>) -> Lanes<T>,
    g: spec_fn(Vec3<T>) -> T,
) -> bool {
    forall|p: Vec3x8<T>, i: int| 0 <= i < 8 ==> #[trigger] f(p).lane(i) == g(p.lane(i))
}

/// Eight identical rays marched in lock-step through a scene that treats
/// every lane alike give, in every lane, the trace that plain sphere tracing
/// gives for that ray.
pub proof fn lockstep_of_identical_rays<T: Scalar>(
    f: spec_fn(Vec3x8<T>) -> Lanes<T>,
    g: spec_fn(Vec3<T>) -> T,
    wide: Ray<Lanes<T>>,
    ray: Ray<T>,
    t: Lanes<T>,
    hit: Mask8,
    steps: nat,
    i: int,
)
    requires
        lanewise(f, g),
        forall|k: int| 0 <= k < 8 ==> #[trigger] wide.origin.lane(k) == ray.origin,
        forall|k: int| 0 <= k < 8 ==> #[trigger] wide.dir.lane(k) == ray.dir,
        forall|k: int| 0 <= k < 8 ==> #[trigger] t.lane(k) == t.lane(0),
        forall|k: int| 0 <= k < 8 ==> #[trigger] hit.lanes[k] == hit.lanes[0],
        0 <= i < 8,
    ensures
        lockstep_from(f, wide, t, hit, steps).distance.lane(i) == plain_from(
            g,
            ray,
            t.lane(0),
            hit.lanes[0],
            steps,
        ).distance,
        lockstep_from(f, wide, t, hit, steps).hit.lanes[i] == plain_from(
            g,
            ray,
            t.lane(0),
            hit.lanes[0],
            steps,
        ).hit,
    decreases steps,
{
    if steps == 0 {
        lockstep_report_by_lane(t, hit);
    } else {
        let p = wide.at_spec(t);
        let h = f(p);
        let now = h.simd_lt_spec(epsilon_spec::<Lanes<T>>().mul_spec(t));
        let finished = now.or_spec(t.simd_gt_spec(Lanes::max_value_spec()));
        let q = ray.at_spec(t.lane(0));
        let hs = g(q);
        let hit_s = hs.lt_spec(epsilon_spec::<T>().mul_spec(t.lane(0)));
        let fin_s = hit_s || t.lane(0).gt_spec(T::max_value_spec());
        assert forall|k: int| 0 <= k < 8 implies #[trigger] h.lane(k) == hs && now.lanes[k] == hit_s
            && finished.lanes[k] == fin_s by {
            assert(wide.origin.lane(k) == ray.origin);
            assert(wide.dir.lane(k) == ray.dir);
            assert(t.lane(k) == t.lane(0));
            assert(p.lane(k) == q);
            assert(f(p).lane(k) == g(p.lane(k)));
        }
        assert(h.lane(0) == hs);
        assert(h.lane(i) == hs);
        if fin_s {
            assert forall|k: int| 0 <= k < 8 implies #[trigger] finished.lanes[k] by {
                assert(h.lane(k) == hs);
            }
            assert(finished.all_spec());
            lockstep_report_by_lane(t, now);
            assert(now.lanes[i] == hit_s);
        } else {
            assert(!finished.lanes[0]);
            let next = t.add_spec(finished.select_spec(Lanes::zero_spec(), h));
            assert forall|k: int| 0 <= k < 8 implies #[trigger] next.lane(k) == next.lane(0) by {
                assert(h.lane(k) == hs);
                assert(t.lane(k) == t.lane(0));
                assert(!finished.lanes[k]);
            }
            assert(next.lane(0) == t.lane(0).add_spec(hs));
            assert forall|k: int| 0 <= k < 8 implies #[trigger] now.lanes[k] == now.lanes[0] by {
                assert(h.lane(k) == hs);
            }
            lockstep_of_identical_rays(f, g, wide, ray, next, now, (steps - 1) as nat, i);
        }
    }
}

/// The four directions in which the field is sampled around a point, the
/// vertices of a regular tetrahedron: `(1,-1,-1)`, `(-1,-1,1)`, `(-1,1,-1)`
/// and `(1,1,1)`.
pub open spec fn tetrahedron<V: Comp<3>>() -> (V::Vec, V::Vec, V::Vec, V::Vec) {
    let x = V::from_ratio_spec(1, 1);
    let y = V::from_ratio_spec(-1i64, 1);
    (
        V::new_vec_spec([x, y, y]),
        V::new_vec_spec([y, y, x]),
        V::new_vec_spec([y, x, y]),
        V::new_vec_spec([x, x, x]),
    )
}

/// The direction `k` weighted by the scene's distance a small step from `p`
/// along `k`.
pub open spec fn sample<V: Comp<3>, S: Sdf<V>>(map: &S, p: V::Vec, k: V::Vec) -> V::Vec {
    k.mul_spec(map.dist_spec(p.add_spec(k.mul_spec(epsilon_spec::<V>()))))
}

/// The normalised sum of the four samples around `p`.
pub open spec fn normal_spec<V: Comp<3>, S: Sdf<V>>(map: &S, p: V::Vec) -> V::Vec {
    let (xyy, yyx, yxy, xxx) = tetrahedron::<V>();
    sample(map, p, xyy).add_spec(sample(map, p, yyx)).add_spec(sample(map, p, yxy)).add_spec(
        sample(map, p, xxx),
    ).normalise_spec()
}

/// Estimates the surface normal at point `p` by finite differences.
///
/// The result is meaningful only when `p` is on, or very close to, the
/// surface of `map`.
pub fn normal<V: Comp<3>, S: Sdf<V>>(map: &S, p: V::Vec) -> (r: V::Vec)
    ensures
        r == normal_spec(map, p),
{
    let x = V::from_ratio(1, 1);
    let y = V::from_ratio(-1, 1);
    let ep = epsilon::<V>();

    let xyy = vec3(x, y, y);
    let yyx = vec3(y, y, x);
    let yxy = vec3(y, x, y);
    let xxx = vec3(x, x, x);
    xyy.mul(map.dist(p.add(xyy.mul(ep)))).add(yyx.mul(map.dist(p.add(yyx.mul(ep))))).add(
        yxy.mul(map.dist(p.add(yxy.mul(ep)))),
    ).add(xxx.mul(map.dist(p.add(xxx.mul(ep))))).normalise()
}

} // verus!
