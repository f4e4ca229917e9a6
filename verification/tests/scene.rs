use raymarch::bytes::conv;
use raymarch::bytes::ImageBytes;
use raymarch::march::epsilon;
use raymarch::march::normal;
use raymarch::march::trace;
use raymarch::march::Trace;
use raymarch::march::MAX_STEPS;
use raymarch::ray::Ray;
use raymarch::render::camera_ray;
use raymarch::render::increments;
use raymarch::render::masked;
use raymarch::render::phong;
use raymarch::render::render;
use raymarch::render::resolution;
use raymarch::render::shade;
use raymarch::render::tone_map;
use raymarch::render::Positions;
use raymarch::sdf::Box;
use raymarch::sdf::Sdf;
use raymarch::sdf::SdfExt;
use raymarch::sdf::Sphere;
use raymarch::vector::broadcast;
use raymarch::vector::vec2;
use raymarch::vector::vec3;
use raymarch::vector::Comp;
use raymarch::vector::CompOps;
use raymarch::vector::FromRatio;
use raymarch::vector::Lanes;
use raymarch::vector::Mask8;
use raymarch::vector::Maskable;
use raymarch::vector::Ops;
use raymarch::vector::Scalar;
use raymarch::vector::Vec2;
use raymarch::vector::Vec2x8;
use raymarch::vector::Vec3;
use raymarch::vector::Vec3x8;
use raymarch::vector::Vector;
use raymarch::vector::Vector2D;
use raymarch::vector::Vector3D;

/// Single-precision arithmetic behind the library's component interface.
#[derive(Clone, Copy, Debug, PartialEq)]
struct F(f32);

impl Ops for F {
    fn add_spec(self, rhs: F) -> F {
        F(self.0 + rhs.0)
    }
    fn add(self, rhs: F) -> F {
        F(self.0 + rhs.0)
    }
    fn sub_spec(self, rhs: F) -> F {
        F(self.0 - rhs.0)
    }
    fn sub(self, rhs: F) -> F {
        F(self.0 - rhs.0)
    }
    fn mul_spec(self, rhs: F) -> F {
        F(self.0 * rhs.0)
    }
    fn mul(self, rhs: F) -> F {
        F(self.0 * rhs.0)
    }
    fn div_spec(self, rhs: F) -> F {
        F(self.0 / rhs.0)
    }
    fn div(self, rhs: F) -> F {
        F(self.0 / rhs.0)
    }
    fn rem_spec(self, rhs: F) -> F {
        F(self.0 % rhs.0)
    }
    fn rem(self, rhs: F) -> F {
        F(self.0 % rhs.0)
    }
}

impl FromRatio for F {
    fn from_ratio_spec(num: i64, den: i64) -> F {
        F(num as f32 / den as f32)
    }
    fn from_ratio(num: i64, den: i64) -> F {
        F(num as f32 / den as f32)
    }
}

fn clamp(x: f32, min: f32, max: f32) -> f32 {
    if min <= max {
        x.clamp(min, max)
    } else {
        f32::NAN
    }
}

impl CompOps for F {
    fn zero_spec() -> F {
        F(0.0)
    }
    fn zero() -> F {
        F(0.0)
    }
    fn one_spec() -> F {
        F(1.0)
    }
    fn one() -> F {
        F(1.0)
    }
    fn neg_spec(self) -> F {
        F(-self.0)
    }
    fn neg(self) -> F {
        F(-self.0)
    }
    fn min_spec(&self, other: F) -> F {
        F(self.0.min(other.0))
    }
    fn min(&self, other: F) -> F {
        F(self.0.min(other.0))
    }
    fn max_spec(&self, other: F) -> F {
        F(self.0.max(other.0))
    }
    fn max(&self, other: F) -> F {
        F(self.0.max(other.0))
    }
    fn clamp_spec(&self, min: F, max: F) -> F {
        F(clamp(self.0, min.0, max.0))
    }
    fn clamp(&self, min: F, max: F) -> F {
        F(clamp(self.0, min.0, max.0))
    }
    fn powf_spec(&self, exp: F) -> F {
        F(self.0.powf(exp.0))
    }
    fn powf(&self, exp: F) -> F {
        F(self.0.powf(exp.0))
    }
    fn sqrt_spec(self) -> F {
        F(self.0.sqrt())
    }
    fn sqrt(self) -> F {
        F(self.0.sqrt())
    }
    fn recip_spec(self) -> F {
        F(self.0.recip())
    }
    fn recip(self) -> F {
        F(self.0.recip())
    }
    fn abs_spec(self) -> F {
        F(self.0.abs())
    }
    fn abs(self) -> F {
        F(self.0.abs())
    }
    fn mul_add_spec(self, m: F, a: F) -> F {
        F(self.0.mul_add(m.0, a.0))
    }
    fn mul_add(self, m: F, a: F) -> F {
        F(self.0.mul_add(m.0, a.0))
    }
}

impl Scalar for F {
    fn lt_spec(self, other: F) -> bool {
        self.0 < other.0
    }
    fn lt(self, other: F) -> bool {
        self.0 < other.0
    }
    fn gt_spec(self, other: F) -> bool {
        self.0 > other.0
    }
    fn gt(self, other: F) -> bool {
        self.0 > other.0
    }
    fn max_value_spec() -> F {
        F(f32::MAX)
    }
    fn max_value() -> F {
        F(f32::MAX)
    }
    fn to_byte_spec(self) -> u8 {
        self.0 as u8
    }
    fn to_byte(self) -> u8 {
        self.0 as u8
    }
}

fn v3(x: f32, y: f32, z: f32) -> Vec3<F> {
    vec3(F(x), F(y), F(z))
}

fn xyz(v: Vec3<F>) -> [f32; 3] {
    [v.x.0, v.y.0, v.z.0]
}

fn lanes(values: [f32; 8]) -> Lanes<F> {
    Lanes::from_array(values.map(F))
}

fn values(l: Lanes<F>) -> [f32; 8] {
    l.to_array().map(|f| f.0)
}

fn close(a: f32, b: f32, tolerance: f32) -> bool {
    (a - b).abs() < tolerance
}

/// Points on the unit sphere, scaled by the caller.
fn directions() -> Vec<[f32; 3]> {
    let mut out = Vec::new();
    for raw in [
        [1.0f32, 0.0, 0.0],
        [0.0, 1.0, 0.0],
        [0.0, 0.0, -1.0],
        [1.0, 1.0, 1.0],
        [-1.0, 2.0, 0.5],
        [0.3, -0.7, 0.2],
        [-4.0, -1.0, 3.0],
    ] {
        let len = (raw[0] * raw[0] + raw[1] * raw[1] + raw[2] * raw[2]).sqrt();
        out.push([raw[0] / len, raw[1] / len, raw[2] / len]);
    }
    out
}

// the scene description of the end-to-end scenario

fn camera() -> Vec3<F> {
    v3(0.0, 0.0, 2.0)
}

fn light() -> Vec3<F> {
    v3(1.0, 3.0, 1.0).normalise()
}

fn material() -> Vec3<F> {
    v3(0.5, 0.2, 0.5)
}

// components

#[test]
fn ratio_constants_are_the_decimal_literals() {
    assert_eq!(F::from_ratio(87, 100), F(0.87));
    assert_eq!(F::from_ratio(6, 10), F(0.6));
    assert_eq!(F::from_ratio(18, 10), F(1.8));
    assert_eq!(F::from_ratio(-2, 1), F(-2.0));
    assert_eq!(F::from_ratio(1, 3), F(1.0 / 3.0));
    assert_eq!(F::from_ratio(1, 1).div(F::from_ratio(22, 10)), F(1.0 / 2.2));
    assert_eq!(epsilon::<F>(), F(0.001));
    assert_eq!(epsilon::<Lanes<F>>().to_array(), [F(0.001); 8]);
    assert_eq!(MAX_STEPS, 64);
}

#[test]
fn bool_mask_selects_one_side() {
    assert_eq!(true.select(1, 2), 1);
    assert_eq!(false.select(1, 2), 2);
}

#[test]
fn lane_mask_selects_per_lane() {
    let mask = Mask8 { lanes: [true, false, true, false, false, false, true, true] };
    let a = lanes([1.0; 8]);
    let b = lanes([2.0; 8]);
    assert_eq!(values(mask.select(a, b)), [1.0, 2.0, 1.0, 2.0, 2.0, 2.0, 1.0, 1.0]);
}

#[test]
fn mask_all_needs_every_lane() {
    assert!(Mask8::splat(true).all());
    assert!(!Mask8::splat(false).all());
    let mut lanes = [true; 8];
    lanes[5] = false;
    let mask = Mask8 { lanes };
    assert!(!mask.all());
    assert!(!mask.test(5));
    assert!(mask.test(4));
    assert!(mask.or(Mask8::splat(true)).all());
    assert_eq!(mask.or(Mask8::splat(false)).lanes, lanes);
}

#[test]
fn lane_comparisons_are_per_lane() {
    let a = lanes([0.0, 1.0, 2.0, 3.0, 4.0, 5.0, 6.0, 7.0]);
    let b = lanes([3.5; 8]);
    assert_eq!(a.simd_lt(b).lanes, [true, true, true, true, false, false, false, false]);
    assert_eq!(a.simd_gt(b).lanes, [false, false, false, false, true, true, true, true]);
    assert_eq!(lanes([3.5; 8]).simd_lt(b).lanes, [false; 8]);
}

#[test]
fn lane_arithmetic_is_per_lane() {
    let a = lanes([0.0, 1.0, 2.0, 3.0, 4.0, 5.0, 6.0, 7.0]);
    let b = lanes([2.0; 8]);
    assert_eq!(values(a.add(b)), [2.0, 3.0, 4.0, 5.0, 6.0, 7.0, 8.0, 9.0]);
    assert_eq!(values(a.sub(b)), [-2.0, -1.0, 0.0, 1.0, 2.0, 3.0, 4.0, 5.0]);
    assert_eq!(values(a.mul(b)), [0.0, 2.0, 4.0, 6.0, 8.0, 10.0, 12.0, 14.0]);
    assert_eq!(values(a.div(b)), [0.0, 0.5, 1.0, 1.5, 2.0, 2.5, 3.0, 3.5]);
    assert_eq!(values(a.rem(b)), [0.0, 1.0, 0.0, 1.0, 0.0, 1.0, 0.0, 1.0]);
    assert_eq!(values(a.neg()), [-0.0, -1.0, -2.0, -3.0, -4.0, -5.0, -6.0, -7.0]);
    assert_eq!(values(a.min(b)), [0.0, 1.0, 2.0, 2.0, 2.0, 2.0, 2.0, 2.0]);
    assert_eq!(values(a.max(b)), [2.0, 2.0, 2.0, 3.0, 4.0, 5.0, 6.0, 7.0]);
    assert_eq!(
        values(a.clamp(Lanes::one(), b)),
        [1.0, 1.0, 2.0, 2.0, 2.0, 2.0, 2.0, 2.0]
    );
    assert_eq!(values(a.powf(b)), [0.0, 1.0, 4.0, 9.0, 16.0, 25.0, 36.0, 49.0]);
    assert_eq!(values(a.mul(a).sqrt()), values(a));
    assert_eq!(values(b.recip()), [0.5; 8]);
    assert_eq!(values(a.neg().abs()), values(a));
    assert_eq!(values(a.mul_add(b, b)), [2.0, 4.0, 6.0, 8.0, 10.0, 12.0, 14.0, 16.0]);
    assert_eq!(values(Lanes::<F>::zero()), [0.0; 8]);
    assert_eq!(values(Lanes::<F>::one()), [1.0; 8]);
    assert_eq!(values(Lanes::<F>::max_value()), [f32::MAX; 8]);
    assert_eq!(values(Lanes::splat(F(4.0))), [4.0; 8]);
    assert_eq!(a.get(3), F(3.0));
}

// vectors

#[test]
fn vector_algebra_on_single_components() {
    let a = v3(1.0, -2.0, 3.0);
    let b = v3(4.0, 5.0, -6.0);
    assert_eq!(a.dot(b), F(4.0 - 10.0 - 18.0));
    assert_eq!(v3(3.0, 4.0, 12.0).length_sq(), F(169.0));
    assert_eq!(v3(3.0, 4.0, 12.0).length(), F(13.0));
    assert_eq!(v3(0.0, 0.0, 4.0).length_recip(), F(0.25));
    assert_eq!(xyz(v3(0.0, 0.0, 4.0).normalise()), [0.0, 0.0, 1.0]);
    assert_eq!(xyz(a.mul_add(b, a)), [5.0, -12.0, -15.0]);
    assert_eq!(xyz(a.powf(F(2.0))), [1.0, 4.0, 9.0]);
    assert_eq!(xyz(a.min(b)), [1.0, -2.0, -6.0]);
    assert_eq!(xyz(a.max(b)), [4.0, 5.0, 3.0]);
    assert_eq!(a.min_element(), F(-2.0));
    assert_eq!(a.max_element(), F(3.0));
    assert_eq!(xyz(a.abs()), [1.0, 2.0, 3.0]);
    assert_eq!(xyz(Vector::neg(a)), [-1.0, 2.0, -3.0]);
    assert_eq!(xyz(a.add(b)), [5.0, 3.0, -3.0]);
    assert_eq!(xyz(a.sub(b)), [-3.0, -7.0, 9.0]);
    assert_eq!(xyz(a.mul(b)), [4.0, -10.0, -18.0]);
    assert_eq!(xyz(b.div(a)), [4.0, -2.5, -2.0]);
    assert_eq!(xyz(b.rem(v3(3.0, 3.0, 4.0))), [1.0, 2.0, -2.0]);
    assert_eq!(xyz(a.mul(F(2.0))), [2.0, -4.0, 6.0]);
    assert_eq!(xyz(a.add(F(1.0))), [2.0, -1.0, 4.0]);
    assert_eq!(xyz(a.sub(F(1.0))), [0.0, -3.0, 2.0]);
    assert_eq!(xyz(a.div(F(2.0))), [0.5, -1.0, 1.5]);
    assert_eq!(xyz(Vec3::splat(F(7.0))), [7.0; 3]);
    assert_eq!(xyz(Vec3::new(F(1.0), F(2.0), F(3.0))), [1.0, 2.0, 3.0]);
    assert_eq!(xyz(<Vec3<F> as Vector<3, F>>::zero()), [0.0; 3]);
    assert_eq!(xyz(<Vec3<F> as Vector<3, F>>::one()), [1.0; 3]);
    assert_eq!(xyz(broadcast::<3, F>(F(2.5))), [2.5; 3]);
    assert_eq!([Vector3D::x(&a), Vector3D::y(&a), Vector3D::z(&a)], [F(1.0), F(-2.0), F(3.0)]);
}

#[test]
fn vector_algebra_in_two_dimensions() {
    let a: Vec2<F> = vec2(F(3.0), F(-4.0));
    let b = Vec2::new(F(1.0), F(2.0));
    assert_eq!(a.dot(b), F(-5.0));
    assert_eq!(a.length(), F(5.0));
    assert_eq!(a.length_sq(), F(25.0));
    assert_eq!(a.length_recip(), F(0.2));
    assert_eq!(a.min_element(), F(-4.0));
    assert_eq!(a.max_element(), F(3.0));
    let n = Vec2::new(F(0.0), F(-4.0)).normalise();
    assert_eq!([n.x, n.y], [F(0.0), F(-1.0)]);
    let s = a.mul(F(2.0)).sub(b);
    assert_eq!([s.x, s.y], [F(5.0), F(-10.0)]);
    let m = a.min(b);
    assert_eq!([m.x, m.y], [F(1.0), F(-4.0)]);
    let m = a.max(b);
    assert_eq!([m.x, m.y], [F(3.0), F(2.0)]);
    let m = a.abs();
    assert_eq!([m.x, m.y], [F(3.0), F(4.0)]);
    let m = a.mul_add(b, b);
    assert_eq!([m.x, m.y], [F(4.0), F(-6.0)]);
    let m = a.powf(F(2.0));
    assert_eq!([m.x, m.y], [F(9.0), F(16.0)]);
    let m = Vec2::splat(F(1.5));
    assert_eq!([Vector2D::x(&m), Vector2D::y(&m)], [F(1.5), F(1.5)]);
    let w = a.widen();
    assert_eq!(values(w.x), [3.0; 8]);
    assert_eq!(values(w.y), [-4.0; 8]);
}

#[test]
fn wide_vectors_compute_each_lane_like_a_single_vector() {
    let mut xs = [0.0f32; 8];
    let mut ys = [0.0f32; 8];
    let mut zs = [0.0f32; 8];
    for i in 0..8 {
        xs[i] = i as f32 - 3.5;
        ys[i] = 0.25 * i as f32 + 1.0;
        zs[i] = 2.0 - i as f32;
    }
    let a = Vec3x8::new(lanes(xs), lanes(ys), lanes(zs));
    let b = Vec3x8::new(lanes(zs), lanes(xs), lanes(ys));
    let k = lanes(ys);
    for i in 0..8 {
        let ai = a.extract(i);
        let bi = b.extract(i);
        assert_eq!(xyz(ai), [xs[i], ys[i], zs[i]]);
        assert_eq!(a.dot(b).get(i), ai.dot(bi));
        assert_eq!(a.length().get(i), ai.length());
        assert_eq!(a.length_sq().get(i), ai.length_sq());
        assert_eq!(a.length_recip().get(i), ai.length_recip());
        assert_eq!(xyz(a.normalise().extract(i)), xyz(ai.normalise()));
        assert_eq!(xyz(a.mul_add(b, a).extract(i)), xyz(ai.mul_add(bi, ai)));
        assert_eq!(xyz(a.abs().powf(k).extract(i)), xyz(ai.abs().powf(k.get(i))));
        assert_eq!(xyz(a.min(b).extract(i)), xyz(ai.min(bi)));
        assert_eq!(xyz(a.max(b).extract(i)), xyz(ai.max(bi)));
        assert_eq!(a.min_element().get(i), ai.min_element());
        assert_eq!(a.max_element().get(i), ai.max_element());
        assert_eq!(xyz(a.abs().extract(i)), xyz(ai.abs()));
        assert_eq!(xyz(a.add(b).extract(i)), xyz(ai.add(bi)));
        assert_eq!(xyz(a.sub(b).extract(i)), xyz(ai.sub(bi)));
        assert_eq!(xyz(a.mul(b).extract(i)), xyz(ai.mul(bi)));
        assert_eq!(xyz(a.div(b).extract(i)), xyz(ai.div(bi)));
        assert_eq!(xyz(a.mul(k).extract(i)), xyz(ai.mul(k.get(i))));
        assert_eq!(xyz(Vector::neg(a).extract(i)), xyz(Vector::neg(ai)));
    }
    assert_eq!(xyz(Vec3x8::new_splat(F(2.0)).extract(7)), [2.0; 3]);
    assert_eq!(xyz(Vec3x8::splat(lanes(xs)).extract(2)), [xs[2]; 3]);
    let w = v3(1.0, 2.0, 3.0).widen();
    for i in 0..8 {
        assert_eq!(xyz(w.extract(i)), [1.0, 2.0, 3.0]);
    }
    let two = Vec2x8::new(lanes(xs), lanes(ys));
    for i in 0..8 {
        let v = two.extract(i);
        assert_eq!([v.x.0, v.y.0], [xs[i], ys[i]]);
        assert_eq!(two.dot(two).get(i), v.dot(v));
        assert_eq!(two.min_element().get(i), v.min_element());
        assert_eq!(two.length().get(i), v.length());
    }
}

// rays

#[test]
fn ray_direction_has_unit_length() {
    for d in [[0.0f32, 0.0, -2.0], [1.0, 1.0, -2.0], [-3.0, 0.1, 0.0], [1e-3, 2e-3, -1e-3], [250.0, -80.0, 9.0]] {
        let ray = Ray::<F>::new(camera(), v3(d[0], d[1], d[2]));
        assert!(close(ray.dir.length().0, 1.0, 1e-5));
        assert_eq!(xyz(ray.origin), [0.0, 0.0, 2.0]);
    }
}

#[test]
fn ray_at_is_origin_plus_distance_times_direction() {
    let ray = Ray::<F>::new(camera(), v3(0.0, 0.0, -2.0));
    assert_eq!(xyz(ray.dir), [0.0, 0.0, -1.0]);
    assert_eq!(xyz(ray.at(F(1.5))), [0.0, 0.0, 0.5]);
    assert_eq!(xyz(ray.at(F(0.0))), [0.0, 0.0, 2.0]);
    let copy = ray.clone();
    assert_eq!(xyz(copy.at(F(2.0))), [0.0, 0.0, 0.0]);
}

// shapes

#[test]
fn sphere_distance_is_length_minus_radius() {
    let s = Sphere(F(0.5));
    assert_eq!(s.dist(v3(2.0, 0.0, 0.0)), F(1.5));
    assert_eq!(s.dist(v3(0.0, 0.0, 0.0)), F(-0.5));
    assert_eq!(s.dist(v3(3.0, 4.0, 12.0)), F(12.5));
}

#[test]
fn sphere_distance_has_the_sign_of_the_side() {
    for r in [0.5f32, 1.0, 3.0] {
        let s = Sphere(F(r));
        for d in directions() {
            for scale in [1.001f32, 1.5, 10.0] {
                let k = r * scale;
                assert!(s.dist(v3(d[0] * k, d[1] * k, d[2] * k)).0 > 0.0);
            }
            for scale in [0.0f32, 0.3, 0.999] {
                let k = r * scale;
                assert!(s.dist(v3(d[0] * k, d[1] * k, d[2] * k)).0 < 0.0);
            }
            assert!(s.dist(v3(d[0] * r, d[1] * r, d[2] * r)).0.abs() < 1e-5);
        }
    }
}

#[test]
fn box_distance_outside_inside_and_on_the_surface() {
    let b = Box::<F>(v3(1.0, 1.0, 1.0));
    assert_eq!(b.dist(v3(2.0, 0.0, 0.0)), F(1.0));
    assert_eq!(b.dist(v3(0.0, 0.0, 0.0)), F(-1.0));
    assert_eq!(b.dist(v3(0.0, -0.5, 0.0)), F(-0.5));
    assert_eq!(b.dist(v3(1.0, 0.0, 0.0)), F(0.0));
    assert_eq!(b.dist(v3(4.0, 5.0, 1.0)), F(5.0));
    assert_eq!(b.dist(v3(-4.0, -5.0, -13.0)), F(13.0));
}

#[test]
fn union_distance_is_the_minimum() {
    let scene = Sphere(F(0.5)).union(Box::<F>(v3(0.2, 0.3, 0.4)).translate(v3(1.0, 0.0, 0.0)));
    let a = Sphere(F(0.5));
    let b = Box::<F>(v3(0.2, 0.3, 0.4)).translate(v3(1.0, 0.0, 0.0));
    for d in directions() {
        for k in [0.0f32, 0.4, 0.9, 1.3, 5.0] {
            let p = v3(d[0] * k, d[1] * k, d[2] * k);
            assert_eq!(scene.dist(p), a.dist(p).min(b.dist(p)));
        }
    }
    assert_eq!(scene.dist(v3(0.0, 0.0, 0.0)), F(-0.5));
    assert_eq!(scene.dist(v3(1.0, 0.0, 0.0)), F(-0.2));
}

#[test]
fn translate_distance_is_the_distance_at_the_shifted_point() {
    let v = v3(1.0, -2.0, 0.5);
    let moved = Sphere(F(0.5)).translate(v);
    let child = Sphere(F(0.5));
    for d in directions() {
        for k in [0.0f32, 0.7, 2.0] {
            let p = v3(d[0] * k, d[1] * k, d[2] * k);
            assert_eq!(moved.dist(p), child.dist(p.sub(v)));
        }
    }
    assert_eq!(moved.dist(v3(1.0, -2.0, 0.5)), F(-0.5));
    assert_eq!(moved.dist(v3(1.0, -2.0, 2.5)), F(1.5));
}

#[test]
fn widened_shapes_evaluate_each_lane_like_the_shape() {
    let mut xs = [0.0f32; 8];
    for i in 0..8 {
        xs[i] = 0.3 * i as f32 - 1.0;
    }
    let p = Vec3x8::new(lanes(xs), lanes([0.25; 8]), lanes([-0.5; 8]));
    let sphere = Sphere(F(0.5)).widen().dist(p);
    let cuboid = Box::<F>(v3(0.5, 0.2, 0.1)).widen().dist(p);
    for i in 0..8 {
        assert_eq!(sphere.get(i), Sphere(F(0.5)).dist(p.extract(i)));
        assert_eq!(cuboid.get(i), Box::<F>(v3(0.5, 0.2, 0.1)).dist(p.extract(i)));
    }
}

// tracing

#[test]
fn center_ray_hits_sphere() {
    let s = Sphere(F(0.5));
    let ray = Ray::new(camera(), v3(0.0, 0.0, -2.0));
    let tr = trace(&s, ray, None);
    assert!(tr.hit);
    assert!(close(tr.distance.0, 1.5, 1e-2));
    // at a hit the scene is within the tolerance, which grows with the distance
    assert!(s.dist(ray.at(tr.distance)).0 < tr.distance.0 * 0.001);
}

#[test]
fn default_relaxation_is_eighty_seven_hundredths() {
    let s = Sphere(F(0.5));
    let ray = Ray::new(camera(), v3(0.1, 0.05, -2.0));
    let by_default = trace(&s, ray, None);
    let explicit = trace(&s, ray, Some(F(0.87)));
    assert_eq!(by_default.hit, explicit.hit);
    assert_eq!(by_default.distance, explicit.distance);
    let conservative = trace(&s, ray, Some(F(0.0)));
    assert!(conservative.hit);
    assert!(close(conservative.distance.0, by_default.distance.0, 1e-2));
}

#[test]
fn ray_that_misses_reports_the_largest_distance() {
    let s = Sphere(F(0.5));
    let away = trace(&s, Ray::new(camera(), v3(0.0, 0.0, 1.0)), None);
    assert!(!away.hit);
    assert_eq!(away.distance, F(f32::MAX));
    let aside = trace(&s, Ray::new(camera(), v3(1.0, 1.0, -2.0)), None);
    assert!(!aside.hit);
    assert_eq!(aside.distance, F(f32::MAX));
}

/// A scene that is the same small distance away from everywhere.
struct Fog(f32);

impl Sdf<F> for Fog {
    fn dist_spec(&self, _p: Vec3<F>) -> F {
        F(self.0)
    }
    fn dist(&self, _p: Vec3<F>) -> F {
        F(self.0)
    }
}

impl Sdf<Lanes<F>> for Fog {
    fn dist_spec(&self, _p: Vec3x8<F>) -> Lanes<F> {
        Lanes::splat(F(self.0))
    }
    fn dist(&self, _p: Vec3x8<F>) -> Lanes<F> {
        Lanes::splat(F(self.0))
    }
}

#[test]
fn running_out_of_steps_is_a_miss_at_the_largest_distance() {
    // a hit needs the distance travelled to exceed 0.5, a thousand steps away
    let fog = Fog(0.0005);
    let wide: Trace<Lanes<F>, Mask8> = trace(
        &fog,
        Ray::new(Vec3x8::new_splat(F(0.0)), v3(0.0, 0.0, -1.0).widen()),
        None,
    );
    assert_eq!(wide.hit.lanes, [false; 8]);
    assert_eq!(values(wide.distance), [f32::MAX; 8]);

    // the adaptive marcher starts with a step of one, after which this fog
    // is within the tolerance
    let single: Trace<F, bool> =
        trace(&fog, Ray::new(v3(0.0, 0.0, 0.0), v3(0.0, 0.0, -1.0)), None);
    assert!(single.hit);
    assert_eq!(single.distance, F(1.0));
}

#[test]
fn scalar_and_wide_tracing_agree() {
    let s = Sphere(F(0.5));
    let wide_scene = Sphere(F(0.5)).widen();
    for d in [[0.0f32, 0.0, -2.0], [0.1, 0.0, -2.0], [0.2, -0.1, -2.0], [-0.3, 0.3, -2.0], [1.0, 1.0, -2.0], [0.0, 0.0, 1.0], [2.0, 0.0, -2.0]] {
        let dir = v3(d[0], d[1], d[2]);
        let single = trace(&s, Ray::new(camera(), dir), None);
        let wide: Trace<Lanes<F>, Mask8> =
            trace(&wide_scene, Ray::new(camera().widen(), dir.widen()), None);
        for i in 0..8 {
            assert_eq!(wide.hit.test(i), single.hit);
            if single.hit {
                assert!(close(wide.distance.get(i).0, single.distance.0, 1e-3));
            }
        }
    }
}

#[test]
fn identical_rays_give_identical_lanes() {
    let scene = Sphere(F(0.5)).widen();
    let single = Sphere(F(0.5));
    for d in [[0.0f32, 0.0, -2.0], [0.2, -0.1, -2.0], [1.0, 1.0, -2.0]] {
        let dir = v3(d[0], d[1], d[2]);
        let tr = trace(&scene, Ray::new(camera().widen(), dir.widen()), None);
        // plain sphere tracing of the one ray
        let ray = Ray::new(camera(), dir);
        let mut t = 0.0f32;
        let mut hit = false;
        for _ in 0..MAX_STEPS {
            let h = single.dist(ray.at(F(t))).0;
            hit = h < 0.001 * t;
            if hit || t > f32::MAX {
                break;
            }
            t += h;
        }
        // without a hit the largest distance is reported
        let distance = if hit { t } else { f32::MAX };
        for i in 0..8 {
            assert_eq!(tr.distance.get(i), F(distance));
            assert_eq!(tr.hit.test(i), hit);
        }
    }
}

#[test]
fn wide_tracing_keeps_finished_lanes_where_they_are() {
    // lanes 0..4 look at the sphere, the others away from it
    let mut xs = [0.0f32; 8];
    for i in 4..8 {
        xs[i] = 3.0;
    }
    let dir = Vec3x8::new(lanes(xs), lanes([0.0; 8]), lanes([-2.0; 8]));
    let scene = Sphere(F(0.5)).widen();
    let tr = trace(&scene, Ray::new(camera().widen(), dir), None);
    for i in 0..8 {
        assert_eq!(tr.hit.test(i), i < 4);
    }
    for i in 0..4 {
        assert!(close(tr.distance.get(i).0, 1.5, 1e-2));
        assert_eq!(tr.distance.get(i), tr.distance.get(0));
    }
    for i in 4..8 {
        assert_eq!(tr.distance.get(i), F(f32::MAX));
    }
}

#[test]
fn normal_on_a_sphere_is_parallel_to_the_point() {
    for r in [0.5f32, 1.0, 2.0] {
        let s = Sphere(F(r));
        for d in directions() {
            let p = v3(d[0] * r, d[1] * r, d[2] * r);
            let n = normal(&s, p);
            assert!(close(n.normalise().dot(p.normalise()).0, 1.0, 1e-2));
        }
    }
}

#[test]
fn normal_is_the_same_in_every_lane() {
    let p = v3(0.0, 0.3, 0.4);
    let single = normal(&Sphere(F(0.5)), p);
    let wide = normal(&Sphere(F(0.5)).widen(), p.widen());
    for i in 0..8 {
        assert_eq!(xyz(wide.extract(i)), xyz(single));
    }
}

// shading

#[test]
fn phong_adds_ambient_diffuse_and_specular() {
    let up = v3(0.0, 0.0, 1.0);
    // fully lit and mirrored into the eye: 1 + 3 * 1 + 3 * 1 ^ 20
    assert_eq!(phong::<F>(up, up, up), F(7.0));
    // lit from behind: ambient only
    assert_eq!(phong::<F>(Vector::neg(up), up, up), F(1.0));
    // lit from the side, seen from above: the mirrored light is not seen
    assert_eq!(phong::<F>(v3(1.0, 0.0, 0.0), up, up), F(1.0));
    // lit from above, seen from the side: diffuse only
    assert_eq!(phong::<F>(up, up, v3(1.0, 0.0, 0.0)), F(4.0));
    let l = v3(0.0, 0.6, 0.8);
    // the mirrored light is (0, -0.6, 0.8)
    let expected = 1.0 + (3.0 * 0.8f32 + 3.0 * 0.8f32.powf(20.0));
    assert!(close(phong::<F>(l, up, up).0, expected, 1e-5));
}

#[test]
fn tone_map_compresses_and_corrects() {
    assert_eq!(xyz(tone_map::<F>(v3(0.0, 0.0, 0.0))), [0.0; 3]);
    let third = 1.0f32 / 3.0;
    let one = (1.8f32 / (1.0 + (third + third + third))).powf(1.0 / 2.2);
    assert_eq!(xyz(tone_map::<F>(v3(1.0, 1.0, 1.0))), [one; 3]);
    let col = [3.5f32, 1.4, 3.5];
    let sum = 1.0 + (col[0] * third + col[1] * third + col[2] * third);
    let mapped = tone_map::<F>(v3(col[0], col[1], col[2]));
    for c in 0..3 {
        assert_eq!(xyz(mapped)[c], (col[c] * 1.8 / sum).powf(1.0 / 2.2));
        assert!(xyz(mapped)[c] <= 1.5);
    }
}

#[test]
fn camera_ray_spans_the_shorter_side() {
    let res = resolution::<F>(64, 32);
    assert_eq!([res.x, res.y], [F(64.0), F(32.0)]);
    // the centre of the screen looks straight along the negative z axis
    let ray = camera_ray::<F>(vec2(F(32.0), F(16.0)), res, camera());
    assert_eq!(xyz(ray.dir), [0.0, 0.0, -1.0]);
    // uv = (2 * pos - res) / -min(res): (-64, -32) / -32 = (2, 1)
    let ray = camera_ray::<F>(vec2(F(0.0), F(0.0)), res, camera());
    let d = v3(2.0, 1.0, -2.0).normalise();
    assert_eq!(xyz(ray.dir), xyz(d));
    assert_eq!(xyz(ray.origin), [0.0, 0.0, 2.0]);
}

// positions

#[test]
fn positions_are_row_major() {
    let ps = <F as Positions>::positions(3, 2);
    let got: Vec<[f32; 2]> = ps.iter().map(|p| [p.x.0, p.y.0]).collect();
    assert_eq!(got, [[0.0, 0.0], [1.0, 0.0], [2.0, 0.0], [0.0, 1.0], [1.0, 1.0], [2.0, 1.0]]);
    assert!(<F as Positions>::positions(0, 5).is_empty());
    assert!(<F as Positions>::positions(5, 0).is_empty());
    assert_eq!(<F as Positions>::positions(64, 64).len(), 4096);
}

#[test]
fn wide_positions_group_eight_pixels_of_a_row() {
    assert_eq!(values(increments::<F>()), [0.0, 1.0, 2.0, 3.0, 4.0, 5.0, 6.0, 7.0]);
    let groups = <Lanes<F> as Positions>::positions(16, 2);
    assert_eq!(groups.len(), 4);
    let single = <F as Positions>::positions(16, 2);
    for (g, group) in groups.iter().enumerate() {
        for k in 0..8 {
            let p = group.extract(k);
            assert_eq!([p.x, p.y], [single[8 * g + k].x, single[8 * g + k].y]);
        }
    }
    assert_eq!(values(groups[3].x), [8.0, 9.0, 10.0, 11.0, 12.0, 13.0, 14.0, 15.0]);
    assert_eq!(values(groups[3].y), [1.0; 8]);
    assert!(<Lanes<F> as Positions>::positions(0, 8).is_empty());
    // a last group is made for what is left of the pixels
    assert_eq!(<Lanes<F> as Positions>::positions(3, 3).len(), 2);
}

// image assembly

#[test]
fn conv_scales_to_a_byte_and_truncates() {
    assert_eq!(conv(F(0.0)), 0);
    assert_eq!(conv(F(1.0)), 255);
    assert_eq!(conv(F(0.5)), 127);
    assert_eq!(conv(F(0.999)), 254);
    assert_eq!(conv(F(0.2)), 51);
    assert_eq!(conv(F(f32::NAN)), 0);
}

#[test]
fn bytes_are_three_per_pixel_in_order() {
    let colours = vec![v3(0.0, 0.5, 1.0), v3(1.0, 0.0, 0.2)];
    assert_eq!(colours.bytes(), [0, 127, 255, 255, 0, 51]);
    assert!(Vec::<Vec3<F>>::new().bytes().is_empty());
}

#[test]
fn wide_bytes_take_the_lanes_apart() {
    let mut reds = [0.0f32; 8];
    let mut greens = [0.0f32; 8];
    let mut blues = [0.0f32; 8];
    let mut pixels = Vec::new();
    for i in 0..8 {
        reds[i] = i as f32 / 10.0;
        greens[i] = 1.0 - i as f32 / 10.0;
        blues[i] = 0.5;
        pixels.push(v3(reds[i], greens[i], blues[i]));
    }
    let group = Vec3x8::new(lanes(reds), lanes(greens), lanes(blues));
    let other = v3(1.0, 0.0, 0.2).widen();
    let got = vec![group, other].bytes();
    assert_eq!(got.len(), 48);
    assert_eq!(got[..24], pixels.bytes());
    assert_eq!(got[24..], vec![v3(1.0, 0.0, 0.2); 8].bytes());
    assert_eq!(got[..6], [0, 255, 127, 25, 229, 127]);
}

// the whole pipeline

#[test]
fn end_to_end_center_hits_and_corner_misses() {
    let scene = Sphere(F(0.5));
    let res = resolution::<F>(64, 64);

    let center = camera_ray::<F>(vec2(F(32.0), F(32.0)), res, camera());
    let tr = trace(&scene, center, None);
    assert!(tr.hit);
    assert!(close(tr.distance.0, 1.5, 1e-2));

    let corner = camera_ray::<F>(vec2(F(0.0), F(0.0)), res, camera());
    let tr = trace(&scene, corner, None);
    assert!(!tr.hit);

    let image = render::<F, Sphere<F>>(64, 64, camera(), light(), material(), &scene);
    assert_eq!(image.len(), 64 * 64);
    let lit = image[32 * 64 + 32];
    assert_eq!(
        xyz(lit),
        xyz(shade::<F, Sphere<F>>(vec2(F(32.0), F(32.0)), res, camera(), light(), material(), &scene))
    );
    for c in xyz(lit) {
        assert!(c > 0.0 && c <= 1.0);
    }
    // the material has more red and blue than green
    assert!(lit.x.0 > lit.y.0);
    assert_eq!(lit.x, lit.z);

    // the corner pixels miss: their colour is black
    assert_eq!(xyz(image[0]), [0.0, 0.0, 0.0]);
    assert_eq!(xyz(image[63]), [0.0, 0.0, 0.0]);
    assert_eq!(xyz(image[64 * 64 - 1]), [0.0, 0.0, 0.0]);
    assert_eq!(
        xyz(shade::<F, Sphere<F>>(vec2(F(0.0), F(0.0)), res, camera(), light(), material(), &scene)),
        [0.0, 0.0, 0.0]
    );

    let bytes = image.bytes();
    assert_eq!(bytes.len(), 64 * 64 * 3);
    assert_eq!(bytes[..3], [0, 0, 0]);
    assert_eq!(bytes[bytes.len() - 3..], [0, 0, 0]);
    let at = (32 * 64 + 32) * 3;
    assert!(bytes[at] > 0 && bytes[at + 1] > 0 && bytes[at + 2] > 0);
    assert_eq!(bytes[at], conv(lit.x));
}

#[test]
fn colour_is_kept_at_a_hit_and_black_at_a_miss() {
    let col = v3(0.25, f32::NAN, f32::INFINITY);
    assert_eq!(xyz(masked::<F>(&false, col)), [0.0, 0.0, 0.0]);
    let kept = masked::<F>(&true, v3(0.25, 0.5, 2.0));
    assert_eq!(xyz(kept), [0.25, 0.5, 2.0]);

    let mut hit = [false; 8];
    hit[2] = true;
    hit[7] = true;
    let wide = masked::<Lanes<F>>(&Mask8 { lanes: hit }, v3(0.25, f32::NAN, 2.0).widen());
    for i in 0..8 {
        if hit[i] {
            assert_eq!(wide.extract(i).x, F(0.25));
            assert!(wide.extract(i).y.0.is_nan());
            assert_eq!(wide.extract(i).z, F(2.0));
        } else {
            assert_eq!(xyz(wide.extract(i)), [0.0, 0.0, 0.0]);
        }
    }
}

#[test]
fn wide_render_has_black_where_a_lane_misses() {
    let scene = Sphere(F(0.5)).widen();
    let image = render::<Lanes<F>, _>(
        64,
        64,
        camera().widen(),
        light().widen(),
        material().widen(),
        &scene,
    );
    assert_eq!(image.len(), 64 * 64 / 8);
    // the first group of the first row misses in every lane
    for i in 0..8 {
        assert_eq!(xyz(image[0].extract(i)), [0.0, 0.0, 0.0]);
    }
    // the group that holds the centre pixel is lit in every lane
    let middle = image[(32 * 64 + 32) / 8];
    for i in 0..8 {
        assert!(middle.extract(i).x.0 > 0.0);
    }
}

#[test]
fn wide_render_gives_the_image_of_the_single_render() {
    let scene = Sphere(F(0.5));
    let wide_scene = Sphere(F(0.5)).widen();
    let single = render::<F, Sphere<F>>(16, 16, camera(), light(), material(), &scene).bytes();
    let wide = render::<Lanes<F>, Sphere<Lanes<F>>>(
        16,
        16,
        camera().widen(),
        light().widen(),
        material().widen(),
        &wide_scene,
    )
    .bytes();
    assert_eq!(wide.len(), 16 * 16 * 3);
    assert_eq!(single.len(), wide.len());
    let mut lit = 0;
    for i in 0..single.len() {
        assert_eq!(single[i] == 0, wide[i] == 0);
        assert!((single[i] as i32 - wide[i] as i32).abs() <= 8);
        if wide[i] > 0 {
            lit += 1;
        }
    }
    assert!(lit > 0);
    assert_eq!(wide[..3], [0, 0, 0]);
}

#[test]
fn rendering_twice_gives_identical_bytes() {
    let scene = Sphere(F(0.5)).union(Box::<F>(v3(0.2, 0.2, 0.2)).translate(v3(0.6, 0.0, 0.0)));
    let first = render::<F, _>(24, 16, camera(), light(), material(), &scene).bytes();
    let second = render::<F, _>(24, 16, camera(), light(), material(), &scene).bytes();
    assert_eq!(first, second);
    assert_eq!(first.len(), 24 * 16 * 3);
    assert!(first.iter().any(|b| *b != 0));

    let scene = Sphere(F(0.5)).widen();
    let origin = camera().widen();
    let first = render::<Lanes<F>, _>(24, 16, origin, light().widen(), material().widen(), &scene);
    let second = render::<Lanes<F>, _>(24, 16, origin, light().widen(), material().widen(), &scene);
    assert_eq!(first.bytes(), second.bytes());
}

#[test]
fn component_of_a_vector_builds_it() {
    let v = <F as Comp<3>>::new_vec([F(1.0), F(2.0), F(3.0)]);
    assert_eq!(xyz(v), [1.0, 2.0, 3.0]);
    let w = <Lanes<F> as Comp<2>>::new_vec([lanes([1.0; 8]), lanes([2.0; 8])]);
    assert_eq!(values(w.x), [1.0; 8]);
    assert_eq!(values(w.y), [2.0; 8]);
}
