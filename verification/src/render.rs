//! The per-pixel pipeline: camera ray, trace, shading and tone mapping.
//!
//! Every pixel (or group of eight pixels) is computed from its position alone,
//! so an image is a plain map over the positions, in row-major order.

use vstd::prelude::*;

use crate::march::Traceable;
use crate::march::field;
use crate::march::normal;
use crate::march::normal_spec;
use crate::march::trace;
use crate::ray::Ray;
use crate::sdf::Sdf;
use crate::vector::Comp;
use crate::vector::CompOps;
use crate::vector::FromRatio;
use crate::vector::Lanes;
use crate::vector::Maskable;
use crate::vector::Ops;
use crate::vector::Scalar;
use crate::vector::Vec2;
use crate::vector::Vec2x8;
use crate::vector::Vec3;
use crate::vector::Vec3x8;
use crate::vector::Vector2D;
use crate::vector::Vector3D;
use crate::vector::Vector;
use crate::vector::broadcast;
use crate::vector::vec2;
use crate::vector::vec3;

verus! {

/// The light that reaches the eye from a surface with normal `nor`, lit from
/// `ldir`:
/// `1 + 3 * clamp(l . n, 0, 1) + 3 * clamp(r . e, 0, 1) ^ 20`,
/// where `r = 2 * n * (n . l) - l` is the light direction mirrored at the
/// normal.
pub open spec fn phong_spec<V: Comp<3>>(ldir: V::Vec, nor: V::Vec, eye: V::Vec) -> V {
    let ks = V::from_ratio_spec(3, 1);
    let kd = V::from_ratio_spec(3, 1);
    let ka = V::from_ratio_spec(1, 1);
    let al = V::from_ratio_spec(20, 1);
    let rm = nor.mul_spec(nor.dot_spec(ldir)).mul_spec(V::from_ratio_spec(2, 1)).sub_spec(ldir);
    ka.add_spec(
        kd.mul_spec(ldir.dot_spec(nor).clamp_spec(V::zero_spec(), V::one_spec())).add_spec(
            ks.mul_spec(rm.dot_spec(eye).clamp_spec(V::zero_spec(), V::one_spec()).powf_spec(al)),
        ),
    )
}

/// Phong shading: ambient, diffuse and specular light.
pub fn phong<V: Comp<3>>(ldir: V::Vec, nor: V::Vec, eye: V::Vec) -> (r: V)
    ensures
        r == phong_spec::<V>(ldir, nor, eye),
{
    // material settings
    let ks = V::from_ratio(3, 1);  // specular
    let kd = V::from_ratio(3, 1);  // diffuse
    let ka = V::from_ratio(1, 1);  // ambient
    let al = V::from_ratio(20, 1);  // shininess

    let rm = nor.mul(nor.dot(ldir)).mul(V::from_ratio(2, 1)).sub(ldir);
    ka.add(
        kd.mul(ldir.dot(nor).clamp(V::zero(), V::one())).add(
            ks.mul(rm.dot(eye).clamp(V::zero(), V::one()).powf(al)),
        ),
    )
}

/// The resolution as a vector, `(width, height)`.
pub open spec fn resolution_spec<V: Comp<2>>(width: u32, height: u32) -> V::Vec {
    V::new_vec_spec([V::from_ratio_spec(width as i64, 1), V::from_ratio_spec(height as i64, 1)])
}

/// The resolution as a vector, `(width, height)`.
pub fn resolution<V: Comp<2>>(width: u32, height: u32) -> (r: V::Vec)
    ensures
        r == resolution_spec::<V>(width, height),
{
    vec2(V::from_ratio(width as i64, 1), V::from_ratio(height as i64, 1))
}

/// The ray from `origin` through the pixel at `pos`.
///
/// The pixel is mapped to `uv = (2 * pos - res) / -min(res.x, res.y)`, so that
/// the shorter side of the screen spans `[-1, 1]`, and the ray points at
/// `(uv.x, uv.y, -2)`.
pub open spec fn camera_ray_spec<V>(
    pos: <V as Comp<2>>::Vec,
    res: <V as Comp<2>>::Vec,
    origin: <V as Comp<3>>::Vec,
) -> Ray<V> where V: Comp<2> + Comp<3>, <V as Comp<2>>::Vec: Vector2D<V> {
    let uv = pos.mul_spec(V::from_ratio_spec(2, 1)).sub_spec(res).div_spec(
        res.min_element_spec().neg_spec(),
    );
    let dir = <V as Comp<3>>::new_vec_spec([uv.x_spec(), uv.y_spec(), V::from_ratio_spec(-2i64, 1)]);
    Ray { origin, dir: dir.normalise_spec() }
}

/// Builds the ray from `origin` through the pixel at `pos`.
pub fn camera_ray<V>(
    pos: <V as Comp<2>>::Vec,
    res: <V as Comp<2>>::Vec,
    origin: <V as Comp<3>>::Vec,
) -> (r: Ray<V>) where V: Comp<2> + Comp<3>, <V as Comp<2>>::Vec: Vector2D<V>
    ensures
        r == camera_ray_spec::<V>(pos, res, origin),
        r.wf(),
{
    // calculate the "uv" coordinates from the position on screen
    let uv = pos.mul(V::from_ratio(2, 1)).sub(res).div(res.min_element().neg());
    // point the ray along the negative Z axis
    let dir = vec3(uv.x(), uv.y(), V::from_ratio(-2, 1));
    Ray::new(origin, dir)
}

/// The gain applied to a colour before it is compressed, `1.8`.
pub open spec fn gain_spec<V: FromRatio>() -> V {
    V::from_ratio_spec(18, 10)
}

/// The exponent of the gamma correction, `1 / 2.2`.
pub open spec fn gamma_spec<V: CompOps + FromRatio>() -> V {
    V::from_ratio_spec(1, 1).div_spec(V::from_ratio_spec(22, 10))
}

/// Compresses a colour into the displayable range and applies the gamma
/// correction: `(col * 1.8 / (1 + col . (1/3, 1/3, 1/3))) ^ (1 / 2.2)`.
pub open spec fn tone_map_spec<V: Comp<3>>(col: V::Vec) -> V::Vec {
    let third = <V::Vec as Vector<3, V>>::splat_spec(V::from_ratio_spec(1, 3));
    col.mul_spec(gain_spec::<V>()).div_spec(V::one_spec().add_spec(col.dot_spec(third))).powf_spec(
        gamma_spec::<V>(),
    )
}

/// Gain correction against the average of the channels, then gamma
/// correction.
pub fn tone_map<V: Comp<3>>(col: V::Vec) -> (r: V::Vec)
    ensures
        r == tone_map_spec::<V>(col),
{
    let third = broadcast::<3, V>(V::from_ratio(1, 3));
    let col = col.mul(V::from_ratio(18, 10)).div(V::one().add(col.dot(third)));
    col.powf(V::from_ratio(1, 1).div(V::from_ratio(22, 10)))
}

/// The colour `col` where the trace hit and black where it missed, chosen
/// component by component by the mask.
pub open spec fn masked_spec<V>(hit: V::Mask, col: V::Vec) -> V::Vec where
    V: Traceable,
    V::Vec: Vector3D<V>,
 {
    V::new_vec_spec(
        [
            hit.select_spec(col.x_spec(), V::zero_spec()),
            hit.select_spec(col.y_spec(), V::zero_spec()),
            hit.select_spec(col.z_spec(), V::zero_spec()),
        ],
    )
}

/// Keeps the colour `col` where the trace hit and makes it black where it
/// missed.
pub fn masked<V>(hit: &V::Mask, col: V::Vec) -> (r: V::Vec) where
    V: Traceable,
    V::Vec: Vector3D<V>,

    ensures
        r == masked_spec::<V>(*hit, col),
{
    vec3(
        hit.select(col.x(), V::zero()),
        hit.select(col.y(), V::zero()),
        hit.select(col.z(), V::zero()),
    )
}

/// The colour of the pixel at `pos`.
///
/// The ray through the pixel is traced with the default relaxation factor.
/// The surface at the point it reaches is lit by `ldir` and coloured `mat`;
/// where the trace missed, the colour is black instead. The result is tone
/// mapped.
pub open spec fn shade_spec<V, S>(
    pos: <V as Comp<2>>::Vec,
    res: <V as Comp<2>>::Vec,
    origin: <V as Comp<3>>::Vec,
    ldir: <V as Comp<3>>::Vec,
    mat: <V as Comp<3>>::Vec,
    map: &S,
) -> <V as Comp<3>>::Vec where
    V: Comp<2> + Comp<3> + Traceable,
    <V as Comp<2>>::Vec: Vector2D<V>,
    <V as Comp<3>>::Vec: Vector3D<V>,
    S: Sdf<V>,
 {
    let ray = camera_ray_spec::<V>(pos, res, origin);
    let tr = V::trace_spec(field(map), ray, None);
    let nor = normal_spec(map, ray.at_spec(tr.distance));
    let lin = phong_spec::<V>(ldir, nor, ray.dir.neg_spec());
    tone_map_spec::<V>(masked_spec::<V>(tr.hit, mat.mul_spec(lin)))
}

/// Computes the colour of the pixel at `pos`.
pub fn shade<V, S>(
    pos: <V as Comp<2>>::Vec,
    res: <V as Comp<2>>::Vec,
    origin: <V as Comp<3>>::Vec,
    ldir: <V as Comp<3>>::Vec,
    mat: <V as Comp<3>>::Vec,
    map: &S,
) -> (r: <V as Comp<3>>::Vec) where
    V: Comp<2> + Comp<3> + Traceable,
    <V as Comp<2>>::Vec: Vector2D<V>,
    <V as Comp<3>>::Vec: Vector3D<V>,
    S: Sdf<V>,

    ensures
        r == shade_spec::<V, S>(pos, res, origin, ldir, mat, map),
{
    // RAY GENERATION
    let ray = camera_ray::<V>(pos, res, origin);

    // RAY MARCHING
    let tr = trace(map, ray, None);
    // position of where the ray hit
    let at = ray.at(tr.distance);
    // the surface normal
    let nor = normal(map, at);

    // LIGHTING
    // amount of light in from phong shading
    let lin = phong::<V>(ldir, nor, ray.dir.neg());
    // light up the object in its colour
    let col = mat.mul(lin);
    // if not hit, the colour should be black
    let col = masked::<V>(&tr.hit, col);

    // POST PROCESSING
    tone_map::<V>(col)
}

/// The colour black.
pub open spec fn black<T: Scalar>() -> Vec3<T> {
    Vec3 { x: T::zero_spec(), y: T::zero_spec(), z: T::zero_spec() }
}

/// A pixel whose ray misses the scene has the tone map of black as its
/// colour, whatever the light and the material are.
pub proof fn miss_is_black<T: Scalar, S: Sdf<T>>(
    pos: Vec2<T>,
    res: Vec2<T>,
    origin: Vec3<T>,
    ldir: Vec3<T>,
    mat: Vec3<T>,
    map: &S,
)
    requires
        !T::trace_spec(field(map), camera_ray_spec::<T>(pos, res, origin), None).hit,
    ensures
        shade_spec::<T, S>(pos, res, origin, ldir, mat, map) == tone_map_spec::<T>(black()),
{
}

/// The tone map of eight colours is, in each lane, the tone map of the colour
/// in that lane.
pub proof fn tone_map_by_lane<T: Scalar>(col: Vec3x8<T>, i: int)
    requires
        0 <= i < 8,
    ensures
        tone_map_spec::<Lanes<T>>(col).lane(i) == tone_map_spec::<T>(col.lane(i)),
{
}

/// In a group of eight pixels, a pixel whose ray misses the scene has the
/// tone map of black as its colour.
pub proof fn lane_miss_is_black<T: Scalar, S: Sdf<Lanes<T>>>(
    pos: Vec2x8<T>,
    res: Vec2x8<T>,
    origin: Vec3x8<T>,
    ldir: Vec3x8<T>,
    mat: Vec3x8<T>,
    map: &S,
    i: int,
)
    requires
        0 <= i < 8,
        !<Lanes<T> as Traceable>::trace_spec(
            field(map),
            camera_ray_spec::<Lanes<T>>(pos, res, origin),
            None,
        ).hit.lanes[i],
    ensures
        shade_spec::<Lanes<T>, S>(pos, res, origin, ldir, mat, map).lane(i) == tone_map_spec::<T>(
            black(),
        ),
{
    let ray = camera_ray_spec::<Lanes<T>>(pos, res, origin);
    let tr = <Lanes<T> as Traceable>::trace_spec(field(map), ray, None);
    let lin = phong_spec::<Lanes<T>>(
        ldir,
        normal_spec(map, ray.at_spec(tr.distance)),
        ray.dir.neg_spec(),
    );
    let col = masked_spec::<Lanes<T>>(tr.hit, mat.mul_spec(lin));
    assert(Lanes::<T>::zero_spec().lane(i) == T::zero_spec());
    assert(col.lane(i) == black::<T>());
    tone_map_by_lane(col, i);
}

/// Whether `out` is the image of the scene `map`: one colour for each
/// position of the `width` by `height` grid, in the order of the positions,
/// each the shade of its position.
pub open spec fn is_render<V, S>(
    out: Seq<<V as Comp<3>>::Vec>,
    width: u32,
    height: u32,
    origin: <V as Comp<3>>::Vec,
    ldir: <V as Comp<3>>::Vec,
    mat: <V as Comp<3>>::Vec,
    map: &S,
) -> bool where
    V: Comp<2> + Comp<3> + Traceable + Positions,
    <V as Comp<2>>::Vec: Vector2D<V>,
    <V as Comp<3>>::Vec: Vector3D<V>,
    S: Sdf<V>,
 {
    let positions = V::positions_spec(width, height);
    let res = resolution_spec::<V>(width, height);
    &&& out.len() == positions.len()
    &&& forall|i: int|
        0 <= i < out.len() ==> #[trigger] out[i] == shade_spec::<V, S>(
            positions[i],
            res,
            origin,
            ldir,
            mat,
            map,
        )
}

/// Renders the scene `map`, seen from `origin` and lit from `ldir`, and
/// returns a colour for each pixel (or group of eight pixels) of a `width` by
/// `height` image, row by row.
pub fn render<V, S>(
    width: u32,
    height: u32,
    origin: <V as Comp<3>>::Vec,
    ldir: <V as Comp<3>>::Vec,
    mat: <V as Comp<3>>::Vec,
    map: &S,
) -> (r: Vec<<V as Comp<3>>::Vec>) where
    V: Comp<2> + Comp<3> + Traceable + Positions,
    <V as Comp<2>>::Vec: Vector2D<V>,
    <V as Comp<3>>::Vec: Vector3D<V>,
    S: Sdf<V>,

    requires
        width * height <= u32::MAX,
    ensures
        is_render::<V, S>(r@, width, height, origin, ldir, mat, map),
{
    // output resolution
    let res = resolution::<V>(width, height);
    let positions = V::positions(width, height);
    let mut out: Vec<<V as Comp<3>>::Vec> = Vec::new();
    let mut i: usize = 0;
    while i < positions.len()
        invariant
            i <= positions.len(),
            positions@ == V::positions_spec(width, height),
            res == resolution_spec::<V>(width, height),
            out.len() == i,
            forall|k: int|
                0 <= k < i ==> #[trigger] out[k] == shade_spec::<V, S>(
                    positions[k],
                    res,
                    origin,
                    ldir,
                    mat,
                    map,
                ),
        decreases positions.len() - i,
    {
        out.push(shade::<V, S>(positions[i], res, origin, ldir, mat, map));
        i += 1;
    }
    out
}

/// Two images of the same scene, seen and lit the same way, are equal
/// element for element: rendering again gives the same image.
pub proof fn render_is_repeatable<V, S>(
    first: Seq<<V as Comp<3>>::Vec>,
    second: Seq<<V as Comp<3>>::Vec>,
    width: u32,
    height: u32,
    origin: <V as Comp<3>>::Vec,
    ldir: <V as Comp<3>>::Vec,
    mat: <V as Comp<3>>::Vec,
    map: &S,
) where
    V: Comp<2> + Comp<3> + Traceable + Positions,
    <V as Comp<2>>::Vec: Vector2D<V>,
    <V as Comp<3>>::Vec: Vector3D<V>,
    S: Sdf<V>,

    requires
        is_render::<V, S>(first, width, height, origin, ldir, mat, map),
        is_render::<V, S>(second, width, height, origin, ldir, mat, map),
    ensures
        first == second,
{
    assert(first =~= second);
}

/// The screen positions of the pixels, for a component type.
pub trait Positions: Comp<2> {
    spec fn positions_spec(width: u32, height: u32) -> Seq<<Self as Comp<2>>::Vec>;

    /// Generates the screen positions of all pixels of a `width` by `height`
    /// image, row by row.
    fn positions(width: u32, height: u32) -> (r: Vec<<Self as Comp<2>>::Vec>)
        requires
            width * height <= u32::MAX,
        ensures
            r@ == Self::positions_spec(width, height),
    ;
}

/// The position of pixel `i` of an image `width` pixels wide: its column and
/// its row.
pub open spec fn pixel_spec<T: Scalar>(i: int, width: u32) -> Vec2<T> {
    Vec2 {
        x: T::from_ratio_spec((i % width as int) as i64, 1),
        y: T::from_ratio_spec((i / width as int) as i64, 1),
    }
}

impl<T: Scalar> Positions for T {
    /// One position for each pixel.
    open spec fn positions_spec(width: u32, height: u32) -> Seq<Vec2<T>> {
        Seq::new((width * height) as nat, |i: int| pixel_spec::<T>(i, width))
    }

    fn positions(width: u32, height: u32) -> (r: Vec<Vec2<T>>) {
        let pixels: u32 = width * height;
        let mut out: Vec<Vec2<T>> = Vec::new();
        let mut i: u32 = 0;
        while i < pixels
            invariant
                i <= pixels,
                pixels == width * height,
                out.len() == i,
                forall|k: int| 0 <= k < i ==> #[trigger] out[k] == pixel_spec::<T>(k, width),
            decreases pixels - i,
        {
            assert(width > 0) by (nonlinear_arith)
                requires
                    i < width * height,
            ;
            let x = T::from_ratio((i % width) as i64, 1);
            let y = T::from_ratio((i / width) as i64, 1);
            out.push(vec2(x, y));
            i += 1;
        }
        assert(out@ =~= Self::positions_spec(width, height));
        out
    }
}

/// The offsets of the eight lanes of a group from its first pixel,
/// `0, 1, ..., 7`.
pub open spec fn increments_spec<T: Scalar>() -> Lanes<T> {
    Lanes {
        lanes: [
            T::from_ratio_spec(0, 1),
            T::from_ratio_spec(1, 1),
            T::from_ratio_spec(2, 1),
            T::from_ratio_spec(3, 1),
            T::from_ratio_spec(4, 1),
            T::from_ratio_spec(5, 1),
            T::from_ratio_spec(6, 1),
            T::from_ratio_spec(7, 1),
        ],
    }
}

/// The offsets of the eight lanes of a group from its first pixel.
pub fn increments<T: Scalar>() -> (r: Lanes<T>)
    ensures
        r == increments_spec::<T>(),
        forall|k: int| 0 <= k < 8 ==> #[trigger] r.lane(k) == T::from_ratio_spec(k as i64, 1),
{
    Lanes {
        lanes: [
            T::from_ratio(0, 1),
            T::from_ratio(1, 1),
            T::from_ratio(2, 1),
            T::from_ratio(3, 1),
            T::from_ratio(4, 1),
            T::from_ratio(5, 1),
            T::from_ratio(6, 1),
            T::from_ratio(7, 1),
        ],
    }
}

/// The positions of the eight pixels that start at pixel `i`: the column of
/// pixel `i` plus the lane's offset, and the row of pixel `i` in every lane.
pub open spec fn group_spec<T: Scalar>(i: int, width: u32) -> Vec2x8<T> {
    let first = pixel_spec::<T>(i, width);
    Vec2x8 {
        x: Lanes::splat_spec(first.x).add_spec(increments_spec::<T>()),
        y: Lanes::splat_spec(first.y),
    }
}

/// The number of groups of eight that cover `pixels` pixels.
pub open spec fn groups_spec(pixels: int) -> int {
    (pixels + 7) / 8
}

impl<T: Scalar> Positions for Lanes<T> {
    /// One position for each group of eight consecutive pixels.
    open spec fn positions_spec(width: u32, height: u32) -> Seq<Vec2x8<T>> {
        Seq::new(
            groups_spec(width * height) as nat,
            |g: int| group_spec::<T>(8 * g, width),
        )
    }

    fn positions(width: u32, height: u32) -> (r: Vec<Vec2x8<T>>) {
        let pixels: u32 = width * height;
        let groups: u32 = pixels / 8 + if pixels % 8 == 0 {
            0
        } else {
            1
        };
        let inc = increments::<T>();
        let mut out: Vec<Vec2x8<T>> = Vec::new();
        let mut g: u32 = 0;
        while g < groups
            invariant
                g <= groups,
                groups == groups_spec(pixels as int),
                pixels == width * height,
                inc == increments_spec::<T>(),
                out.len() == g,
                forall|k: int| 0 <= k < g ==> #[trigger] out[k] == group_spec::<T>(8 * k, width),
            decreases groups - g,
        {
            // step by the number of lanes
            let i: u32 = 8 * g;
            assert(width > 0) by (nonlinear_arith)
                requires
                    i < width * height,
            ;
            // all Y values are the same, the X values are eight in a row
            let x = Lanes::splat(T::from_ratio((i % width) as i64, 1)).add(inc);
            let y = Lanes::splat(T::from_ratio((i / width) as i64, 1));
            out.push(vec2(x, y));
            g += 1;
        }
        assert(out@ =~= Self::positions_spec(width, height));
        out
    }
}

/// In an image whose width is a multiple of eight, lane `k` of group `g` is
/// pixel `8 * g + k`: it lies in the row of the group's first pixel, `k`
/// columns further.
pub proof fn lane_is_pixel<T: Scalar>(width: u32, height: u32, g: int, k: int)
    requires
        width % 8 == 0,
        0 <= g < groups_spec(width * height),
        0 <= k < 8,
    ensures
        8 * g + k < width * height,
        (8 * g + k) / (width as int) == (8 * g) / (width as int),
        (8 * g + k) % (width as int) == (8 * g) % (width as int) + k,
        <Lanes<T> as Positions>::positions_spec(width, height)[g].lane(k).y == pixel_spec::<T>(
            8 * g + k,
            width,
        ).y,
        <Lanes<T> as Positions>::positions_spec(width, height)[g].lane(k).x == pixel_spec::<T>(
            8 * g,
            width,
        ).x.add_spec(T::from_ratio_spec(k as i64, 1)),
{
    let w = width as int;
    let q = w / 8;
    assert(w == 8 * q);
    assert(w * height == 8 * (q * height)) by (nonlinear_arith)
        requires
            w == 8 * q,
    ;
    assert(w > 0) by (nonlinear_arith)
        requires
            0 <= g < (w * height + 7) / 8,
            w >= 0,
            height >= 0,
    ;
    let row = (8 * g) / w;
    let col = (8 * g) % w;
    assert(8 * g == w * row + col && 0 <= col < w) by {
        vstd::arithmetic::div_mod::lemma_fundamental_div_mod(8 * g, w);
    }
    assert(col % 8 == 0) by (nonlinear_arith)
        requires
            8 * g == w * row + col,
            w == 8 * q,
    {
        assert(col == 8 * (g - q * row));
    }
    assert(col + k < w);
    assert(8 * g + k == w * row + (col + k));
    vstd::arithmetic::div_mod::lemma_fundamental_div_mod_converse(8 * g + k, w, row, col + k);
}

/// Whether `m` is a power of two.
pub open spec fn is_power_of_two(m: u32) -> bool {
    m > 0 && m & ((m - 1) as u32) == 0
}

/// Rounds `x` up to the nearest multiple of `M`, where `M` is a power of
/// two: the sum `x + M - 1` with the bits below `M` cleared.
pub fn round_to_nearest<const M: u32>(x: u32) -> (r: u32)
    requires
        M >= 1,
        x + M - 1 <= u32::MAX,
    ensures
        r == (x + M - 1) as u32 & (u32::MAX - M + 1) as u32,
        is_power_of_two(M) ==> r % M == 0 && x <= r < x + M,
{
    let m: u32 = M;
    let top: u32 = x + (m - 1);
    let mask: u32 = u32::MAX - m + 1;
    assert(m > 0 && m & ((m - 1) as u32) == 0 ==> (top & mask) % m == 0 && x <= (top & mask) && (top
        & mask) - x < m) by (bit_vector)
        requires
            x <= u32::MAX - (m - 1),
            top == x + (m - 1),
            mask == u32::MAX - m + 1,
    ;
    top & mask
}

} // verus!
