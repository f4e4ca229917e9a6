//! Image assembly: from colours to the flat byte sequence of an image, three
//! bytes (red, green, blue) per pixel, row by row.

use vstd::prelude::*;

use crate::vector::Ops;
use crate::vector::FromRatio;
use crate::vector::Scalar;
use crate::vector::Vec3;
use crate::vector::Vec3x8;

verus! {

/// The byte that stands for the channel value `x`: `x * 255`, truncated.
pub open spec fn conv_spec<T: Scalar>(x: T) -> u8 {
    x.mul_spec(T::from_ratio_spec(255, 1)).to_byte_spec()
}

/// Converts a channel value to a byte.
///
/// Values from 0 to 1 are meant; what a value outside that range gives is
/// whatever the truncation of the component type gives.
pub fn conv<T: Scalar>(x: T) -> (r: u8)
    ensures
        r == conv_spec(x),
{
    x.mul(T::from_ratio(255, 1)).to_byte()
}

/// The entries of all arrays of `v`, one array after the other.
pub open spec fn flatten_spec<T, const N: usize>(v: Seq<[T; N]>) -> Seq<T> {
    Seq::new(v.len() * N as nat, |k: int| v[k / N as int][k % N as int])
}

/// Flattens a vector of arrays of `T` into a vector of `T`.
///
/// The arrays must not be empty and `T` must take up space.
pub fn flatten<T: Copy, const N: usize>(v: Vec<[T; N]>) -> (r: Vec<T>)
    requires
        N > 0,
        vstd::layout::size_of::<T>() != 0,
    ensures
        r@ == flatten_spec(v@),
{
    let mut out: Vec<T> = Vec::new();
    let mut i: usize = 0;
    while i < v.len()
        invariant
            N > 0,
            i <= v.len(),
            out.len() == i * N,
            forall|k: int| 0 <= k < out.len() ==> #[trigger] out[k] == v[k / N as int][k % N as int],
        decreases v.len() - i,
    {
        let mut j: usize = 0;
        while j < N
            invariant
                N > 0,
                i < v.len(),
                j <= N,
                out.len() == i * N + j,
                forall|k: int|
                    0 <= k < out.len() ==> #[trigger] out[k] == v[k / N as int][k % N as int],
            decreases N - j,
        {
            proof {
                vstd::arithmetic::div_mod::lemma_fundamental_div_mod_converse(
                    i * N + j,
                    N as int,
                    i as int,
                    j as int,
                );
            }
            out.push(v[i][j]);
            j += 1;
        }
        assert((i + 1) * N == i * N + N) by (nonlinear_arith);
        i += 1;
    }
    assert(out@ =~= flatten_spec(v@));
    out
}

/// A sequence of colours that can be turned into the bytes of an image.
pub trait ImageBytes {
    spec fn bytes_spec(self) -> Seq<u8>;

    fn bytes(self) -> (r: Vec<u8>)
        ensures
            r@ == self.bytes_spec(),
    ;
}

/// Channel `c` of a colour: 0 is red (`x`), 1 is green (`y`), 2 is blue (`z`).
pub open spec fn channel<T: Scalar>(col: Vec3<T>, c: int) -> T {
    if c == 0 {
        col.x
    } else if c == 1 {
        col.y
    } else {
        col.z
    }
}

/// The three bytes of one pixel.
pub open spec fn triple_spec<T: Scalar>(col: Vec3<T>) -> [u8; 3] {
    [conv_spec(col.x), conv_spec(col.y), conv_spec(col.z)]
}

/// The twenty-four bytes of a group of eight pixels: the three bytes of the
/// pixel in lane 0, then those of lane 1, and so on.
pub open spec fn group_bytes_spec<T: Scalar>(col: Vec3x8<T>) -> Seq<u8> {
    Seq::new(24, |k: int| conv_spec(channel(col.lane(k / 3), k % 3)))
}

impl<T: Scalar> ImageBytes for Vec<Vec3<T>> {
    /// Byte `3 * i + c` is channel `c` of pixel `i`.
    open spec fn bytes_spec(self) -> Seq<u8> {
        Seq::new(3 * self@.len(), |k: int| conv_spec(channel(self@[k / 3], k % 3)))
    }

    fn bytes(self) -> (r: Vec<u8>) {
        broadcast use vstd::layout::layout_of_primitives;

        let mut triples: Vec<[u8; 3]> = Vec::new();
        let mut i: usize = 0;
        while i < self.len()
            invariant
                i <= self.len(),
                triples.len() == i,
                forall|k: int| 0 <= k < i ==> #[trigger] triples[k] == triple_spec(self[k]),
            decreases self.len() - i,
        {
            let col = self[i];
            triples.push([conv(col.x), conv(col.y), conv(col.z)]);
            i += 1;
        }
        let out = flatten(triples);
        assert(out@ =~= self.bytes_spec());
        out
    }
}

impl<T: Scalar> ImageBytes for Vec<Vec3x8<T>> {
    /// Byte `24 * g + 3 * i + c` is channel `c` of the pixel in lane `i` of
    /// group `g`: the lanes are taken apart into eight pixels in a row.
    open spec fn bytes_spec(self) -> Seq<u8> {
        Seq::new(
            24 * self@.len(),
            |k: int| conv_spec(channel(self@[k / 24].lane((k % 24) / 3), k % 3)),
        )
    }

    fn bytes(self) -> (r: Vec<u8>) {
        broadcast use vstd::layout::layout_of_primitives;

        let mut groups: Vec<[u8; 24]> = Vec::new();
        let mut g: usize = 0;
        while g < self.len()
            invariant
                g <= self.len(),
                groups.len() == g,
                forall|k: int| 0 <= k < g ==> (#[trigger] groups[k])@ == group_bytes_spec(self[k]),
            decreases self.len() - g,
        {
            let col = self[g];
            // a group has eight lanes, so 24 values are produced
            let mut arr = [0u8;24];
            let mut i: usize = 0;
            while i < 8
                invariant
                    i <= 8,
                    forall|k: int|
                        0 <= k < 3 * i ==> #[trigger] arr[k] == conv_spec(
                            channel(col.lane(k / 3), k % 3),
                        ),
                decreases 8 - i,
            {
                arr[3 * i] = conv(col.x.get(i));
                arr[3 * i + 1] = conv(col.y.get(i));
                arr[3 * i + 2] = conv(col.z.get(i));
                i += 1;
            }
            assert(arr@ =~= group_bytes_spec(col));
            groups.push(arr);
            g += 1;
        }
        let out = flatten(groups);
        assert(out@ =~= self.bytes_spec()) by {
            assert forall|k: int| 0 <= k < out@.len() implies out@[k] == self.bytes_spec()[k] by {
                assert(groups[k / 24]@ == group_bytes_spec(self[k / 24]));
                assert(groups[k / 24][k % 24] == groups[k / 24]@[k % 24]);
            }
        }
        out
    }
}

} // verus!
