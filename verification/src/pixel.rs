//! Pure conversion between the packed 4:2:2 luma-chroma format ("YUYV") and
//! packed four-channel color buffers.
//!
//! Each four-byte macropixel `[Y0, U, Y1, V]` holds two luma samples and one
//! shared chroma pair; it expands to two four-channel pixels whose first
//! three channels are the trichromatic image of `(Y0, U, V)` and `(Y1, U, V)`
//! under the standard studio-swing conversion matrix, rounded and clamped to
//! `[0, 255]`. The fourth (alpha) channel is never written. Unsupported
//! format codes make both directions a deliberate no-op, not an error.

use vstd::arithmetic::div_mod::{
    lemma_div_is_ordered, lemma_fundamental_div_mod, lemma_fundamental_div_mod_converse,
    lemma_hoist_over_denominator,
};
use vstd::prelude::*;

verus! {

/// The four-byte code of the one fully supported pixel format, "YUYV".
pub open spec fn yuyv_code() -> Seq<u8> {
    seq![0x59u8, 0x55u8, 0x59u8, 0x56u8]
}

/// True when a format tag selects the supported packed 4:2:2 format.
pub fn fourcc_is_yuyv(fourcc: &[u8; 4]) -> (r: bool)
    ensures
        r == (fourcc@ == yuyv_code()),
{
    let r = fourcc[0] == 0x59 && fourcc[1] == 0x55 && fourcc[2] == 0x59 && fourcc[3] == 0x56;
    proof {
        if r {
            assert(fourcc@ =~= yuyv_code());
        }
        if fourcc@ == yuyv_code() {
            assert(fourcc@[0] == 0x59u8 && fourcc@[1] == 0x55u8 && fourcc@[2] == 0x59u8
                && fourcc@[3] == 0x56u8);
        }
    }
    r
}

pub open spec fn clamp_byte(x: int) -> int {
    if x < 0 {
        0
    } else if x > 255 {
        255
    } else {
        x
    }
}

/// Red channel of a luma-chroma sample, before rounding into `[0, 255]`.
pub open spec fn red_unclamped(y: u8, v: u8) -> int {
    (298 * (y - 16) + 409 * (v - 128) + 128) / 256
}

/// Green channel of a luma-chroma sample, before rounding into `[0, 255]`.
pub open spec fn green_unclamped(y: u8, u: u8, v: u8) -> int {
    (298 * (y - 16) - 100 * (u - 128) - 208 * (v - 128) + 128) / 256
}

/// Blue channel of a luma-chroma sample, before rounding into `[0, 255]`.
pub open spec fn blue_unclamped(y: u8, u: u8) -> int {
    (298 * (y - 16) + 516 * (u - 128) + 128) / 256
}

/// Red channel of the trichromatic image of a luma-chroma sample.
pub open spec fn rgb_red(y: u8, v: u8) -> u8 {
    clamp_byte(red_unclamped(y, v)) as u8
}

/// Green channel of the trichromatic image of a luma-chroma sample.
pub open spec fn rgb_green(y: u8, u: u8, v: u8) -> u8 {
    clamp_byte(green_unclamped(y, u, v)) as u8
}

/// Blue channel of the trichromatic image of a luma-chroma sample.
pub open spec fn rgb_blue(y: u8, u: u8) -> u8 {
    clamp_byte(blue_unclamped(y, u)) as u8
}

/// Luma of a trichromatic pixel. The result always lies in `[16, 235]`,
/// so no clamping is needed on this direction.
pub open spec fn yuv_luma(r: u8, g: u8, b: u8) -> u8 {
    ((66 * r + 129 * g + 25 * b + 128) / 256 + 16) as u8
}

/// Blue-difference chroma of a trichromatic pixel; always in `[16, 240]`.
pub open spec fn yuv_cb(r: u8, g: u8, b: u8) -> u8 {
    ((-38 * r - 74 * g + 112 * b + 128) / 256 + 128) as u8
}

/// Red-difference chroma of a trichromatic pixel; always in `[16, 240]`.
pub open spec fn yuv_cr(r: u8, g: u8, b: u8) -> u8 {
    ((112 * r - 94 * g - 18 * b + 128) / 256 + 128) as u8
}

/// Clamps `q - bias` into a byte, where `q` and `bias` are non-negative.
fn clamp_shifted(q: u32, bias: u32) -> (c: u8)
    ensures
        c as int == clamp_byte(q - bias),
{
    if q <= bias {
        0
    } else if q - bias >= 255 {
        255
    } else {
        (q - bias) as u8
    }
}

/// Expands one luma-chroma sample to its trichromatic channels.
///
/// The computation is carried out in non-negative integers by shifting each
/// channel up by a multiple of 256 before the division, which keeps the
/// unsigned arithmetic free of underflow while computing exactly the signed
/// rounded matrix product of the specification functions.
pub fn yuv_to_rgb(y: u8, u: u8, v: u8) -> (rgb: (u8, u8, u8))
    ensures
        rgb.0 == rgb_red(y, v),
        rgb.1 == rgb_green(y, u, v),
        rgb.2 == rgb_blue(y, u),
{
    let yw = y as u32;
    let uw = u as u32;
    let vw = v as u32;
    let tr: u32 = 298 * yw + 409 * vw + 96;
    let tg: u32 = 298 * yw + 78560 - 100 * uw - 208 * vw;
    let tb: u32 = 298 * yw + 516 * uw + 224;
    let r = clamp_shifted(tr / 256, 223);
    let g = clamp_shifted(tg / 256, 171);
    let b = clamp_shifted(tb / 256, 277);
    proof {
        let xr: int = 298 * (y - 16) + 409 * (v - 128) + 128;
        assert(tr as int == xr + 223 * 256);
        lemma_hoist_over_denominator(xr, 223, 256);
        let xg: int = 298 * (y - 16) - 100 * (u - 128) - 208 * (v - 128) + 128;
        assert(tg as int == xg + 171 * 256);
        lemma_hoist_over_denominator(xg, 171, 256);
        let xb: int = 298 * (y - 16) + 516 * (u - 128) + 128;
        assert(tb as int == xb + 277 * 256);
        lemma_hoist_over_denominator(xb, 277, 256);
    }
    (r, g, b)
}

/// Reduces one trichromatic pixel to its luma-chroma channels.
pub fn rgb_to_yuv(r: u8, g: u8, b: u8) -> (yuv: (u8, u8, u8))
    ensures
        yuv.0 == yuv_luma(r, g, b),
        yuv.1 == yuv_cb(r, g, b),
        yuv.2 == yuv_cr(r, g, b),
{
    let rw = r as u32;
    let gw = g as u32;
    let bw = b as u32;
    let ty: u32 = 66 * rw + 129 * gw + 25 * bw + 128;
    let tu: u32 = 112 * bw + 28800 - 38 * rw - 74 * gw;
    let tv: u32 = 112 * rw + 28800 - 94 * gw - 18 * bw;
    proof {
        lemma_div_is_ordered(ty as int, 56228, 256);
        let xu: int = -38 * r - 74 * g + 112 * b + 128;
        assert(tu as int == xu + 112 * 256);
        lemma_hoist_over_denominator(xu, 112, 256);
        lemma_div_is_ordered(tu as int, 57360, 256);
        let xv: int = 112 * r - 94 * g - 18 * b + 128;
        assert(tv as int == xv + 112 * 256);
        lemma_hoist_over_denominator(xv, 112, 256);
        lemma_div_is_ordered(tv as int, 57360, 256);
    }
    let yy = (ty / 256 + 16) as u8;
    let uu = (tu / 256 + 16) as u8;
    let vv = (tv / 256 + 16) as u8;
    (yy, uu, vv)
}

/// How many four-channel pixels a decode produces: every full macropixel of
/// the source yields two pixels, and the output cursor, which advances four
/// bytes per pixel, must not reach `max` — a partial final macropixel is
/// silently dropped.
pub open spec fn decoded_pixel_count(src_len: int, max: int) -> int {
    let from_src = 2 * (src_len / 4);
    let from_dst = max / 4;
    if from_src <= from_dst {
        from_src
    } else {
        from_dst
    }
}

/// Channel `ch` (red, green or blue) of decoded pixel `i`: pixel `i` takes
/// its luma from byte 0 or 2 of macropixel `i / 2` and shares that
/// macropixel's chroma pair.
pub open spec fn decoded_channel(src: Seq<u8>, i: int, ch: int) -> u8 {
    let m = i / 2;
    let y = if i % 2 == 0 {
        src[4 * m]
    } else {
        src[4 * m + 2]
    };
    let u = src[4 * m + 1];
    let v = src[4 * m + 3];
    if ch == 0 {
        rgb_red(y, v)
    } else if ch == 1 {
        rgb_green(y, u, v)
    } else {
        rgb_blue(y, u)
    }
}

/// The destination after decoding `src` into it with write bound `max`:
/// pixel `i` occupies bytes `4i .. 4i + 3`, its alpha byte `4i + 3` and
/// everything at or past the bound keep their prior value.
pub open spec fn decode_yuyv(src: Seq<u8>, dst0: Seq<u8>, max: int) -> Seq<u8> {
    Seq::new(
        dst0.len(),
        |j: int|
            if j / 4 < decoded_pixel_count(src.len() as int, max) && j % 4 != 3 {
                decoded_channel(src, j / 4, j % 4)
            } else {
                dst0[j]
            },
    )
}

/// The destination after a decode under format tag `fourcc`: any tag other
/// than "YUYV" leaves the buffer untouched.
pub open spec fn decode_spec(fourcc: Seq<u8>, src: Seq<u8>, dst0: Seq<u8>, max: int) -> Seq<u8> {
    if fourcc == yuyv_code() {
        decode_yuyv(src, dst0, max)
    } else {
        dst0
    }
}

/// Expands a packed 4:2:2 source into the four-channel destination, writing
/// at most `max_dst_len` bytes and leaving every alpha byte untouched.
pub fn decode(fourcc: &[u8; 4], src: &Vec<u8>, dst: &mut Vec<u8>, max_dst_len: usize)
    requires
        fourcc@ == yuyv_code() ==> max_dst_len <= old(dst)@.len(),
    ensures
        final(dst)@ == decode_spec(fourcc@, src@, old(dst)@, max_dst_len as int),
{
    if !fourcc_is_yuyv(fourcc) {
        return ;
    }
    let ghost dst0: Seq<u8> = dst@;
    let from_src: usize = 2 * (src.len() / 4);
    let from_dst: usize = max_dst_len / 4;
    let n: usize = if from_src <= from_dst {
        from_src
    } else {
        from_dst
    };
    proof {
        assert(n == decoded_pixel_count(src@.len() as int, max_dst_len as int));
        lemma_fundamental_div_mod(src@.len() as int, 4);
        lemma_fundamental_div_mod(max_dst_len as int, 4);
    }
    let mut i: usize = 0;
    while i < n
        invariant
            n == decoded_pixel_count(src@.len() as int, max_dst_len as int),
            2 * n <= src@.len(),
            4 * n <= max_dst_len <= dst@.len(),
            i <= n,
            dst@.len() == dst0.len(),
            forall|j: int|
                0 <= j < dst@.len() ==> dst@[j] == (if j / 4 < i && j % 4 != 3 {
                    decoded_channel(src@, j / 4, j % 4)
                } else {
                    dst0[j]
                }),
        decreases n - i,
    {
        let m = i / 2;
        proof {
            lemma_fundamental_div_mod(i as int, 2);
            assert(4 * m + 3 < src@.len());
        }
        let y = if i % 2 == 0 {
            src[4 * m]
        } else {
            src[4 * m + 2]
        };
        let u = src[4 * m + 1];
        let v = src[4 * m + 3];
        let (r, g, b) = yuv_to_rgb(y, u, v);
        dst.set(4 * i, r);
        dst.set(4 * i + 1, g);
        dst.set(4 * i + 2, b);
        proof {
            lemma_fundamental_div_mod_converse(4 * i as int, 4, i as int, 0);
            lemma_fundamental_div_mod_converse(4 * i + 1, 4, i as int, 1);
            lemma_fundamental_div_mod_converse(4 * i + 2, 4, i as int, 2);
            assert forall|j: int| 0 <= j < dst@.len() implies dst@[j] == (if j / 4 < i + 1
                && j % 4 != 3 {
                decoded_channel(src@, j / 4, j % 4)
            } else {
                dst0[j]
            }) by {
                lemma_fundamental_div_mod(j, 4);
            }
        }
        i = i + 1;
    }
    proof {
        assert(dst@ =~= decode_yuyv(src@, dst0, max_dst_len as int));
    }
}

/// Per-buffer metadata reported alongside an encoded stream buffer.
pub struct StreamMeta {
    /// Field parity; zero marks a progressive (non-interlaced) frame.
    pub field: u32,
    /// How many bytes of the stream buffer carry frame data.
    pub bytesused: usize,
}

/// Byte `j` of the packed stream: macropixel `j / 4` is built from the two
/// four-channel pixels at source bytes `8k .. 8k + 3` and `8k + 4 .. 8k + 7`
/// (the alpha bytes are ignored), as luma of the first pixel, blue-difference
/// chroma of the first, luma of the second, red-difference chroma of the
/// second.
pub open spec fn encoded_byte(src: Seq<u8>, j: int) -> u8 {
    let k = j / 4;
    let r0 = src[8 * k];
    let g0 = src[8 * k + 1];
    let b0 = src[8 * k + 2];
    let r1 = src[8 * k + 4];
    let g1 = src[8 * k + 5];
    let b1 = src[8 * k + 6];
    if j % 4 == 0 {
        yuv_luma(r0, g0, b0)
    } else if j % 4 == 1 {
        yuv_cb(r0, g0, b0)
    } else if j % 4 == 2 {
        yuv_luma(r1, g1, b1)
    } else {
        yuv_cr(r1, g1, b1)
    }
}

/// The stream buffer after encoding `src` into it: every full pair of source
/// pixels packs into four bytes, a trailing partial pair is dropped, and
/// bytes past the packed region keep their prior value.
pub open spec fn encode_yuyv(src: Seq<u8>, dst0: Seq<u8>) -> Seq<u8> {
    Seq::new(
        dst0.len(),
        |j: int|
            if j < 4 * (src.len() / 8) {
                encoded_byte(src, j)
            } else {
                dst0[j]
            },
    )
}

/// The stream buffer after an encode under format tag `fourcc`: any tag
/// other than "YUYV" leaves the buffer untouched.
pub open spec fn encode_spec(fourcc: Seq<u8>, src: Seq<u8>, dst0: Seq<u8>) -> Seq<u8> {
    if fourcc == yuyv_code() {
        encode_yuyv(src, dst0)
    } else {
        dst0
    }
}

/// Packs a four-channel source into the 4:2:2 stream buffer. On the
/// supported format it reports the buffer's metadata: progressive field
/// parity and a used-byte count of three quarters of the unpacked size.
/// On any other format both the buffer and the metadata are left alone.
#[verifier::rlimit(50)]
pub fn encode(fourcc: &[u8; 4], src: &Vec<u8>, dst: &mut Vec<u8>) -> (meta: Option<StreamMeta>)
    requires
        fourcc@ == yuyv_code() ==> 4 * (src@.len() / 8) <= old(dst)@.len(),
    ensures
        final(dst)@ == encode_spec(fourcc@, src@, old(dst)@),
        (meta is Some) == (fourcc@ == yuyv_code()),
        meta matches Some(m) ==> m.field == 0 && m.bytesused == src@.len() * 3 / 4,
{
    if !fourcc_is_yuyv(fourcc) {
        return None;
    }
    let ghost dst0: Seq<u8> = dst@;
    let n: usize = src.len() / 8;
    proof {
        lemma_fundamental_div_mod(src@.len() as int, 8);
    }
    let mut k: usize = 0;
    while k < n
        invariant
            n == src@.len() / 8,
            8 * n <= src@.len(),
            8 * n <= usize::MAX as int,
            4 * n <= dst@.len(),
            k <= n,
            dst@.len() == dst0.len(),
            forall|j: int|
                0 <= j < dst@.len() ==> dst@[j] == (if j < 4 * k {
                    encoded_byte(src@, j)
                } else {
                    dst0[j]
                }),
        decreases n - k,
    {
        let (y0, u0, _v0) = rgb_to_yuv(src[8 * k], src[8 * k + 1], src[8 * k + 2]);
        let (y1, _u1, v1) = rgb_to_yuv(src[8 * k + 4], src[8 * k + 5], src[8 * k + 6]);
        dst.set(4 * k, y0);
        dst.set(4 * k + 1, u0);
        dst.set(4 * k + 2, y1);
        dst.set(4 * k + 3, v1);
        proof {
            assert forall|j: int| 0 <= j < dst@.len() implies dst@[j] == (if j < 4 * (k + 1) {
                encoded_byte(src@, j)
            } else {
                dst0[j]
            }) by {
                if 4 * (k as int) <= j && j < 4 * (k as int) + 4 {
                    lemma_fundamental_div_mod_converse(j, 4, k as int, j - 4 * (k as int));
                }
            }
        }
        k = k + 1;
    }
    let q: usize = src.len() / 4;
    let rem: usize = src.len() % 4;
    let used: usize = 3 * q + (3 * rem) / 4;
    proof {
        assert(dst@ =~= encode_yuyv(src@, dst0));
        lemma_fundamental_div_mod(src@.len() as int, 4);
        lemma_hoist_over_denominator(3 * rem as int, 3 * q as int, 4);
        assert(used == src@.len() * 3 / 4);
    }
    Some(StreamMeta { field: 0, bytesused: used })
}

/// True when a luma-chroma sample's trichromatic image needs no clamping:
/// each channel of the rounded matrix product already lies in `[0, 255]`.
pub open spec fn in_gamut(y: u8, u: u8, v: u8) -> bool {
    &&& 0 <= red_unclamped(y, v) <= 255
    &&& 0 <= green_unclamped(y, u, v) <= 255
    &&& 0 <= blue_unclamped(y, u) <= 255
}

/// Round-trip law for one sample: expanding an in-gamut luma-chroma sample
/// to trichromatic channels and reducing it back moves each component by at
/// most one step of 255. Out-of-gamut samples clamp and can move much
/// further, so they are excluded.
pub proof fn lemma_round_trip_pixel(y: u8, u: u8, v: u8)
    requires
        in_gamut(y, u, v),
    ensures
        -1 <= yuv_luma(rgb_red(y, v), rgb_green(y, u, v), rgb_blue(y, u)) - y <= 1,
        -1 <= yuv_cb(rgb_red(y, v), rgb_green(y, u, v), rgb_blue(y, u)) - u <= 1,
        -1 <= yuv_cr(rgb_red(y, v), rgb_green(y, u, v), rgb_blue(y, u)) - v <= 1,
{
    let c: int = y - 16;
    let d: int = u - 128;
    let e: int = v - 128;
    let nr: int = 298 * c + 409 * e + 128;
    let ng: int = 298 * c - 100 * d - 208 * e + 128;
    let nb: int = 298 * c + 516 * d + 128;
    let r: int = nr / 256;
    let g: int = ng / 256;
    let b: int = nb / 256;
    lemma_fundamental_div_mod(nr, 256);
    lemma_fundamental_div_mod(ng, 256);
    lemma_fundamental_div_mod(nb, 256);
    let pr: int = nr % 256;
    let pg: int = ng % 256;
    let pb: int = nb % 256;
    assert(256 * r == nr - pr);
    assert(256 * g == ng - pg);
    assert(256 * b == nb - pb);
    // In gamut, clamping is the identity, so the byte channels are r, g, b.
    assert(rgb_red(y, v) as int == r);
    assert(rgb_green(y, u, v) as int == g);
    assert(rgb_blue(y, u) as int == b);
    let my: int = 66 * r + 129 * g + 25 * b + 128;
    let mu: int = -38 * r - 74 * g + 112 * b + 128;
    let mv: int = 112 * r - 94 * g - 18 * b + 128;
    lemma_fundamental_div_mod(my, 256);
    lemma_fundamental_div_mod(mu, 256);
    lemma_fundamental_div_mod(mv, 256);
    let qy: int = my / 256;
    let qu: int = mu / 256;
    let qv: int = mv / 256;
    // Composing the two matrices gives almost exactly 65536 times the
    // identity; the leftovers below are small enough that each final
    // quotient lands within one step of the original component.
    assert(256 * my == 65536 * c + 24 * c + 162 * e + 60928 - (66 * pr + 129 * pg + 25 * pb));
    assert(256 * mu == 65536 * d - 344 * d - 150 * e + 32768 + 38 * pr + 74 * pg - 112 * pb);
    assert(256 * mv == 65536 * e + 112 * d - 176 * e + 32768 - 112 * pr + 94 * pg + 18 * pb);
    assert(-1 <= qy - c <= 1);
    assert(-1 <= qu - d <= 1);
    assert(-1 <= qv - e <= 1);
    assert(yuv_luma(rgb_red(y, v), rgb_green(y, u, v), rgb_blue(y, u)) as int == qy + 16);
    assert(yuv_cb(rgb_red(y, v), rgb_green(y, u, v), rgb_blue(y, u)) as int == qu + 128);
    assert(yuv_cr(rgb_red(y, v), rgb_green(y, u, v), rgb_blue(y, u)) as int == qv + 128);
}

/// Round-trip law for one macropixel `[Y0, U, Y1, V]`: decoding it to two
/// four-channel pixels and encoding that pair back yields a macropixel each
/// of whose bytes is within one step of the original, provided both samples
/// are in gamut. The packed chroma pair comes back as the blue-difference
/// of the first pixel and the red-difference of the second, exactly as the
/// encoder builds it.
pub proof fn lemma_round_trip_macropixel(y0: u8, u: u8, y1: u8, v: u8)
    requires
        in_gamut(y0, u, v),
        in_gamut(y1, u, v),
    ensures
        -1 <= yuv_luma(rgb_red(y0, v), rgb_green(y0, u, v), rgb_blue(y0, u)) - y0 <= 1,
        -1 <= yuv_cb(rgb_red(y0, v), rgb_green(y0, u, v), rgb_blue(y0, u)) - u <= 1,
        -1 <= yuv_luma(rgb_red(y1, v), rgb_green(y1, u, v), rgb_blue(y1, u)) - y1 <= 1,
        -1 <= yuv_cr(rgb_red(y1, v), rgb_green(y1, u, v), rgb_blue(y1, u)) - v <= 1,
{
    lemma_round_trip_pixel(y0, u, v);
    lemma_round_trip_pixel(y1, u, v);
}

/// Round-trip law over whole buffers: take any source of whole in-gamut
/// macropixels, decode all of it into a four-channel buffer, and encode that
/// buffer back into a packed stream. Every byte of the stream is then within
/// one step of the corresponding source byte. The intermediate buffer's
/// prior contents (including its alpha bytes) do not matter.
pub proof fn lemma_round_trip_buffer(src: Seq<u8>, dst0: Seq<u8>, out0: Seq<u8>)
    requires
        src.len() % 4 == 0,
        dst0.len() == 2 * src.len(),
        out0.len() == src.len(),
        forall|m: int|
            0 <= m < src.len() / 4 ==> #[trigger] in_gamut(src[4 * m], src[4 * m + 1], src[4 * m
                + 3]) && in_gamut(src[4 * m + 2], src[4 * m + 1], src[4 * m + 3]),
    ensures
        ({
            let rt = encode_yuyv(decode_yuyv(src, dst0, dst0.len() as int), out0);
            forall|j: int| 0 <= j < src.len() ==> -1 <= (#[trigger] rt[j]) - src[j] <= 1
        }),
{
    let len: int = src.len() as int;
    let mm: int = len / 4;
    lemma_fundamental_div_mod(len, 4);
    assert(len == 4 * mm);
    let max: int = dst0.len() as int;
    lemma_fundamental_div_mod_converse(8 * mm, 4, 2 * mm, 0);
    assert(decoded_pixel_count(len, max) == 2 * mm);
    let decoded = decode_yuyv(src, dst0, max);
    let rt = encode_yuyv(decoded, out0);
    lemma_fundamental_div_mod_converse(8 * mm, 8, mm, 0);
    assert(4 * (decoded.len() / 8) == len);
    assert forall|j: int| 0 <= j < src.len() implies -1 <= (#[trigger] rt[j]) - src[j] <= 1 by {
        let k = j / 4;
        let c = j % 4;
        lemma_fundamental_div_mod(j, 4);
        assert(j == 4 * k + c && 0 <= c < 4);
        assert(0 <= k < mm);
        // Where the six four-channel bytes of this chunk landed.
        lemma_fundamental_div_mod_converse(8 * k, 4, 2 * k, 0);
        lemma_fundamental_div_mod_converse(8 * k + 1, 4, 2 * k, 1);
        lemma_fundamental_div_mod_converse(8 * k + 2, 4, 2 * k, 2);
        lemma_fundamental_div_mod_converse(8 * k + 4, 4, 2 * k + 1, 0);
        lemma_fundamental_div_mod_converse(8 * k + 5, 4, 2 * k + 1, 1);
        lemma_fundamental_div_mod_converse(8 * k + 6, 4, 2 * k + 1, 2);
        lemma_fundamental_div_mod_converse(2 * k, 2, k, 0);
        lemma_fundamental_div_mod_converse(2 * k + 1, 2, k, 1);
        let y0 = src[4 * k];
        let u = src[4 * k + 1];
        let y1 = src[4 * k + 2];
        let v = src[4 * k + 3];
        assert(in_gamut(y0, u, v) && in_gamut(y1, u, v));
        assert(decoded[8 * k] == rgb_red(y0, v));
        assert(decoded[8 * k + 1] == rgb_green(y0, u, v));
        assert(decoded[8 * k + 2] == rgb_blue(y0, u));
        assert(decoded[8 * k + 4] == rgb_red(y1, v));
        assert(decoded[8 * k + 5] == rgb_green(y1, u, v));
        assert(decoded[8 * k + 6] == rgb_blue(y1, u));
        lemma_round_trip_macropixel(y0, u, y1, v);
        assert(rt[j] == encoded_byte(decoded, j));
    }
}

/// Bounds law: whatever the source holds, a decode leaves every destination
/// byte at or past the write bound untouched, and every alpha byte as well.
pub proof fn lemma_decode_bounds(fourcc: Seq<u8>, src: Seq<u8>, dst0: Seq<u8>, max: int)
    ensures
        decode_spec(fourcc, src, dst0, max).len() == dst0.len(),
        forall|j: int|
            0 <= j < dst0.len() && (j >= max || j % 4 == 3) ==> decode_spec(
                fourcc,
                src,
                dst0,
                max,
            )[j] == dst0[j],
{
    assert forall|j: int|
        0 <= j < dst0.len() && (j >= max || j % 4 == 3) implies decode_spec(
        fourcc,
        src,
        dst0,
        max,
    )[j] == dst0[j] by {
        if fourcc == yuyv_code() && j >= max {
            lemma_div_is_ordered(max, j, 4);
        }
    }
}

/// No-op law: under any format tag other than "YUYV", both conversions
/// leave the destination buffer byte-for-byte as it was delivered.
pub proof fn lemma_unsupported_noop(fourcc: Seq<u8>, src: Seq<u8>, dst0: Seq<u8>, max: int)
    requires
        fourcc != yuyv_code(),
    ensures
        decode_spec(fourcc, src, dst0, max) == dst0,
        encode_spec(fourcc, src, dst0) == dst0,
{
}

} // verus!
