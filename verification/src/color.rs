//! CIE-LAB colors and their conversion to sRGB device colors, entirely in
//! 32-bit signed fixed-point arithmetic with a 12-bit fractional scale:
//! LAB to XYZ through the CIE inverse-f function against a D65 white point,
//! XYZ to linear RGB through a 3x3 matrix, and linear RGB to sRGB through a
//! binary search in a monotone gamma threshold table. A precomputed grid
//! gives the radius of the largest valid chroma disk around a color.
use vstd::prelude::*;

use crate::color_constants::DELTA;
use crate::color_constants::D65_ILLUMINANT;
use crate::color_constants::F_INV_OFFSET;
use crate::color_constants::GAMMA_CORRECTION;
use crate::color_constants::LINEAR_RGB_TO_SRGB;
use crate::color_constants::MAX_LAB_RADIUS;
use crate::color_constants::XYZ_TO_RGB_LINEAR;
use crate::color_constants::lemma_gamma_table_sorted;
use crate::color_constants::lemma_radius_grid_bounds;
use crate::int_math::div_floor;
use crate::int_math::div_trunc;
use crate::int_math::lemma_tdiv_bound;
use crate::int_math::tdiv;

verus! {

/// A CIE-LAB color. `l` ranges from 0 to 99; the valid range of `a` and `b`
/// is not rectangular and depends on `l`, so out-of-gamut colors are clamped
/// during conversion.
#[derive(Clone, Copy, PartialEq, Eq, Structural, Debug)]
pub struct ColorLab {
    pub l: i8,
    pub a: i8,
    pub b: i8,
}

/// An sRGB device color with 8-bit channels.
#[derive(Clone, Copy, PartialEq, Eq, Structural, Debug)]
pub struct ColorRgb {
    pub r: u8,
    pub g: u8,
    pub b: u8,
}

/// A CIE-XYZ color, scaled by 12 bits; an intermediate of the conversion.
#[derive(Clone, Copy, PartialEq, Eq, Structural, Debug)]
struct ColorXyz {
    x: i32,
    y: i32,
    z: i32,
}

/// A linear-light RGB color, scaled by 12 bits; an intermediate of the
/// conversion.
#[derive(Clone, Copy, PartialEq, Eq, Structural, Debug)]
struct ColorLinearRgb {
    r: i32,
    g: i32,
    b: i32,
}

/// The CIE inverse-f function, both sides scaled by 12 bits: a cube above
/// the branch threshold, a shallow line below it.
pub open spec fn f_inv_spec(t: int) -> int {
    if t > 847 {
        ((t * t) / 4096) * t / 4096
    } else {
        (507 * (t - 564)) / 4096
    }
}

fn f_inv(t: i32) -> (r: i32)
    requires
        -7700 <= t <= 7700,
    ensures
        r == f_inv_spec(t as int),
        -1100 <= r <= 27500,
{
    if t > DELTA {
        proof {
            assert(0 <= t as int * t as int <= 59290000) by (nonlinear_arith)
                requires
                    -7700 <= t as int <= 7700,
            ;
        }
        let t2 = t * t;
        let cube_base = div_floor(t2, 4096);
        proof {
            vstd::arithmetic::div_mod::lemma_div_is_ordered(t2 as int, 59290000, 4096);
            vstd::arithmetic::div_mod::lemma_div_pos_is_pos(t2 as int, 4096);
            assert(0 <= cube_base as int * t as int <= 111466600) by (nonlinear_arith)
                requires
                    0 <= cube_base as int <= 14475,
                    847 < t as int <= 7700,
            ;
        }
        let prod = cube_base * t;
        proof {
            vstd::arithmetic::div_mod::lemma_div_is_ordered(prod as int, 111466600, 4096);
            vstd::arithmetic::div_mod::lemma_div_pos_is_pos(prod as int, 4096);
        }
        div_floor(prod, 4096)
    } else {
        let d6 = div_floor(DELTA, 64);
        proof {
            assert(d6 == 13);
        }
        let coef = 3 * d6 * d6;
        proof {
            assert(coef == 507) by (nonlinear_arith)
                requires
                    d6 == 13,
                    coef == 3 * d6 * d6,
            ;
        }
        let prod = coef * (t - F_INV_OFFSET);
        proof {
            vstd::arithmetic::div_mod::lemma_div_is_ordered(-4189848, prod as int, 4096);
            vstd::arithmetic::div_mod::lemma_div_is_ordered(prod as int, 143481, 4096);
        }
        div_floor(prod, 4096)
    }
}

/// The three inverse-f arguments that a LAB color produces: lightness
/// adjusted and shifted by the `a` and `b` chroma offsets.
pub open spec fn lab_adj_spec(lab: ColorLab) -> (int, int, int) {
    let l_adj = tdiv((lab.l + 16) * 4096, 116);
    let a_adj = tdiv(lab.a * 4096, 500);
    let b_adj = -tdiv(lab.b * 4096, 200);
    (l_adj + a_adj, l_adj, l_adj + b_adj)
}

/// The XYZ value of a LAB color: inverse-f of each adjusted component,
/// weighted by the D65 white point.
pub open spec fn lab_to_xyz_spec(lab: ColorLab) -> (int, int, int) {
    let (tx, ty, tz) = lab_adj_spec(lab);
    (
        D65_ILLUMINANT@[0] * f_inv_spec(tx),
        D65_ILLUMINANT@[1] * f_inv_spec(ty),
        D65_ILLUMINANT@[2] * f_inv_spec(tz),
    )
}

fn lab_to_xyz(lab: ColorLab) -> (c: ColorXyz)
    ensures
        (c.x as int, c.y as int, c.z as int) == lab_to_xyz_spec(lab),
        -120000 <= c.x <= 3000000,
        -120000 <= c.y <= 3000000,
        -120000 <= c.z <= 3000000,
{
    let l_adj = div_trunc((lab.l as i32 + 16) * 4096, 116);
    let a_adj = div_trunc(lab.a as i32 * 4096, 500);
    let b_adj = -div_trunc(lab.b as i32 * 4096, 200);
    proof {
        lemma_tdiv_bound((lab.l as int + 16) * 4096, 116, 5050);
        lemma_tdiv_bound(lab.a as int * 4096, 500, 1049);
        lemma_tdiv_bound(lab.b as int * 4096, 200, 2622);
    }
    let fx = f_inv(l_adj + a_adj);
    let fy = f_inv(l_adj);
    let fz = f_inv(l_adj + b_adj);
    let w = D65_ILLUMINANT;
    ColorXyz { x: w[0] * fx, y: w[1] * fy, z: w[2] * fz }
}

/// The linear RGB value of an XYZ color: each component shifted down 6 bits,
/// pushed through the conversion matrix, and shifted down 6 more bits.
pub open spec fn xyz_to_linear_rgb_spec(x: int, y: int, z: int) -> (int, int, int) {
    let x1 = x / 64;
    let y1 = y / 64;
    let z1 = z / 64;
    let t = XYZ_TO_RGB_LINEAR;
    (
        (t@[0]@[0] * x1 + t@[0]@[1] * y1 + t@[0]@[2] * z1) / 64,
        (t@[1]@[0] * x1 + t@[1]@[1] * y1 + t@[1]@[2] * z1) / 64,
        (t@[2]@[0] * x1 + t@[2]@[1] * y1 + t@[2]@[2] * z1) / 64,
    )
}

fn xyz_to_linear_rgb(c: ColorXyz) -> (o: ColorLinearRgb)
    requires
        -120000 <= c.x <= 3000000,
        -120000 <= c.y <= 3000000,
        -120000 <= c.z <= 3000000,
    ensures
        (o.r as int, o.g as int, o.b as int) == xyz_to_linear_rgb_spec(
            c.x as int,
            c.y as int,
            c.z as int,
        ),
{
    let x1 = div_floor(c.x, 64);
    let y1 = div_floor(c.y, 64);
    let z1 = div_floor(c.z, 64);
    proof {
        lemma_div_64_range(c.x as int);
        lemma_div_64_range(c.y as int);
        lemma_div_64_range(c.z as int);
    }
    let t = XYZ_TO_RGB_LINEAR;
    ColorLinearRgb {
        r: div_floor(t[0][0] * x1 + t[0][1] * y1 + t[0][2] * z1, 64),
        g: div_floor(t[1][0] * x1 + t[1][1] * y1 + t[1][2] * z1, 64),
        b: div_floor(t[2][0] * x1 + t[2][1] * y1 + t[2][2] * z1, 64),
    }
}

/// Dividing a component in the pipeline's range by 64 keeps it small enough
/// for the matrix products.
proof fn lemma_div_64_range(v: int)
    requires
        -120000 <= v <= 3000000,
    ensures
        -1875 <= v / 64 <= 46875,
{
    vstd::arithmetic::div_mod::lemma_div_is_ordered(-120000, v, 64);
    vstd::arithmetic::div_mod::lemma_div_is_ordered(v, 3000000, 64);
}

/// The largest table index at or below `i` whose threshold does not exceed
/// `u`; 0 when every inspected threshold exceeds `u`.
pub open spec fn bucket_from(u: int, i: int) -> int
    decreases i,
{
    if i <= 0 {
        0
    } else if LINEAR_RGB_TO_SRGB@[i] <= u {
        i
    } else {
        bucket_from(u, i - 1)
    }
}

/// The gamma step: a linear-light value below the first threshold clamps to
/// `Err(0)`, one above the last clamps to `Err(255)`, and anything else lands
/// in the bucket whose threshold range contains it.
pub open spec fn gamma_spec(u: int) -> Result<u8, u8> {
    if u < LINEAR_RGB_TO_SRGB@[0] {
        Err(0u8)
    } else if u > LINEAR_RGB_TO_SRGB@[255] {
        Err(255u8)
    } else {
        Ok(bucket_from(u, 255) as u8)
    }
}

/// Earlier gamma thresholds never exceed later ones.
proof fn lemma_table_le(i: int, j: int)
    requires
        0 <= i <= j < 256,
    ensures
        LINEAR_RGB_TO_SRGB@[i] <= LINEAR_RGB_TO_SRGB@[j],
{
    lemma_gamma_table_sorted();
    lemma_table_le_chain(i, j);
}

/// Chains the adjacent orderings of the gamma table up to any later index.
proof fn lemma_table_le_chain(i: int, j: int)
    requires
        0 <= i <= j < 256,
        forall|k: int|
            0 <= k < 255 ==> #[trigger] LINEAR_RGB_TO_SRGB@[k] < LINEAR_RGB_TO_SRGB@[k + 1],
    ensures
        LINEAR_RGB_TO_SRGB@[i] <= LINEAR_RGB_TO_SRGB@[j],
    decreases j - i,
{
    if i < j {
        lemma_table_le_chain(i, j - 1);
    }
}

/// If threshold `i` is at most `u` and threshold `i + 1` (when there is one)
/// exceeds `u`, then `i` is the bucket of `u`.
proof fn lemma_bucket_char(u: int, i: int, j: int)
    requires
        0 <= i <= j < 256,
        LINEAR_RGB_TO_SRGB@[i] <= u,
        i == 255 || u < LINEAR_RGB_TO_SRGB@[i + 1],
    ensures
        bucket_from(u, j) == i,
    decreases j,
{
    if j > i {
        lemma_table_le(i + 1, j);
        lemma_bucket_char(u, i, j - 1);
    }
}

/// Convert a 12-bit linear-light value to its 8-bit sRGB code by binary
/// search in the threshold table; values outside the table clamp to the
/// nearest end, tagged as an error.
fn gamma(u: i32) -> (r: Result<u8, u8>)
    ensures
        r == gamma_spec(u as int),
{
    if u < LINEAR_RGB_TO_SRGB[0] {
        return Err(0u8);
    }
    if u > LINEAR_RGB_TO_SRGB[255] {
        return Err(255u8);
    }
    let mut lo: usize = 0;
    let mut hi: usize = 255;
    while lo < hi
        invariant
            0 <= lo <= hi <= 255,
            LINEAR_RGB_TO_SRGB@[lo as int] <= u as int,
            hi == 255 || (u as int) < LINEAR_RGB_TO_SRGB@[hi as int + 1],
        decreases hi - lo,
    {
        let mid = lo + (hi - lo + 1) / 2;
        if LINEAR_RGB_TO_SRGB[mid] <= u {
            lo = mid;
        } else {
            hi = mid - 1;
        }
    }
    proof {
        lemma_bucket_char(u as int, lo as int, 255);
    }
    Ok(lo as u8)
}

/// The gamma step is total: every 8-bit code is hit, namely by its own
/// threshold.
pub proof fn lemma_gamma_total(code: u8)
    ensures
        gamma_spec(LINEAR_RGB_TO_SRGB@[code as int] as int) == Ok::<u8, u8>(code),
{
    lemma_table_le(0, code as int);
    lemma_table_le(code as int, 255);
    lemma_bucket_char(LINEAR_RGB_TO_SRGB@[code as int] as int, code as int, 255);
}

/// The gamma step is monotone: a larger linear-light value never gets a
/// smaller sRGB code.
pub proof fn lemma_gamma_monotone(u1: int, u2: int)
    requires
        u1 <= u2,
        gamma_spec(u1) is Ok,
        gamma_spec(u2) is Ok,
    ensures
        gamma_spec(u1)->Ok_0 <= gamma_spec(u2)->Ok_0,
{
    lemma_bucket_from_monotone(u1, u2, 255);
    lemma_bucket_from_bounds(u1, 255);
    lemma_bucket_from_bounds(u2, 255);
}

/// The bucket of a smaller value never lies above the bucket of a larger
/// one.
proof fn lemma_bucket_from_monotone(u1: int, u2: int, i: int)
    requires
        u1 <= u2,
        0 <= i < 256,
    ensures
        bucket_from(u1, i) <= bucket_from(u2, i),
    decreases i,
{
    if i > 0 {
        lemma_bucket_from_monotone(u1, u2, i - 1);
        lemma_bucket_from_bounds(u1, i - 1);
        lemma_bucket_from_bounds(u2, i - 1);
    }
}

/// A bucket index stays within the inspected range.
proof fn lemma_bucket_from_bounds(u: int, i: int)
    requires
        0 <= i < 256,
    ensures
        0 <= bucket_from(u, i) <= i,
    decreases i,
{
    if i > 0 {
        lemma_bucket_from_bounds(u, i - 1);
    }
}

/// The channel value a gamma result carries, clamped or not.
pub open spec fn gamma_value(v: Result<u8, u8>) -> u8 {
    match v {
        Ok(c) => c,
        Err(c) => c,
    }
}

/// The sRGB color of a linear RGB triple: success when every channel's gamma
/// lookup lands inside the table, otherwise the channel-wise clamped color
/// tagged as an error.
pub open spec fn linear_rgb_to_srgb_spec(r: int, g: int, b: int) -> Result<ColorRgb, ColorRgb> {
    let gr = gamma_spec(r);
    let gg = gamma_spec(g);
    let gb = gamma_spec(b);
    let c = ColorRgb { r: gamma_value(gr), g: gamma_value(gg), b: gamma_value(gb) };
    if gr is Ok && gg is Ok && gb is Ok {
        Ok(c)
    } else {
        Err(c)
    }
}

fn linear_rgb_to_srgb(rgb: ColorLinearRgb) -> (res: Result<ColorRgb, ColorRgb>)
    ensures
        res == linear_rgb_to_srgb_spec(rgb.r as int, rgb.g as int, rgb.b as int),
{
    let ColorLinearRgb { r, g, b } = rgb;
    match (gamma(r), gamma(g), gamma(b)) {
        (Ok(r), Ok(g), Ok(b)) => Ok(ColorRgb { r, g, b }),
        (Ok(r), Ok(g), Err(b)) => Err(ColorRgb { r, g, b }),
        (Ok(r), Err(g), Ok(b)) => Err(ColorRgb { r, g, b }),
        (Ok(r), Err(g), Err(b)) => Err(ColorRgb { r, g, b }),
        (Err(r), Ok(g), Ok(b)) => Err(ColorRgb { r, g, b }),
        (Err(r), Ok(g), Err(b)) => Err(ColorRgb { r, g, b }),
        (Err(r), Err(g), Ok(b)) => Err(ColorRgb { r, g, b }),
        (Err(r), Err(g), Err(b)) => Err(ColorRgb { r, g, b }),
    }
}

/// The whole pipeline: LAB to XYZ to linear RGB to sRGB.
#[verifier::opaque]
pub open spec fn lab_to_srgb_spec(lab: ColorLab) -> Result<ColorRgb, ColorRgb> {
    let (x, y, z) = lab_to_xyz_spec(lab);
    let (r, g, b) = xyz_to_linear_rgb_spec(x, y, z);
    linear_rgb_to_srgb_spec(r, g, b)
}

/// A LAB color is valid when the whole pipeline succeeds without clamping.
pub open spec fn is_valid_spec(lab: ColorLab) -> bool {
    lab_to_srgb_spec(lab) is Ok
}

/// The converted color with any clamping accepted: either branch's value.
pub open spec fn to_srgb_clamped_spec(lab: ColorLab) -> ColorRgb {
    match lab_to_srgb_spec(lab) {
        Ok(c) => c,
        Err(c) => c,
    }
}

fn lab_to_srgb(lab: ColorLab) -> (res: Result<ColorRgb, ColorRgb>)
    ensures
        res == lab_to_srgb_spec(lab),
{
    proof {
        reveal(lab_to_srgb_spec);
    }
    linear_rgb_to_srgb(xyz_to_linear_rgb(lab_to_xyz(lab)))
}

/// Validity and conversion can never disagree: `is_valid` holds exactly when
/// `to_srgb` returns the success variant.
pub proof fn lemma_is_valid_matches_to_srgb(lab: ColorLab)
    ensures
        is_valid_spec(lab) == (lab_to_srgb_spec(lab) is Ok),
{
}

/// One cell of the gamut-radius grid, or 0 outside the grid's covered range.
pub open spec fn radius_lookup_spec(li: int, ai: int, bi: int) -> int {
    if li < 1 || li > 12 || ai < -11 || ai > 10 || bi < -11 || bi > 10 {
        0
    } else {
        MAX_LAB_RADIUS@[li - 1]@[ai + 11]@[bi + 11] as int
    }
}

/// The gamut radius at a LAB color: the grid interpolated over the eight
/// neighboring cells with 3-bit fractional weights, shifted down 9 bits.
#[verifier::opaque]
pub open spec fn max_radius_spec(lab: ColorLab) -> int {
    let li = lab.l as int / 8;
    let ai = lab.a as int / 8;
    let bi = lab.b as int / 8;
    let lf = lab.l - 8 * li;
    let af = lab.a - 8 * ai;
    let bf = lab.b - 8 * bi;
    (radius_lookup_spec(li, ai, bi) * (8 - lf) * (8 - af) * (8 - bf) + radius_lookup_spec(
        li,
        ai,
        bi + 1,
    ) * (8 - lf) * (8 - af) * bf + radius_lookup_spec(li, ai + 1, bi) * (8 - lf) * af * (8 - bf)
        + radius_lookup_spec(li, ai + 1, bi + 1) * (8 - lf) * af * bf + radius_lookup_spec(
        li + 1,
        ai,
        bi,
    ) * lf * (8 - af) * (8 - bf) + radius_lookup_spec(li + 1, ai, bi + 1) * lf * (8 - af) * bf
        + radius_lookup_spec(li + 1, ai + 1, bi) * lf * af * (8 - bf) + radius_lookup_spec(
        li + 1,
        ai + 1,
        bi + 1,
    ) * lf * af * bf) / 512
}

fn radius_lookup(li: i32, ai: i32, bi: i32) -> (r: i32)
    ensures
        r == radius_lookup_spec(li as int, ai as int, bi as int),
        0 <= r <= 100,
{
    proof {
        lemma_radius_grid_bounds();
    }
    if li < 1 || li > 12 || ai < -11 || ai > 10 || bi < -11 || bi > 10 {
        0
    } else {
        MAX_LAB_RADIUS[(li - 1) as usize][(ai + 11) as usize][(bi + 11) as usize] as i32
    }
}

/// One corner's contribution to the interpolation: the cell value weighted by
/// the three fractional weights.
fn radius_component(li: i32, ai: i32, bi: i32, lw: i32, aw: i32, bw: i32) -> (r: i32)
    requires
        0 <= lw <= 8,
        0 <= aw <= 8,
        0 <= bw <= 8,
    ensures
        r == radius_lookup_spec(li as int, ai as int, bi as int) * lw * aw * bw,
        0 <= r <= 100 * (lw * aw * bw),
        r <= 51200,
{
    let v = radius_lookup(li, ai, bi);
    proof {
        assert(0 <= v as int * lw as int <= 100 * lw as int && 0 <= (v as int * lw as int)
            * aw as int <= 100 * lw as int * aw as int && 0 <= ((v as int * lw as int) * aw as int)
            * bw as int <= 100 * (lw as int * aw as int * bw as int) && 100 * (lw as int * aw as int
            * bw as int) <= 51200) by (nonlinear_arith)
            requires
                0 <= v as int <= 100,
                0 <= lw as int <= 8,
                0 <= aw as int <= 8,
                0 <= bw as int <= 8,
        ;
    }
    v * lw * aw * bw
}

/// The eight interpolation weights of one corner sum always total 512.
#[verifier::rlimit(100)]
proof fn lemma_weights_total(lf: int, af: int, bf: int)
    ensures
        (8 - lf) * (8 - af) * (8 - bf) + (8 - lf) * (8 - af) * bf + (8 - lf) * af * (8 - bf) + (8
            - lf) * af * bf + lf * (8 - af) * (8 - bf) + lf * (8 - af) * bf + lf * af * (8 - bf)
            + lf * af * bf == 512,
{
    assert((8 - lf) * (8 - af) * (8 - bf) + (8 - lf) * (8 - af) * bf + (8 - lf) * af * (8 - bf) + (
    8 - lf) * af * bf + lf * (8 - af) * (8 - bf) + lf * (8 - af) * bf + lf * af * (8 - bf) + lf * af
        * bf == 512) by (nonlinear_arith);
}

fn max_lab_radius(lab: ColorLab) -> (r: i8)
    ensures
        r as int == max_radius_spec(lab),
        0 <= r <= 100,
{
    proof {
        reveal(max_radius_spec);
    }
    let li = div_floor(lab.l as i32, 8);
    let ai = div_floor(lab.a as i32, 8);
    let bi = div_floor(lab.b as i32, 8);
    let lf = lab.l as i32 - li * 8;
    let af = lab.a as i32 - ai * 8;
    let bf = lab.b as i32 - bi * 8;
    proof {
        lemma_frac_range(lab.l as int);
        lemma_frac_range(lab.a as int);
        lemma_frac_range(lab.b as int);
    }
    let total = radius_component(li, ai, bi, 8 - lf, 8 - af, 8 - bf) + radius_component(
        li,
        ai,
        bi + 1,
        8 - lf,
        8 - af,
        bf,
    ) + radius_component(li, ai + 1, bi, 8 - lf, af, 8 - bf) + radius_component(
        li,
        ai + 1,
        bi + 1,
        8 - lf,
        af,
        bf,
    ) + radius_component(li + 1, ai, bi, lf, 8 - af, 8 - bf) + radius_component(
        li + 1,
        ai,
        bi + 1,
        lf,
        8 - af,
        bf,
    ) + radius_component(li + 1, ai + 1, bi, lf, af, 8 - bf) + radius_component(
        li + 1,
        ai + 1,
        bi + 1,
        lf,
        af,
        bf,
    );
    proof {
        lemma_weights_total(lf as int, af as int, bf as int);
        vstd::arithmetic::div_mod::lemma_div_pos_is_pos(total as int, 512);
        vstd::arithmetic::div_mod::lemma_div_is_ordered(total as int, 51200, 512);
    }
    let r = div_floor(total, 512);
    r as i8
}

/// Splitting a small integer at bit 3 leaves a fraction between 0 and 7.
proof fn lemma_frac_range(v: int)
    requires
        -128 <= v <= 127,
    ensures
        0 <= v - 8 * (v / 8) <= 7,
        -16 <= v / 8 <= 15,
    decreases 0int,
{
    vstd::arithmetic::div_mod::lemma_fundamental_div_mod(v, 8);
    vstd::arithmetic::div_mod::lemma_mod_bound(v, 8);
    vstd::arithmetic::div_mod::lemma_div_is_ordered(-128, v, 8);
    vstd::arithmetic::div_mod::lemma_div_is_ordered(v, 127, 8);
}

impl ColorLab {
    /// Convert to sRGB. If this color is invalid, return an `Err` of a
    /// clamped version of it.
    pub fn to_srgb(self) -> (res: Result<ColorRgb, ColorRgb>)
        ensures
            res == lab_to_srgb_spec(self),
    {
        lab_to_srgb(self)
    }

    /// Convert to sRGB. If this color is invalid, automatically clamp it to
    /// a valid color.
    pub fn to_srgb_clamped(self) -> (c: ColorRgb)
        ensures
            c == to_srgb_clamped_spec(self),
    {
        match lab_to_srgb(self) {
            Ok(color) => color,
            Err(color) => color,
        }
    }

    /// Check if this is a valid (i.e., representable) color.
    pub fn is_valid(&self) -> (v: bool)
        ensures
            v == is_valid_spec(*self),
    {
        lab_to_srgb(*self).is_ok()
    }

    /// Compute the radius of the largest valid A,B circle centered at this
    /// color.
    pub fn max_radius(&self) -> (r: i8)
        ensures
            r as int == max_radius_spec(*self),
            0 <= r <= 100,
    {
        max_lab_radius(*self)
    }
}

impl ColorRgb {
    /// The all-black device color.
    pub fn black() -> (c: ColorRgb)
        ensures
            c == (ColorRgb { r: 0u8, g: 0u8, b: 0u8 }),
    {
        ColorRgb { r: 0, g: 0, b: 0 }
    }

    /// Apply gamma correction. This is needed when displaying the color on
    /// an RGB LED. Other devices like a computer monitor already have the
    /// correction built in.
    #[verifier::rlimit(50)]
    pub fn correct_gamma(&self) -> (c: ColorRgb)
        ensures
            c.r == GAMMA_CORRECTION@[self.r as int],
            c.g == GAMMA_CORRECTION@[self.g as int],
            c.b == GAMMA_CORRECTION@[self.b as int],
    {
        ColorRgb {
            r: GAMMA_CORRECTION[self.r as usize],
            g: GAMMA_CORRECTION[self.g as usize],
            b: GAMMA_CORRECTION[self.b as usize],
        }
    }
}

} // verus!
