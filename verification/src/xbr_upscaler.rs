use vstd::prelude::*;

verus! {

/// The red and blue bytes of a packed colour (and alpha and green after a shift by 8).
pub const PART_MASK: u32 = 0x00ff_00ff;
/// The Y byte of a packed YUV value.
pub const Y_MASK: u32 = 0x00ff_0000;
/// The U byte of a packed YUV value.
pub const U_MASK: u32 = 0x0000_ff00;
/// The V byte of a packed YUV value.
pub const V_MASK: u32 = 0x0000_00ff;

/// Integer division that rounds toward zero, as Rust's `/` does, for a positive divisor.
pub open spec fn div_toward_zero(a: int, d: int) -> int {
    if a >= 0 {
        a / d
    } else {
        -((-a) / d)
    }
}

/// The alpha byte of a 0xAARRGGBB colour.
pub open spec fn alpha_of(p: u32) -> int {
    p as int / 0x100_0000
}

/// The red byte of a 0xAARRGGBB colour.
pub open spec fn red_of(p: u32) -> int {
    (p as int / 0x1_0000) % 256
}

/// The green byte of a 0xAARRGGBB colour.
pub open spec fn green_of(p: u32) -> int {
    (p as int / 0x100) % 256
}

/// The blue byte of a 0xAARRGGBB colour.
pub open spec fn blue_of(p: u32) -> int {
    p as int % 256
}

/// Luma of a colour: 0.299 R + 0.587 G + 0.114 B, rounded down.
pub open spec fn luma_of(p: u32) -> int {
    (299 * red_of(p) + 587 * green_of(p) + 114 * blue_of(p)) / 1000
}

/// Blue-difference chroma of a colour, offset by 128.
pub open spec fn chroma_u_of(p: u32) -> int {
    div_toward_zero(-169 * red_of(p) - 331 * green_of(p) + 500 * blue_of(p), 1000) + 128
}

/// Red-difference chroma of a colour, offset by 128.
pub open spec fn chroma_v_of(p: u32) -> int {
    div_toward_zero(500 * red_of(p) - 419 * green_of(p) - 81 * blue_of(p), 1000) + 128
}

/// The YUV value of a colour packed as 0x00YYUUVV.
pub open spec fn spec_rgb_to_yuv(p: u32) -> int {
    luma_of(p) * 0x1_0000 + chroma_u_of(p) * 0x100 + chroma_v_of(p)
}

/// `|a - b|`.
pub open spec fn abs_int(a: int) -> int {
    if a < 0 {
        -a
    } else {
        a
    }
}

/// Distance of two colours: the absolute differences of their alpha, luma and both chroma
/// values, summed.
#[verifier::opaque]
pub open spec fn spec_pixel_diff(x: u32, y: u32) -> int {
    abs_int(alpha_of(x) - alpha_of(y)) + abs_int(luma_of(x) - luma_of(y)) + abs_int(chroma_u_of(x) - chroma_u_of(y))
        + abs_int(chroma_v_of(x) - chroma_v_of(y))
}

/// Two colours count as equal when their distance is below 155.
pub open spec fn spec_equal(x: u32, y: u32) -> bool {
    spec_pixel_diff(x, y) < 155
}

proof fn lemma_colour_bytes(p: u32)
    ensures
        (p >> 16u32) & 0xff == red_of(p),
        (p >> 8u32) & 0xff == green_of(p),
        p & 0xff == blue_of(p),
        p >> 24u32 == alpha_of(p),
{
    assert((p >> 16u32) & 0xff == (p / 0x1_0000) % 256 && (p >> 8u32) & 0xff == (p / 0x100) % 256 && p & 0xff == p
        % 256 && p >> 24u32 == p / 0x100_0000) by (bit_vector);
}

proof fn lemma_packed_yuv(y: u32, u: u32, v: u32)
    requires
        y < 256,
        u < 256,
        v < 256,
    ensures
        (y << 16u32) | (u << 8u32) | v == y * 0x1_0000 + u * 0x100 + v,
        ((y * 0x1_0000 + u * 0x100 + v) as u32) & Y_MASK == y * 0x1_0000,
        ((y * 0x1_0000 + u * 0x100 + v) as u32) & U_MASK == u * 0x100,
        ((y * 0x1_0000 + u * 0x100 + v) as u32) & V_MASK == v,
{
    assert((y << 16u32) | (u << 8u32) | v == y * 0x1_0000 + u * 0x100 + v && ((y * 0x1_0000 + u * 0x100 + v) as u32)
        & 0x00ff_0000 == y * 0x1_0000 && ((y * 0x1_0000 + u * 0x100 + v) as u32) & 0x0000_ff00 == u * 0x100 && ((y
        * 0x1_0000 + u * 0x100 + v) as u32) & 0x0000_00ff == v) by (bit_vector)
        requires
            y < 256,
            u < 256,
            v < 256,
    ;
}

/// `n / 1000` rounded toward zero.
fn div_1000_toward_zero(n: i32) -> (q: i32)
    requires
        -1_000_000 <= n <= 1_000_000,
    ensures
        q == div_toward_zero(n as int, 1000),
        -1000 <= q <= 1000,
{
    if n >= 0 {
        (n as u32 / 1000) as i32
    } else {
        -(((-n) as u32 / 1000) as i32)
    }
}

/// The YUV value of a 0xAARRGGBB colour, packed as 0x00YYUUVV; the chroma values are offset
/// by 128.
pub fn rgb_to_yuv(pixel: u32) -> (yuv: u32)
    ensures
        yuv == spec_rgb_to_yuv(pixel),
        0 <= luma_of(pixel) < 256,
        0 <= chroma_u_of(pixel) < 256,
        0 <= chroma_v_of(pixel) < 256,
{
    proof {
        lemma_colour_bytes(pixel);
    }
    let r = ((pixel >> 16) & 0xff) as i32;
    let g = ((pixel >> 8) & 0xff) as i32;
    let b = (pixel & 0xff) as i32;
    let y = ((299 * r + 587 * g + 114 * b) as u32 / 1000) as i32;
    assert(y <= 255);
    let u_part = div_1000_toward_zero(-169 * r - 331 * g + 500 * b);
    let v_part = div_1000_toward_zero(500 * r - 419 * g - 81 * b);
    assert(-169 * 255 - 331 * 255 <= -169 * r - 331 * g + 500 * b <= 500 * 255);
    assert(-127 <= u_part <= 127) by {
        assert(-127_500 <= -169 * r - 331 * g + 500 * b <= 127_500);
    }
    assert(-127 <= v_part <= 127) by {
        assert(-127_500 <= 500 * r - 419 * g - 81 * b <= 127_500);
    }
    let u = u_part + 128;
    let v = v_part + 128;
    proof {
        lemma_packed_yuv(y as u32, u as u32, v as u32);
    }
    ((y as u32) << 16) | ((u as u32) << 8) | v as u32
}

/// `|a - b|` of two 32-bit values.
fn abs_diff(a: u32, b: u32) -> (d: u32)
    ensures
        d == abs_int(a - b),
{
    if a >= b {
        a - b
    } else {
        b - a
    }
}

proof fn lemma_shifted_diff(a: u32, b: u32, shift: u32)
    requires
        shift == 8 || shift == 16,
        a < 256,
        b < 256,
    ensures
        abs_int(a * (1u32 << shift) - b * (1u32 << shift)) == abs_int(a - b) * (1u32 << shift),
        ((abs_int(a - b) * (1u32 << shift)) as u32) >> shift == abs_int(a - b),
{
    let d: u32 = abs_int(a - b) as u32;
    assert(1u32 << 8u32 == 256 && 1u32 << 16u32 == 65536 && (d < 256 ==> ((d * 256) as u32) >> 8u32 == d) && (d < 256
        ==> ((d * 65536) as u32) >> 16u32 == d)) by (bit_vector);
}

/// Distance of two colours in alpha and YUV: the sum of the absolute differences of alpha,
/// luma and both chroma values.
pub fn pixel_diff(x: u32, y: u32) -> (d: u32)
    ensures
        d == spec_pixel_diff(x, y),
        d <= 1020,
{
    reveal(spec_pixel_diff);
    let yuv1 = rgb_to_yuv(x);
    let yuv2 = rgb_to_yuv(y);
    let yuv1_y = yuv1 & Y_MASK;
    let yuv1_u = yuv1 & U_MASK;
    let yuv1_v = yuv1 & V_MASK;
    let yuv2_y = yuv2 & Y_MASK;
    let yuv2_u = yuv2 & U_MASK;
    let yuv2_v = yuv2 & V_MASK;
    proof {
        lemma_colour_bytes(x);
        lemma_colour_bytes(y);
        lemma_packed_yuv(luma_of(x) as u32, chroma_u_of(x) as u32, chroma_v_of(x) as u32);
        lemma_packed_yuv(luma_of(y) as u32, chroma_u_of(y) as u32, chroma_v_of(y) as u32);
        lemma_shifted_diff(luma_of(x) as u32, luma_of(y) as u32, 16);
        lemma_shifted_diff(chroma_u_of(x) as u32, chroma_u_of(y) as u32, 8);
        assert(1u32 << 8u32 == 256 && 1u32 << 16u32 == 65536 && x >> 24u32 < 256 && y >> 24u32 < 256) by (bit_vector);
    }
    abs_diff(x >> 24, y >> 24) + (abs_diff(yuv1_y, yuv2_y) >> 16) + (abs_diff(yuv1_u, yuv2_u) >> 8) + abs_diff(
        yuv1_v,
        yuv2_v,
    )
}

/// Whether two colours are close: their distance is below 155.
pub fn equal(x: u32, y: u32) -> (close: bool)
    ensures
        close == spec_equal(x, y),
{
    pixel_diff(x, y) < 155
}

/// The packed blend of `a` toward `b` by `multiplier / 2^shift`, computed on the red and blue
/// bytes and on the alpha and green bytes as two lanes of 16 bits each, with wrapping
/// arithmetic.
pub open spec fn spec_alpha_blend(a: u32, b: u32, multiplier: u32, shift: u32) -> u32 {
    let low = vstd::wrapping::u32_specs::wrapping_add(
        a & PART_MASK,
        vstd::wrapping::u32_specs::wrapping_mul(
            vstd::wrapping::u32_specs::wrapping_sub(b & PART_MASK, a & PART_MASK),
            multiplier,
        ) >> shift,
    ) & PART_MASK;
    let a_high = (a >> 8u32) & PART_MASK;
    let b_high = (b >> 8u32) & PART_MASK;
    let high = (vstd::wrapping::u32_specs::wrapping_add(
        a_high,
        vstd::wrapping::u32_specs::wrapping_mul(vstd::wrapping::u32_specs::wrapping_sub(b_high, a_high), multiplier)
            >> shift,
    ) & PART_MASK) << 8u32;
    low | high
}

/// Blends `a` toward `b` by `multiplier / 2^shift`, two bytes at a time.
pub fn alpha_blend_base(a: u32, b: u32, multiplier: u32, shift: u32) -> (blended: u32)
    requires
        shift < 32,
    ensures
        blended == spec_alpha_blend(a, b, multiplier, shift),
{
    let low = (a & PART_MASK).wrapping_add(
        ((b & PART_MASK).wrapping_sub(a & PART_MASK).wrapping_mul(multiplier)) >> shift,
    ) & PART_MASK;
    let a_high = (a >> 8) & PART_MASK;
    let b_high = (b >> 8) & PART_MASK;
    let high = (a_high.wrapping_add((b_high.wrapping_sub(a_high).wrapping_mul(multiplier)) >> shift) & PART_MASK) << 8;
    low | high
}

/// `a` blended 1/8 of the way toward `b`.
pub fn alpha_blend_32(a: u32, b: u32) -> (blended: u32)
    ensures
        blended == spec_alpha_blend(a, b, 1, 3),
{
    alpha_blend_base(a, b, 1, 3)
}

/// `a` blended 1/4 of the way toward `b`.
pub fn alpha_blend_64(a: u32, b: u32) -> (blended: u32)
    ensures
        blended == spec_alpha_blend(a, b, 1, 2),
{
    alpha_blend_base(a, b, 1, 2)
}

/// `a` blended halfway toward `b`.
pub fn alpha_blend_128(a: u32, b: u32) -> (blended: u32)
    ensures
        blended == spec_alpha_blend(a, b, 1, 1),
{
    alpha_blend_base(a, b, 1, 1)
}

/// `a` blended 3/4 of the way toward `b`.
pub fn alpha_blend_192(a: u32, b: u32) -> (blended: u32)
    ensures
        blended == spec_alpha_blend(a, b, 3, 2),
{
    alpha_blend_base(a, b, 3, 2)
}

/// `a` blended 7/8 of the way toward `b`.
pub fn alpha_blend_224(a: u32, b: u32) -> (blended: u32)
    ensures
        blended == spec_alpha_blend(a, b, 7, 3),
{
    alpha_blend_base(a, b, 7, 3)
}

/// Weight of the edge across the corner between `pe` and `pi` (the exterior side).
pub open spec fn exterior_weight(pe: u32, pi: u32, ph: u32, pf: u32, pg: u32, pc: u32, f4: u32, h5: u32) -> int {
    spec_pixel_diff(pe, pc) + spec_pixel_diff(pe, pg) + spec_pixel_diff(pi, h5) + spec_pixel_diff(pi, f4) + 4
        * spec_pixel_diff(ph, pf)
}

/// Weight of the edge along the corner between `pe` and `pi` (the interior side).
pub open spec fn interior_weight(pe: u32, pi: u32, ph: u32, pf: u32, pd: u32, pb: u32, i4: u32, i5: u32) -> int {
    spec_pixel_diff(ph, pd) + spec_pixel_diff(ph, i5) + spec_pixel_diff(pf, i4) + spec_pixel_diff(pf, pb) + 4
        * spec_pixel_diff(pe, pi)
}

/// The colour blended into the corner: whichever of `pf` and `ph` is closer to `pe` (`pf` on a tie).
pub open spec fn edge_colour(pe: u32, pf: u32, ph: u32) -> u32 {
    if spec_pixel_diff(pe, pf) <= spec_pixel_diff(pe, ph) {
        pf
    } else {
        ph
    }
}

/// The edge runs shallow, toward the left of the corner.
pub open spec fn edge_left(pe: u32, ph: u32, pf: u32, pg: u32, pc: u32, pd: u32) -> bool {
    2 * spec_pixel_diff(pf, pg) <= spec_pixel_diff(ph, pc) && pe != pg && pd != pg
}

/// The edge runs steep, upward from the corner.
pub open spec fn edge_up(pe: u32, ph: u32, pf: u32, pg: u32, pc: u32, pb: u32) -> bool {
    spec_pixel_diff(pf, pg) >= 2 * spec_pixel_diff(ph, pc) && pe != pc && pb != pc
}

/// The 2x and 4x rule for a clear edge: the exterior weighs strictly less and the corner's
/// neighbours are not all alike.
pub open spec fn clear_edge_2x(
    pe: u32, pi: u32, ph: u32, pf: u32, pg: u32, pc: u32, pd: u32, pb: u32, i4: u32, i5: u32, exterior: int, interior: int,
) -> bool {
    exterior < interior && ((!spec_equal(pf, pb) && !spec_equal(ph, pd)) || (spec_equal(pe, pi) && (!spec_equal(
        pf,
        i4,
    ) && !spec_equal(ph, i5))) || spec_equal(pe, pg) || spec_equal(pe, pc))
}

/// The 3x rule for a clear edge.
pub open spec fn clear_edge_3x(
    pe: u32, pi: u32, ph: u32, pf: u32, pg: u32, pc: u32, pd: u32, pb: u32, f4: u32, i4: u32, h5: u32, i5: u32, exterior: int, interior: int,
) -> bool {
    exterior < interior && ((!spec_equal(pf, pb) && !spec_equal(pf, pc)) || (!spec_equal(ph, pd) && !spec_equal(ph, pg))
        || (spec_equal(pe, pi) && ((!spec_equal(pf, f4) && !spec_equal(pf, i4)) || (!spec_equal(ph, h5) && !spec_equal(
        ph,
        i5,
    )))) || spec_equal(pe, pg) || spec_equal(pe, pc))
}

/// The block `e` after the 2x rule for one corner: `n3` is the corner pixel, `n1` and `n2` its
/// neighbours.
#[verifier::opaque]
pub open spec fn spec_filt2(
    e: Seq<u32>, pe: u32, pi: u32, ph: u32, pf: u32, pg: u32, pc: u32, pd: u32, pb: u32, f4: u32, i4: u32, h5: u32, i5: u32, n1: int, n2: int, n3: int,
) -> Seq<u32> {
    let exterior = exterior_weight(pe, pi, ph, pf, pg, pc, f4, h5);
    let interior = interior_weight(pe, pi, ph, pf, pd, pb, i4, i5);
    if pe != ph && pe != pf && exterior <= interior {
        let px = edge_colour(pe, pf, ph);
        if clear_edge_2x(pe, pi, ph, pf, pg, pc, pd, pb, i4, i5, exterior, interior) {
            let left = edge_left(pe, ph, pf, pg, pc, pd);
            let up = edge_up(pe, ph, pf, pg, pc, pb);
            if left && up {
                let e1 = e.update(n3, spec_alpha_blend(e[n3], px, 7, 3));
                let e2 = e1.update(n2, spec_alpha_blend(e1[n2], px, 1, 2));
                e2.update(n1, e2[n2])
            } else if left {
                let e1 = e.update(n3, spec_alpha_blend(e[n3], px, 3, 2));
                e1.update(n2, spec_alpha_blend(e1[n2], px, 1, 2))
            } else if up {
                let e1 = e.update(n3, spec_alpha_blend(e[n3], px, 3, 2));
                e1.update(n1, spec_alpha_blend(e1[n1], px, 1, 2))
            } else {
                e.update(n3, spec_alpha_blend(e[n3], px, 1, 1))
            }
        } else {
            e.update(n3, spec_alpha_blend(e[n3], px, 1, 1))
        }
    } else {
        e
    }
}

/// The block `e` after the 3x rule for one corner: `n8` is the corner pixel.
#[verifier::opaque]
pub open spec fn spec_filt3(
    e: Seq<u32>, pe: u32, pi: u32, ph: u32, pf: u32, pg: u32, pc: u32, pd: u32, pb: u32, f4: u32, i4: u32, h5: u32, i5: u32, n2: int, n5: int, n6: int, n7: int, n8: int,
) -> Seq<u32> {
    let exterior = exterior_weight(pe, pi, ph, pf, pg, pc, f4, h5);
    let interior = interior_weight(pe, pi, ph, pf, pd, pb, i4, i5);
    if pe != ph && pe != pf && exterior <= interior {
        let px = edge_colour(pe, pf, ph);
        if clear_edge_3x(pe, pi, ph, pf, pg, pc, pd, pb, f4, i4, h5, i5, exterior, interior) {
            let left = edge_left(pe, ph, pf, pg, pc, pd);
            let up = edge_up(pe, ph, pf, pg, pc, pb);
            if left && up {
                let e1 = e.update(n7, spec_alpha_blend(e[n7], px, 3, 2));
                let e2 = e1.update(n6, spec_alpha_blend(e1[n6], px, 1, 2));
                let e3 = e2.update(n5, e2[n7]);
                let e4 = e3.update(n2, e3[n6]);
                e4.update(n8, px)
            } else if left {
                let e1 = e.update(n7, spec_alpha_blend(e[n7], px, 3, 2));
                let e2 = e1.update(n5, spec_alpha_blend(e1[n5], px, 1, 2));
                let e3 = e2.update(n6, spec_alpha_blend(e2[n6], px, 1, 2));
                e3.update(n8, px)
            } else if up {
                let e1 = e.update(n5, spec_alpha_blend(e[n5], px, 3, 2));
                let e2 = e1.update(n7, spec_alpha_blend(e1[n7], px, 1, 2));
                let e3 = e2.update(n2, spec_alpha_blend(e2[n2], px, 1, 2));
                e3.update(n8, px)
            } else {
                let e1 = e.update(n8, spec_alpha_blend(e[n8], px, 7, 3));
                let e2 = e1.update(n5, spec_alpha_blend(e1[n5], px, 1, 3));
                e2.update(n7, spec_alpha_blend(e2[n7], px, 1, 3))
            }
        } else {
            e.update(n8, spec_alpha_blend(e[n8], px, 1, 1))
        }
    } else {
        e
    }
}

/// The block `e` after the 4x rule for one corner: `n15` is the corner pixel.
#[verifier::opaque]
pub open spec fn spec_filt4(
    e: Seq<u32>, pe: u32, pi: u32, ph: u32, pf: u32, pg: u32, pc: u32, pd: u32, pb: u32, f4: u32, i4: u32, h5: u32, i5: u32, n15: int, n14: int, n11: int, n3: int, n7: int, n10: int, n13: int, n12: int,
) -> Seq<u32> {
    let exterior = exterior_weight(pe, pi, ph, pf, pg, pc, f4, h5);
    let interior = interior_weight(pe, pi, ph, pf, pd, pb, i4, i5);
    if pe != ph && pe != pf && exterior <= interior {
        let px = edge_colour(pe, pf, ph);
        if clear_edge_2x(pe, pi, ph, pf, pg, pc, pd, pb, i4, i5, exterior, interior) {
            let left = edge_left(pe, ph, pf, pg, pc, pd);
            let up = edge_up(pe, ph, pf, pg, pc, pb);
            if left && up {
                let e1 = e.update(n13, spec_alpha_blend(e[n13], px, 3, 2));
                let e2 = e1.update(n12, spec_alpha_blend(e1[n12], px, 1, 2));
                let e3 = e2.update(n15, px);
                let e4 = e3.update(n14, px);
                let e5 = e4.update(n11, px);
                let e6 = e5.update(n10, e5[n12]);
                let e7 = e6.update(n3, e6[n12]);
                e7.update(n7, e7[n13])
            } else if left {
                let e1 = e.update(n11, spec_alpha_blend(e[n11], px, 3, 2));
                let e2 = e1.update(n13, spec_alpha_blend(e1[n13], px, 3, 2));
                let e3 = e2.update(n10, spec_alpha_blend(e2[n10], px, 1, 2));
                let e4 = e3.update(n12, spec_alpha_blend(e3[n12], px, 1, 2));
                let e5 = e4.update(n14, px);
                e5.update(n15, px)
            } else if up {
                let e1 = e.update(n14, spec_alpha_blend(e[n14], px, 3, 2));
                let e2 = e1.update(n7, spec_alpha_blend(e1[n7], px, 3, 2));
                let e3 = e2.update(n10, spec_alpha_blend(e2[n10], px, 1, 2));
                let e4 = e3.update(n3, spec_alpha_blend(e3[n3], px, 1, 2));
                let e5 = e4.update(n11, px);
                e5.update(n15, px)
            } else {
                let e1 = e.update(n11, spec_alpha_blend(e[n11], px, 1, 1));
                let e2 = e1.update(n14, spec_alpha_blend(e1[n14], px, 1, 1));
                e2.update(n15, px)
            }
        } else {
            e.update(n15, spec_alpha_blend(e[n15], px, 1, 1))
        }
    } else {
        e
    }
}

proof fn lemma_shl_small(d: u32)
    requires
        d <= 1020,
    ensures
        d << 1u32 == d * 2,
        d << 2u32 == d * 4,
{
    assert(d <= 1020 ==> d << 1u32 == d * 2 && d << 2u32 == d * 4) by (bit_vector);
}

/// The exterior and interior edge weights of a corner, in that order.
fn edge_weights(
    pe: u32, pi: u32, ph: u32, pf: u32, pg: u32, pc: u32, pd: u32, pb: u32, f4: u32, i4: u32, h5: u32, i5: u32,
) -> (weights: (u32, u32))
    ensures
        weights.0 == exterior_weight(pe, pi, ph, pf, pg, pc, f4, h5),
        weights.1 == interior_weight(pe, pi, ph, pf, pd, pb, i4, i5),
{
    let d_hf = pixel_diff(ph, pf);
    let d_ei = pixel_diff(pe, pi);
    proof {
        lemma_shl_small(d_hf);
        lemma_shl_small(d_ei);
    }
    let exterior = pixel_diff(pe, pc) + pixel_diff(pe, pg) + pixel_diff(pi, h5) + pixel_diff(pi, f4) + (d_hf << 2);
    let interior = pixel_diff(ph, pd) + pixel_diff(ph, i5) + pixel_diff(pf, i4) + pixel_diff(pf, pb) + (d_ei << 2);
    (exterior, interior)
}

/// Whether the edge runs shallow (`.0`) and steep (`.1`) at the corner.
fn edge_direction(pe: u32, ph: u32, pf: u32, pg: u32, pc: u32, pd: u32, pb: u32) -> (direction: (bool, bool))
    ensures
        direction.0 == edge_left(pe, ph, pf, pg, pc, pd),
        direction.1 == edge_up(pe, ph, pf, pg, pc, pb),
{
    let ke = pixel_diff(pf, pg);
    let ki = pixel_diff(ph, pc);
    proof {
        lemma_shl_small(ke);
        lemma_shl_small(ki);
    }
    let left = (ke << 1) <= ki && pe != pg && pd != pg;
    let up = ke >= (ki << 1) && pe != pc && pb != pc;
    (left, up)
}

/// Applies the 2x rule to the corner pixel `n3` of block `e`, with neighbours `n1` and `n2`.
pub fn filt2(
    e: &mut [u32],
    pe: u32,
    pi: u32,
    ph: u32,
    pf: u32,
    pg: u32,
    pc: u32,
    pd: u32,
    pb: u32,
    f4: u32,
    i4: u32,
    h5: u32,
    i5: u32,
    _n0: usize,
    n1: usize,
    n2: usize,
    n3: usize,
)
    requires
        n1 < old(e)@.len(),
        n2 < old(e)@.len(),
        n3 < old(e)@.len(),
    ensures
        final(e)@.len() == old(e)@.len(),
        final(e)@ == spec_filt2(old(e)@, pe, pi, ph, pf, pg, pc, pd, pb, f4, i4, h5, i5, n1 as int, n2 as int, n3 as int),
{
    reveal(spec_filt2);
    if pe != ph && pe != pf {
        let (exterior, interior) = edge_weights(pe, pi, ph, pf, pg, pc, pd, pb, f4, i4, h5, i5);
        if exterior <= interior {
            let px = if pixel_diff(pe, pf) <= pixel_diff(pe, ph) {
                pf
            } else {
                ph
            };
            if exterior < interior && ((!equal(pf, pb) && !equal(ph, pd)) || (equal(pe, pi) && (!equal(pf, i4)
                && !equal(ph, i5))) || equal(pe, pg) || equal(pe, pc)) {
                let (left, up) = edge_direction(pe, ph, pf, pg, pc, pd, pb);
                if left && up {
                    e[n3] = alpha_blend_224(e[n3], px);
                    e[n2] = alpha_blend_64(e[n2], px);
                    e[n1] = e[n2];
                } else if left {
                    e[n3] = alpha_blend_192(e[n3], px);
                    e[n2] = alpha_blend_64(e[n2], px);
                } else if up {
                    e[n3] = alpha_blend_192(e[n3], px);
                    e[n1] = alpha_blend_64(e[n1], px);
                } else {
                    e[n3] = alpha_blend_128(e[n3], px);
                }
            } else {
                e[n3] = alpha_blend_128(e[n3], px);
            }
        }
    }
}

/// Applies the 3x rule to the corner pixel `n8` of block `e`.
pub fn filt3(
    e: &mut [u32],
    pe: u32,
    pi: u32,
    ph: u32,
    pf: u32,
    pg: u32,
    pc: u32,
    pd: u32,
    pb: u32,
    f4: u32,
    i4: u32,
    h5: u32,
    i5: u32,
    _n0: usize,
    _n1: usize,
    n2: usize,
    _n3: usize,
    _n4: usize,
    n5: usize,
    n6: usize,
    n7: usize,
    n8: usize,
)
    requires
        n2 < old(e)@.len(),
        n5 < old(e)@.len(),
        n6 < old(e)@.len(),
        n7 < old(e)@.len(),
        n8 < old(e)@.len(),
    ensures
        final(e)@.len() == old(e)@.len(),
        final(e)@ == spec_filt3(
            old(e)@,
            pe,
            pi,
            ph,
            pf,
            pg,
            pc,
            pd,
            pb,
            f4,
            i4,
            h5,
            i5,
            n2 as int,
            n5 as int,
            n6 as int,
            n7 as int,
            n8 as int,
        ),
{
    reveal(spec_filt3);
    if pe != ph && pe != pf {
        let (exterior, interior) = edge_weights(pe, pi, ph, pf, pg, pc, pd, pb, f4, i4, h5, i5);
        if exterior <= interior {
            let px = if pixel_diff(pe, pf) <= pixel_diff(pe, ph) {
                pf
            } else {
                ph
            };
            if exterior < interior && ((!equal(pf, pb) && !equal(pf, pc)) || (!equal(ph, pd) && !equal(ph, pg)) || (
            equal(pe, pi) && ((!equal(pf, f4) && !equal(pf, i4)) || (!equal(ph, h5) && !equal(ph, i5))))
                || equal(pe, pg) || equal(pe, pc)) {
                let (left, up) = edge_direction(pe, ph, pf, pg, pc, pd, pb);
                if left && up {
                    e[n7] = alpha_blend_192(e[n7], px);
                    e[n6] = alpha_blend_64(e[n6], px);
                    e[n5] = e[n7];
                    e[n2] = e[n6];
                    e[n8] = px;
                } else if left {
                    e[n7] = alpha_blend_192(e[n7], px);
                    e[n5] = alpha_blend_64(e[n5], px);
                    e[n6] = alpha_blend_64(e[n6], px);
                    e[n8] = px;
                } else if up {
                    e[n5] = alpha_blend_192(e[n5], px);
                    e[n7] = alpha_blend_64(e[n7], px);
                    e[n2] = alpha_blend_64(e[n2], px);
                    e[n8] = px;
                } else {
                    e[n8] = alpha_blend_224(e[n8], px);
                    e[n5] = alpha_blend_32(e[n5], px);
                    e[n7] = alpha_blend_32(e[n7], px);
                }
            } else {
                e[n8] = alpha_blend_128(e[n8], px);
            }
        }
    }
}

/// Applies the 4x rule to the corner pixel `n15` of block `e`.
pub fn filt4(
    e: &mut [u32],
    pe: u32,
    pi: u32,
    ph: u32,
    pf: u32,
    pg: u32,
    pc: u32,
    pd: u32,
    pb: u32,
    f4: u32,
    i4: u32,
    h5: u32,
    i5: u32,
    n15: usize,
    n14: usize,
    n11: usize,
    n3: usize,
    n7: usize,
    n10: usize,
    n13: usize,
    n12: usize,
    _n9: usize,
    _n6: usize,
    _n2: usize,
    _n1: usize,
    _n5: usize,
    _n8: usize,
    _n4: usize,
    _n0: usize,
)
    requires
        n15 < old(e)@.len(),
        n14 < old(e)@.len(),
        n11 < old(e)@.len(),
        n3 < old(e)@.len(),
        n7 < old(e)@.len(),
        n10 < old(e)@.len(),
        n13 < old(e)@.len(),
        n12 < old(e)@.len(),
    ensures
        final(e)@.len() == old(e)@.len(),
        final(e)@ == spec_filt4(
            old(e)@,
            pe,
            pi,
            ph,
            pf,
            pg,
            pc,
            pd,
            pb,
            f4,
            i4,
            h5,
            i5,
            n15 as int,
            n14 as int,
            n11 as int,
            n3 as int,
            n7 as int,
            n10 as int,
            n13 as int,
            n12 as int,
        ),
{
    reveal(spec_filt4);
    if pe != ph && pe != pf {
        let (exterior, interior) = edge_weights(pe, pi, ph, pf, pg, pc, pd, pb, f4, i4, h5, i5);
        if exterior <= interior {
            let px = if pixel_diff(pe, pf) <= pixel_diff(pe, ph) {
                pf
            } else {
                ph
            };
            if exterior < interior && ((!equal(pf, pb) && !equal(ph, pd)) || (equal(pe, pi) && (!equal(pf, i4)
                && !equal(ph, i5))) || equal(pe, pg) || equal(pe, pc)) {
                let (left, up) = edge_direction(pe, ph, pf, pg, pc, pd, pb);
                if left && up {
                    e[n13] = alpha_blend_192(e[n13], px);
                    e[n12] = alpha_blend_64(e[n12], px);
                    e[n15] = px;
                    e[n14] = px;
                    e[n11] = px;
                    e[n10] = e[n12];
                    e[n3] = e[n12];
                    e[n7] = e[n13];
                } else if left {
                    e[n11] = alpha_blend_192(e[n11], px);
                    e[n13] = alpha_blend_192(e[n13], px);
                    e[n10] = alpha_blend_64(e[n10], px);
                    e[n12] = alpha_blend_64(e[n12], px);
                    e[n14] = px;
                    e[n15] = px;
                } else if up {
                    e[n14] = alpha_blend_192(e[n14], px);
                    e[n7] = alpha_blend_192(e[n7], px);
                    e[n10] = alpha_blend_64(e[n10], px);
                    e[n3] = alpha_blend_64(e[n3], px);
                    e[n11] = px;
                    e[n15] = px;
                } else {
                    e[n11] = alpha_blend_128(e[n11], px);
                    e[n14] = alpha_blend_128(e[n14], px);
                    e[n15] = px;
                }
            } else {
                e[n15] = alpha_blend_128(e[n15], px);
            }
        }
    }
}

/// `v` clamped into `0..n`.
pub open spec fn clamp_coord(v: int, n: int) -> int {
    if v < 0 {
        0
    } else if v > n - 1 {
        n - 1
    } else {
        v
    }
}

/// The input pixel at `(x + dx, y + dy)`, the coordinates clamped to the image.
pub open spec fn spec_sample(input: Seq<u32>, width: int, height: int, x: int, y: int, dx: int, dy: int) -> u32 {
    input[clamp_coord(y + dy, height) * width + clamp_coord(x + dx, width)]
}

proof fn lemma_grid_index(row: int, col: int, width: int, height: int)
    requires
        0 <= row < height,
        0 <= col < width,
    ensures
        0 <= row * width + col < width * height,
        row * width <= width * height,
{
    assert(0 <= row * width + col < width * height && row * width <= width * height) by (nonlinear_arith)
        requires
            0 <= row < height,
            0 <= col < width,
    ;
}

/// `v + d` clamped into `0..n`.
fn clamp_offset(v: usize, d: isize, n: usize) -> (clamped: usize)
    requires
        n >= 1,
    ensures
        clamped == clamp_coord(v + d, n as int),
{
    let moved: usize = if d >= 0 {
        let step = d as usize;
        if v > usize::MAX - step {
            usize::MAX
        } else {
            v + step
        }
    } else {
        let step = (-(d + 1)) as usize + 1;
        if v < step {
            0
        } else {
            v - step
        }
    };
    if moved < n - 1 {
        moved
    } else {
        n - 1
    }
}

/// The input pixel at `(x + dx, y + dy)`, the coordinates clamped to the image.
pub fn sample(input: &[u32], width: usize, height: usize, x: usize, y: usize, dx: isize, dy: isize) -> (pixel: u32)
    requires
        width >= 1,
        height >= 1,
        width * height <= input@.len(),
    ensures
        pixel == spec_sample(input@, width as int, height as int, x as int, y as int, dx as int, dy as int),
{
    let len = input.len();
    let sx = clamp_offset(x, dx, width);
    let sy = clamp_offset(y, dy, height);
    proof {
        lemma_grid_index(sy as int, sx as int, width as int, height as int);
    }
    input[sy * width + sx]
}

/// The `s` x `s` block (row-major, stride `s`) that xBR makes of input pixel `(x, y)`: the
/// pixel repeated, then each of its four corners smoothed along the edges around it.
pub open spec fn xbr_block(input: Seq<u32>, w: int, h: int, s: int, x: int, y: int) -> Seq<u32> {
    let b1 = spec_sample(input, w, h, x, y, 0, -2);
    let pb = spec_sample(input, w, h, x, y, 0, -1);
    let pe = spec_sample(input, w, h, x, y, 0, 0);
    let ph = spec_sample(input, w, h, x, y, 0, 1);
    let h5 = spec_sample(input, w, h, x, y, 0, 2);
    let a1 = spec_sample(input, w, h, x, y, -1, -2);
    let pa = spec_sample(input, w, h, x, y, -1, -1);
    let pd = spec_sample(input, w, h, x, y, -1, 0);
    let pg = spec_sample(input, w, h, x, y, -1, 1);
    let g5 = spec_sample(input, w, h, x, y, -1, 2);
    let a0 = spec_sample(input, w, h, x, y, -2, -1);
    let d0 = spec_sample(input, w, h, x, y, -2, 0);
    let g0 = spec_sample(input, w, h, x, y, -2, 1);
    let c1 = spec_sample(input, w, h, x, y, 1, -2);
    let pc = spec_sample(input, w, h, x, y, 1, -1);
    let pf = spec_sample(input, w, h, x, y, 1, 0);
    let pi = spec_sample(input, w, h, x, y, 1, 1);
    let i5 = spec_sample(input, w, h, x, y, 1, 2);
    let c4 = spec_sample(input, w, h, x, y, 2, -1);
    let f4 = spec_sample(input, w, h, x, y, 2, 0);
    let i4 = spec_sample(input, w, h, x, y, 2, 1);
    let nl = s;
    let nl1 = nl + nl;
    let nl2 = nl1 + nl;
    let e0 = Seq::new(16, |i: int| pe);
    if s == 2 {
        let e1 = spec_filt2(e0, pe, pi, ph, pf, pg, pc, pd, pb, f4, i4, h5, i5, 1, nl, nl + 1);
        let e2 = spec_filt2(e1, pe, pc, pf, pb, pi, pa, ph, pd, b1, c1, f4, c4, 0, nl + 1, 1);
        let e3 = spec_filt2(e2, pe, pa, pb, pd, pc, pg, pf, ph, d0, a0, b1, a1, nl, 1, 0);
        spec_filt2(e3, pe, pg, pd, ph, pa, pi, pb, pf, h5, g5, d0, g0, nl + 1, 0, nl)
    } else if s == 3 {
        let e1 = spec_filt3(e0, pe, pi, ph, pf, pg, pc, pd, pb, f4, i4, h5, i5, 2, nl + 2, nl1, nl1 + 1, nl1 + 2);
        let e2 = spec_filt3(e1, pe, pc, pf, pb, pi, pa, ph, pd, b1, c1, f4, c4, 0, 1, nl1 + 2, nl + 2, 2);
        let e3 = spec_filt3(e2, pe, pa, pb, pd, pc, pg, pf, ph, d0, a0, b1, a1, nl1, nl, 2, 1, 0);
        spec_filt3(e3, pe, pg, pd, ph, pa, pi, pb, pf, h5, g5, d0, g0, nl1 + 2, nl1 + 1, 0, nl, nl1)
    } else {
        let e1 = spec_filt4(
            e0,
            pe,
            pi,
            ph,
            pf,
            pg,
            pc,
            pd,
            pb,
            f4,
            i4,
            h5,
            i5,
            nl2 + 3,
            nl2 + 2,
            nl1 + 3,
            3,
            nl + 3,
            nl1 + 2,
            nl2 + 1,
            nl2,
        );
        let e2 = spec_filt4(
            e1,
            pe,
            pc,
            pf,
            pb,
            pi,
            pa,
            ph,
            pd,
            b1,
            c1,
            f4,
            c4,
            3,
            nl + 3,
            2,
            0,
            1,
            nl + 2,
            nl1 + 3,
            nl2 + 3,
        );
        let e3 = spec_filt4(e2, pe, pa, pb, pd, pc, pg, pf, ph, d0, a0, b1, a1, 0, 1, nl, nl2, nl1, nl + 1, 2, 3);
        spec_filt4(
            e3,
            pe,
            pg,
            pd,
            ph,
            pa,
            pi,
            pb,
            pf,
            h5,
            g5,
            d0,
            g0,
            nl2,
            nl1,
            nl2 + 1,
            nl2 + 3,
            nl2 + 2,
            nl1 + 1,
            nl,
            0,
        )
    }
}

/// Pixel `k` of the upscaled image (row `k / (w * s)`, column `k % (w * s)`): pixel
/// `(row % s, column % s)` of the block of input pixel `(column / s, row / s)`.
pub open spec fn spec_upscaled_pixel(input: Seq<u32>, w: int, h: int, s: int, k: int) -> u32 {
    let row = k / (w * s);
    let col = k % (w * s);
    xbr_block(input, w, h, s, col / s, row / s)[(row % s) * s + col % s]
}

/// Output pixel `k` lies in a block filled before pixel `(r, c)` of the block of input pixel
/// `(x, y)`: blocks are filled row by row of input pixels, each block row by row.
pub open spec fn filled_before(k: int, ow: int, s: int, y: int, x: int, r: int, c: int) -> bool {
    let row = k / ow;
    let col = k % ow;
    let by = row / s;
    let bx = col / s;
    let br = row % s;
    let bc = col % s;
    by < y || (by == y && (bx < x || (bx == x && (br < r || (br == r && bc < c)))))
}

proof fn lemma_output_index(w: int, h: int, s: int, k: int)
    requires
        w >= 1,
        h >= 1,
        s >= 1,
        0 <= k < w * h * s * s,
    ensures
        0 <= k / (w * s) < h * s,
        0 <= k % (w * s) < w * s,
        0 <= (k / (w * s)) / s < h,
        0 <= (k % (w * s)) / s < w,
        0 <= (k / (w * s)) % s < s,
        0 <= (k % (w * s)) % s < s,
        k == (((k / (w * s)) / s) * s + (k / (w * s)) % s) * (w * s) + ((k % (w * s)) / s) * s + (k % (w * s)) % s,
{
    let ow = w * s;
    let row = k / ow;
    let col = k % ow;
    assert(w * s >= 1) by (nonlinear_arith)
        requires
            w >= 1,
            s >= 1,
    ;
    assert(w * h * s * s == (h * s) * ow) by (nonlinear_arith)
        requires
            ow == w * s,
    ;
    vstd::arithmetic::div_mod::lemma_fundamental_div_mod(k, ow);
    vstd::arithmetic::div_mod::lemma_mod_pos_bound(k, ow);
    vstd::arithmetic::div_mod::lemma_div_pos_is_pos(k, ow);
    assert(row < h * s) by (nonlinear_arith)
        requires
            k == ow * row + col,
            0 <= col,
            k < (h * s) * ow,
            ow >= 1,
    ;
    vstd::arithmetic::div_mod::lemma_fundamental_div_mod(row, s);
    vstd::arithmetic::div_mod::lemma_mod_pos_bound(row, s);
    vstd::arithmetic::div_mod::lemma_div_pos_is_pos(row, s);
    vstd::arithmetic::div_mod::lemma_fundamental_div_mod(col, s);
    vstd::arithmetic::div_mod::lemma_mod_pos_bound(col, s);
    vstd::arithmetic::div_mod::lemma_div_pos_is_pos(col, s);
    assert(row / s < h) by (nonlinear_arith)
        requires
            row == s * (row / s) + row % s,
            0 <= row % s,
            row < h * s,
            s >= 1,
    ;
    assert(col / s < w) by (nonlinear_arith)
        requires
            col == s * (col / s) + col % s,
            0 <= col % s,
            col < ow,
            ow == w * s,
            s >= 1,
    ;
    assert(k == ((row / s) * s + row % s) * ow + (col / s) * s + col % s) by (nonlinear_arith)
        requires
            k == ow * row + col,
            row == s * (row / s) + row % s,
            col == s * (col / s) + col % s,
    ;
}

proof fn lemma_block_position(w: int, h: int, s: int, y: int, x: int, r: int, c: int)
    requires
        w >= 1,
        h >= 1,
        s >= 1,
        0 <= y < h,
        0 <= x < w,
        0 <= r < s,
        0 <= c < s,
    ensures
        0 <= y * s <= y * s + r,
        y * s + r <= (y * s + r) * (w * s),
        0 <= x * s <= x * s + c,
        0 <= (y * s + r) * (w * s) + x * s + c < w * h * s * s,
        ((y * s + r) * (w * s) + x * s + c) / (w * s) == y * s + r,
        ((y * s + r) * (w * s) + x * s + c) % (w * s) == x * s + c,
        (y * s + r) / s == y,
        (y * s + r) % s == r,
        (x * s + c) / s == x,
        (x * s + c) % s == c,
{
    let ow = w * s;
    assert(0 <= y * s && 0 <= x * s && ow >= 1) by (nonlinear_arith)
        requires
            0 <= y,
            0 <= x,
            w >= 1,
            s >= 1,
            ow == w * s,
    ;
    assert(x * s + c < ow) by (nonlinear_arith)
        requires
            x < w,
            0 <= c < s,
            ow == w * s,
    ;
    assert(y * s + r < h * s) by (nonlinear_arith)
        requires
            y < h,
            0 <= r < s,
    ;
    assert(y * s + r <= (y * s + r) * ow) by (nonlinear_arith)
        requires
            0 <= y * s + r,
            ow >= 1,
    ;
    assert((y * s + r) * ow + x * s + c < w * h * s * s) by (nonlinear_arith)
        requires
            y * s + r < h * s,
            0 <= x * s + c < ow,
            ow == w * s,
            0 <= y * s + r,
    ;
    vstd::arithmetic::div_mod::lemma_fundamental_div_mod_converse((y * s + r) * ow + x * s + c, ow, y * s + r, x * s + c);
    vstd::arithmetic::div_mod::lemma_fundamental_div_mod_converse(y * s + r, s, y, r);
    vstd::arithmetic::div_mod::lemma_fundamental_div_mod_converse(x * s + c, s, x, c);
}

/// The xBR block of input pixel `(x, y)`, row-major with stride `scale` in a buffer of 16.
fn xbr_block_at(input: &[u32], width: usize, height: usize, scale: usize, x: usize, y: usize) -> (block: Vec<u32>)
    requires
        2 <= scale <= 4,
        x < width,
        y < height,
        input@.len() == width * height,
    ensures
        block@ == xbr_block(input@, width as int, height as int, scale as int, x as int, y as int),
        block@.len() == 16,
{
    let b1 = sample(input, width, height, x, y, 0, -2);
    let pb = sample(input, width, height, x, y, 0, -1);
    let pe = sample(input, width, height, x, y, 0, 0);
    let ph = sample(input, width, height, x, y, 0, 1);
    let h5 = sample(input, width, height, x, y, 0, 2);

    let a1 = sample(input, width, height, x, y, -1, -2);
    let pa = sample(input, width, height, x, y, -1, -1);
    let pd = sample(input, width, height, x, y, -1, 0);
    let pg = sample(input, width, height, x, y, -1, 1);
    let g5 = sample(input, width, height, x, y, -1, 2);

    let a0 = sample(input, width, height, x, y, -2, -1);
    let d0 = sample(input, width, height, x, y, -2, 0);
    let g0 = sample(input, width, height, x, y, -2, 1);

    let c1 = sample(input, width, height, x, y, 1, -2);
    let pc = sample(input, width, height, x, y, 1, -1);
    let pf = sample(input, width, height, x, y, 1, 0);
    let pi = sample(input, width, height, x, y, 1, 1);
    let i5 = sample(input, width, height, x, y, 1, 2);

    let c4 = sample(input, width, height, x, y, 2, -1);
    let f4 = sample(input, width, height, x, y, 2, 0);
    let i4 = sample(input, width, height, x, y, 2, 1);

    let nl = scale;
    let nl1 = nl + nl;
    let nl2 = nl1 + nl;
    let mut block: Vec<u32> = vec![pe; 16];
    assert(block@ =~= Seq::new(16, |i: int| pe));
    if scale == 2 {
        filt2(block.as_mut_slice(), pe, pi, ph, pf, pg, pc, pd, pb, f4, i4, h5, i5, 0, 1, nl, nl + 1);
        filt2(block.as_mut_slice(), pe, pc, pf, pb, pi, pa, ph, pd, b1, c1, f4, c4, nl, 0, nl + 1, 1);
        filt2(block.as_mut_slice(), pe, pa, pb, pd, pc, pg, pf, ph, d0, a0, b1, a1, nl + 1, nl, 1, 0);
        filt2(block.as_mut_slice(), pe, pg, pd, ph, pa, pi, pb, pf, h5, g5, d0, g0, 1, nl + 1, 0, nl);
    } else if scale == 3 {
        filt3(
            block.as_mut_slice(),
            pe,
            pi,
            ph,
            pf,
            pg,
            pc,
            pd,
            pb,
            f4,
            i4,
            h5,
            i5,
            0,
            1,
            2,
            nl,
            nl + 1,
            nl + 2,
            nl1,
            nl1 + 1,
            nl1 + 2,
        );
        filt3(
            block.as_mut_slice(),
            pe,
            pc,
            pf,
            pb,
            pi,
            pa,
            ph,
            pd,
            b1,
            c1,
            f4,
            c4,
            nl1,
            nl,
            0,
            nl1 + 1,
            nl + 1,
            1,
            nl1 + 2,
            nl + 2,
            2,
        );
        filt3(
            block.as_mut_slice(),
            pe,
            pa,
            pb,
            pd,
            pc,
            pg,
            pf,
            ph,
            d0,
            a0,
            b1,
            a1,
            nl1 + 2,
            nl1 + 1,
            nl1,
            nl + 2,
            nl + 1,
            nl,
            2,
            1,
            0,
        );
        filt3(
            block.as_mut_slice(),
            pe,
            pg,
            pd,
            ph,
            pa,
            pi,
            pb,
            pf,
            h5,
            g5,
            d0,
            g0,
            2,
            nl + 2,
            nl1 + 2,
            1,
            nl + 1,
            nl1 + 1,
            0,
            nl,
            nl1,
        );
    } else {
        filt4(
            block.as_mut_slice(),
            pe,
            pi,
            ph,
            pf,
            pg,
            pc,
            pd,
            pb,
            f4,
            i4,
            h5,
            i5,
            nl2 + 3,
            nl2 + 2,
            nl1 + 3,
            3,
            nl + 3,
            nl1 + 2,
            nl2 + 1,
            nl2,
            nl1 + 1,
            nl + 2,
            2,
            1,
            nl + 1,
            nl1,
            nl,
            0,
        );
        filt4(
            block.as_mut_slice(),
            pe,
            pc,
            pf,
            pb,
            pi,
            pa,
            ph,
            pd,
            b1,
            c1,
            f4,
            c4,
            3,
            nl + 3,
            2,
            0,
            1,
            nl + 2,
            nl1 + 3,
            nl2 + 3,
            nl1 + 2,
            nl + 1,
            nl,
            nl1,
            nl1 + 1,
            nl2 + 2,
            nl2 + 1,
            nl2,
        );
        filt4(
            block.as_mut_slice(),
            pe,
            pa,
            pb,
            pd,
            pc,
            pg,
            pf,
            ph,
            d0,
            a0,
            b1,
            a1,
            0,
            1,
            nl,
            nl2,
            nl1,
            nl + 1,
            2,
            3,
            nl + 2,
            nl1 + 1,
            nl2 + 1,
            nl2 + 2,
            nl1 + 2,
            nl + 3,
            nl1 + 3,
            nl2 + 3,
        );
        filt4(
            block.as_mut_slice(),
            pe,
            pg,
            pd,
            ph,
            pa,
            pi,
            pb,
            pf,
            h5,
            g5,
            d0,
            g0,
            nl2,
            nl1,
            nl2 + 1,
            nl2 + 3,
            nl2 + 2,
            nl1 + 1,
            nl,
            0,
            nl + 1,
            nl1 + 2,
            nl1 + 3,
            nl + 3,
            nl + 2,
            1,
            2,
            3,
        );
    }
    block
}

/// Upscales a `width` x `height` image by `scale` (2, 3 or 4) with the xBR edge smoothing
/// filter. Refuses, writing nothing, a scale outside 2..=4 or buffers of the wrong lengths.
pub fn upscale(input: &[u32], width: usize, height: usize, scale: usize, output: &mut [u32]) -> (done: bool)
    requires
        2 <= scale <= 4 ==> width * height <= usize::MAX,
        2 <= scale <= 4 && input@.len() == width * height ==> width * height * scale * scale <= usize::MAX,
        2 <= scale <= 4 && input@.len() == width * height && old(output)@.len() == width * height * scale * scale
            ==> width * scale <= usize::MAX,
    ensures
        done == (2 <= scale <= 4 && input@.len() == width * height && old(output)@.len() == width * height * scale
            * scale),
        final(output)@.len() == old(output)@.len(),
        !done ==> final(output)@ == old(output)@,
        done ==> forall|k: int|
            0 <= k < final(output)@.len() ==> #[trigger] final(output)@[k] == spec_upscaled_pixel(
                input@,
                width as int,
                height as int,
                scale as int,
                k,
            ),
{
    if !(2 <= scale && scale <= 4) {
        return false;
    }
    if input.len() != width * height {
        return false;
    }
    assert(width * height * scale <= width * height * scale * scale) by (nonlinear_arith)
        requires
            2 <= scale,
    ;
    if output.len() != width * height * scale * scale {
        return false;
    }
    let output_width = width * scale;
    let ghost w = width as int;
    let ghost h = height as int;
    let ghost sc = scale as int;
    let ghost ow = output_width as int;
    assert forall|k: int| 0 <= k < output@.len() implies !filled_before(k, ow, sc, 0, 0, 0, 0) by {
        assert(width >= 1 && height >= 1) by (nonlinear_arith)
            requires
                0 <= k < width * height * scale * scale,
        ;
        lemma_output_index(w, h, sc, k);
    }
    let mut y: usize = 0;
    while y < height
        invariant
            2 <= scale <= 4,
            input@.len() == width * height,
            output@.len() == width * height * scale * scale,
            width * height * scale * scale <= usize::MAX,
            output_width == width * scale,
            w == width,
            h == height,
            sc == scale,
            ow == output_width,
            y <= height,
            forall|k: int|
                0 <= k < output@.len() ==> #[trigger] output@[k] == if filled_before(k, ow, sc, y as int, 0, 0, 0) {
                    spec_upscaled_pixel(input@, w, h, sc, k)
                } else {
                    old(output)@[k]
                },
        decreases height - y,
    {
        let mut x: usize = 0;
        while x < width
            invariant
                2 <= scale <= 4,
                input@.len() == width * height,
                output@.len() == width * height * scale * scale,
                width * height * scale * scale <= usize::MAX,
            width * height * scale * scale <= usize::MAX,
                output_width == width * scale,
                w == width,
                h == height,
                sc == scale,
                ow == output_width,
                y < height,
                x <= width,
                forall|k: int|
                    0 <= k < output@.len() ==> #[trigger] output@[k] == if filled_before(k, ow, sc, y as int, x as int, 0, 0) {
                        spec_upscaled_pixel(input@, w, h, sc, k)
                    } else {
                        old(output)@[k]
                    },
            decreases width - x,
        {
            let block = xbr_block_at(input, width, height, scale, x, y);
            let mut r: usize = 0;
            while r < scale
                invariant
                    2 <= scale <= 4,
                    input@.len() == width * height,
                    output@.len() == width * height * scale * scale,
                    width * height * scale * scale <= usize::MAX,
                width * height * scale * scale <= usize::MAX,
            width * height * scale * scale <= usize::MAX,
                    output_width == width * scale,
                    w == width,
                    h == height,
                    sc == scale,
                    ow == output_width,
                    y < height,
                    x < width,
                    r <= scale,
                    block@ == xbr_block(input@, w, h, sc, x as int, y as int),
                    block@.len() == 16,
                    forall|k: int|
                        0 <= k < output@.len() ==> #[trigger] output@[k] == if filled_before(k, ow, sc, y as int, x as int, r as int, 0) {
                            spec_upscaled_pixel(input@, w, h, sc, k)
                        } else {
                            old(output)@[k]
                        },
                decreases scale - r,
            {
                let mut c: usize = 0;
                while c < scale
                    invariant
                        2 <= scale <= 4,
                        input@.len() == width * height,
                        output@.len() == width * height * scale * scale,
                        width * height * scale * scale <= usize::MAX,
                    width * height * scale * scale <= usize::MAX,
                width * height * scale * scale <= usize::MAX,
            width * height * scale * scale <= usize::MAX,
                        output_width == width * scale,
                        w == width,
                        h == height,
                        sc == scale,
                        ow == output_width,
                        y < height,
                        x < width,
                        r < scale,
                        c <= scale,
                        block@ == xbr_block(input@, w, h, sc, x as int, y as int),
                        block@.len() == 16,
                    block@.len() == 16,
                        forall|k: int|
                            0 <= k < output@.len() ==> #[trigger] output@[k] == if filled_before(k, ow, sc, y as int, x as int, r as int, c as int) {
                                spec_upscaled_pixel(input@, w, h, sc, k)
                            } else {
                                old(output)@[k]
                            },
                    decreases scale - c,
                {
                    proof {
                        lemma_block_position(w, h, sc, y as int, x as int, r as int, c as int);
                        assert(r * scale + c < 16) by (nonlinear_arith)
                            requires
                                r < scale,
                                c < scale,
                                scale <= 4,
                        ;
                    }
                    let k0 = (y * scale + r) * output_width + x * scale + c;
                    let ghost before = output@;
                    output[k0] = block[r * scale + c];
                    proof {
                        assert forall|k: int| 0 <= k < output@.len() implies #[trigger] output@[k] == if filled_before(
                            k,
                            ow,
                            sc,
                            y as int,
                            x as int,
                            r as int,
                            c + 1,
                        ) {
                            spec_upscaled_pixel(input@, w, h, sc, k)
                        } else {
                            old(output)@[k]
                        } by {
                            lemma_output_index(w, h, sc, k);
                            if k != k0 {
                                assert(before[k] == output@[k]);
                            }
                        }
                    }
                    c += 1;
                }
                proof {
                    assert forall|k: int| 0 <= k < output@.len() implies #[trigger] output@[k] == if filled_before(
                        k,
                        ow,
                        sc,
                        y as int,
                        x as int,
                        r + 1,
                        0,
                    ) {
                        spec_upscaled_pixel(input@, w, h, sc, k)
                    } else {
                        old(output)@[k]
                    } by {
                        lemma_output_index(w, h, sc, k);
                    }
                }
                r += 1;
            }
            proof {
                assert forall|k: int| 0 <= k < output@.len() implies #[trigger] output@[k] == if filled_before(
                    k,
                    ow,
                    sc,
                    y as int,
                    x + 1,
                    0,
                    0,
                ) {
                    spec_upscaled_pixel(input@, w, h, sc, k)
                } else {
                    old(output)@[k]
                } by {
                    lemma_output_index(w, h, sc, k);
                }
            }
            x += 1;
        }
        proof {
            assert forall|k: int| 0 <= k < output@.len() implies #[trigger] output@[k] == if filled_before(
                k,
                ow,
                sc,
                y + 1,
                0,
                0,
                0,
            ) {
                spec_upscaled_pixel(input@, w, h, sc, k)
            } else {
                old(output)@[k]
            } by {
                if width >= 1 {
                    lemma_output_index(w, h, sc, k);
                }
            }
        }
        y += 1;
    }
    proof {
        assert forall|k: int| 0 <= k < output@.len() implies #[trigger] output@[k] == spec_upscaled_pixel(input@, w, h, sc, k) by {
            assert(width >= 1 && height >= 1) by (nonlinear_arith)
                requires
                    0 <= k < width * height * scale * scale,
            ;
            lemma_output_index(w, h, sc, k);
        }
    }
    true
}

proof fn lemma_uniform_block(input: Seq<u32>, w: int, h: int, s: int, x: int, y: int, colour: u32)
    requires
        w >= 1,
        h >= 1,
        2 <= s <= 4,
        input.len() == w * h,
        forall|i: int| 0 <= i < input.len() ==> input[i] == colour,
    ensures
        xbr_block(input, w, h, s, x, y) == Seq::new(16, |i: int| colour),
{
    assert forall|dx: int, dy: int| #[trigger] spec_sample(input, w, h, x, y, dx, dy) == colour by {
        lemma_grid_index(clamp_coord(y + dy, h), clamp_coord(x + dx, w), w, h);
    }
    reveal(spec_filt2);
    reveal(spec_filt3);
    reveal(spec_filt4);
    assert(spec_sample(input, w, h, x, y, 0, 0) == colour);
    assert(spec_sample(input, w, h, x, y, 0, 1) == colour);
    assert(spec_sample(input, w, h, x, y, -1, 0) == colour);
    assert(spec_sample(input, w, h, x, y, 0, -1) == colour);
    assert(spec_sample(input, w, h, x, y, 1, 0) == colour);
    assert(xbr_block(input, w, h, s, x, y) =~= Seq::new(16, |i: int| colour));
}

/// Law: an image of one colour upscales, at every scale, to an image of that same colour.
pub proof fn lemma_solid_colour_upscales_to_itself(input: Seq<u32>, width: int, height: int, scale: int, colour: u32)
    requires
        2 <= scale <= 4,
        width >= 0,
        height >= 0,
        input.len() == width * height,
        forall|i: int| 0 <= i < input.len() ==> input[i] == colour,
    ensures
        forall|k: int|
            0 <= k < width * height * scale * scale ==> #[trigger] spec_upscaled_pixel(input, width, height, scale, k)
                == colour,
{
    assert forall|k: int| 0 <= k < width * height * scale * scale implies #[trigger] spec_upscaled_pixel(
        input,
        width,
        height,
        scale,
        k,
    ) == colour by {
        assert(width >= 1 && height >= 1) by (nonlinear_arith)
            requires
                0 <= k < width * height * scale * scale,
                width >= 0,
                height >= 0,
        ;
        lemma_output_index(width, height, scale, k);
        let row = k / (width * scale);
        let col = k % (width * scale);
        lemma_uniform_block(input, width, height, scale, col / scale, row / scale, colour);
        assert((row % scale) * scale + col % scale < 16) by (nonlinear_arith)
            requires
                0 <= row % scale < scale,
                0 <= col % scale < scale,
                scale <= 4,
        ;
    }
}

/// Law: blending a colour with itself leaves it unchanged, at every weight.
pub proof fn lemma_alpha_blend_same_colour(a: u32, multiplier: u32, shift: u32)
    requires
        shift < 32,
    ensures
        spec_alpha_blend(a, a, multiplier, shift) == a,
{
    let low_part = a & PART_MASK;
    let high_part = (a >> 8u32) & PART_MASK;
    assert(vstd::wrapping::u32_specs::wrapping_sub(low_part, low_part) == 0);
    assert(vstd::wrapping::u32_specs::wrapping_sub(high_part, high_part) == 0);
    assert(vstd::wrapping::u32_specs::wrapping_mul(0, multiplier) == 0);
    assert(vstd::wrapping::u32_specs::wrapping_add(low_part, 0) == low_part);
    assert(vstd::wrapping::u32_specs::wrapping_add(high_part, 0) == high_part);
    assert(0u32 >> shift == 0 && ((a & 0x00ff_00ff) & 0x00ff_00ff) | ((((a >> 8u32) & 0x00ff_00ff) & 0x00ff_00ff) << 8u32)
        == a) by (bit_vector);
}

} // verus!
