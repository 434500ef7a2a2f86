//! BGRA to YUV colour-space conversion with BT.601 limited-range fixed-point
//! coefficients (shift 8):
//!
//!   Y = 16  + ( 66 R + 129 G +  25 B + 128) >> 8, clamped to [16, 235]
//!   U = 128 + (-38 R -  74 G + 112 B + 128) >> 8, clamped to [16, 240]
//!   V = 128 + (112 R -  94 G -  18 B + 128) >> 8, clamped to [16, 240]
//!
//! Pixels are read as B, G, R, A bytes; alpha is ignored. Chroma is taken from
//! the top-left pixel of every 2x2 block.

use vstd::prelude::*;

verus! {

/// `x` limited to the closed range `[lo, hi]`.
pub open spec fn clamp_int(x: int, lo: int, hi: int) -> int {
    if x < lo {
        lo
    } else if x > hi {
        hi
    } else {
        x
    }
}

/// Luma of one pixel. `/` is floor division, as an arithmetic `>> 8` is.
pub open spec fn luma(b: int, g: int, r: int) -> int {
    clamp_int((66 * r + 129 * g + 25 * b + 128) / 256 + 16, 16, 235)
}

/// Blue-difference chroma of one pixel.
pub open spec fn chroma_u(b: int, g: int, r: int) -> int {
    clamp_int((-38 * r - 74 * g + 112 * b + 128) / 256 + 128, 16, 240)
}

/// Red-difference chroma of one pixel.
pub open spec fn chroma_v(b: int, g: int, r: int) -> int {
    clamp_int((112 * r - 94 * g - 18 * b + 128) / 256 + 128, 16, 240)
}

fn luma_of(b: u8, g: u8, r: u8) -> (y: u8)
    ensures
        y as int == luma(b as int, g as int, r as int),
{
    let t: u32 = 66 * (r as u32) + 129 * (g as u32) + 25 * (b as u32) + 128;
    let raw: u32 = t / 256 + 16;
    let c: u32 = if raw < 16 {
        16
    } else if raw > 235 {
        235
    } else {
        raw
    };
    c as u8
}

fn chroma_u_of(b: u8, g: u8, r: u8) -> (u: u8)
    ensures
        u as int == chroma_u(b as int, g as int, r as int),
{
    // 32768 = 128 * 256 keeps the sum non-negative; dividing it by 256 yields
    // the floored quotient plus the 128 offset.
    let t: u32 = 112 * (b as u32) + 128 + 32768 - 38 * (r as u32) - 74 * (g as u32);
    let raw: u32 = t / 256;
    proof {
        let x: int = -38 * r - 74 * g + 112 * b + 128;
        assert(t as int == x + 128 * 256);
        assert((x + 128 * 256) / 256 == x / 256 + 128) by (nonlinear_arith);
    }
    let c: u32 = if raw < 16 {
        16
    } else if raw > 240 {
        240
    } else {
        raw
    };
    c as u8
}

fn chroma_v_of(b: u8, g: u8, r: u8) -> (v: u8)
    ensures
        v as int == chroma_v(b as int, g as int, r as int),
{
    let t: u32 = 112 * (r as u32) + 128 + 32768 - 94 * (g as u32) - 18 * (b as u32);
    let raw: u32 = t / 256;
    proof {
        let x: int = 112 * r - 94 * g - 18 * b + 128;
        assert(t as int == x + 128 * 256);
        assert((x + 128 * 256) / 256 == x / 256 + 128) by (nonlinear_arith);
    }
    let c: u32 = if raw < 16 {
        16
    } else if raw > 240 {
        240
    } else {
        raw
    };
    c as u8
}

/// Luma of pixel `p` of a BGRA buffer.
pub open spec fn pixel_y(bgra: Seq<u8>, p: int) -> u8 {
    luma(bgra[4 * p] as int, bgra[4 * p + 1] as int, bgra[4 * p + 2] as int) as u8
}

/// U chroma of pixel `p` of a BGRA buffer.
pub open spec fn pixel_u(bgra: Seq<u8>, p: int) -> u8 {
    chroma_u(bgra[4 * p] as int, bgra[4 * p + 1] as int, bgra[4 * p + 2] as int) as u8
}

/// V chroma of pixel `p` of a BGRA buffer.
pub open spec fn pixel_v(bgra: Seq<u8>, p: int) -> u8 {
    chroma_v(bgra[4 * p] as int, bgra[4 * p + 1] as int, bgra[4 * p + 2] as int) as u8
}

/// The frame sizes the converters accept: both dimensions even, or an
/// empty frame.
pub open spec fn conversion_domain(width: int, height: int) -> bool {
    width == 0 || height == 0 || (width % 2 == 0 && height % 2 == 0)
}

/// Index of the source pixel of the `k`-th sample of a half-resolution
/// chroma plane: the top-left pixel of 2x2 block `k`.
pub open spec fn chroma_source(width: int, k: int) -> int {
    2 * (k / (width / 2)) * width + 2 * (k % (width / 2))
}

/// Full-resolution luma plane of a `width` x `height` BGRA frame.
pub open spec fn y_plane_of(bgra: Seq<u8>, width: int, height: int) -> Seq<u8> {
    Seq::new((width * height) as nat, |p: int| pixel_y(bgra, p))
}

/// Half-resolution U plane (I420 layout).
pub open spec fn u_plane_of(bgra: Seq<u8>, width: int, height: int) -> Seq<u8> {
    Seq::new(
        ((width / 2) * (height / 2)) as nat,
        |k: int| pixel_u(bgra, chroma_source(width, k)),
    )
}

/// Half-resolution V plane (I420 layout).
pub open spec fn v_plane_of(bgra: Seq<u8>, width: int, height: int) -> Seq<u8> {
    Seq::new(
        ((width / 2) * (height / 2)) as nat,
        |k: int| pixel_v(bgra, chroma_source(width, k)),
    )
}

proof fn lemma_row_col(j: int, i: int, w: int)
    requires
        0 <= i < w,
        0 <= j,
    ensures
        (j * w + i) / w == j,
        (j * w + i) % w == i,
{
    vstd::arithmetic::div_mod::lemma_fundamental_div_mod_converse(j * w + i, w, j, i);
}

proof fn lemma_block_in_frame(w: int, h: int, j: int, i: int)
    requires
        conversion_domain(w, h),
        0 <= j < h / 2,
        0 <= i < w / 2,
    ensures
        0 <= 2 * j * w + 2 * i,
        2 * j * w + 2 * i + 1 < w * h,
        2 * (j + 1) * w <= w * h,
{
    assert(w % 2 == 0 && h % 2 == 0);
    assert(2 * j + 2 <= h);
    assert(2 * i + 2 <= w);
    assert((2 * j + 2) * w <= h * w) by (nonlinear_arith)
        requires
            2 * j + 2 <= h,
            w >= 0,
    ;
    assert(2 * j * w >= 0) by (nonlinear_arith)
        requires
            j >= 0,
            w >= 0,
    ;
    assert(2 * (j + 1) * w == 2 * j * w + 2 * w) by (nonlinear_arith);
    assert((2 * j + 2) * w == 2 * j * w + 2 * w) by (nonlinear_arith);
    assert(h * w == w * h) by (nonlinear_arith);
}

/// Converts a BGRA frame to planar YUV 4:2:0 (I420): a full-resolution Y
/// plane and half-resolution U and V planes, chroma sampled from the
/// top-left pixel of each 2x2 block. Used by the software encoder.
pub fn bgra_to_yuv420p(bgra: &[u8], width: usize, height: usize) -> (planes: (
    Vec<u8>,
    Vec<u8>,
    Vec<u8>,
))
    requires
        conversion_domain(width as int, height as int),
        width * height * 4 <= usize::MAX,
        bgra@.len() + 1 >= width * height * 4,
    ensures
        planes.0@ == y_plane_of(bgra@, width as int, height as int),
        planes.1@ == u_plane_of(bgra@, width as int, height as int),
        planes.2@ == v_plane_of(bgra@, width as int, height as int),
{
    let pixels = width * height;
    let mut y_plane: Vec<u8> = Vec::with_capacity(pixels);
    let mut p: usize = 0;
    while p < pixels
        invariant
            p <= pixels,
            pixels == width * height,
            pixels * 4 <= usize::MAX,
            bgra@.len() + 1 >= pixels * 4,
            y_plane@.len() == p,
            forall|q: int| 0 <= q < p ==> y_plane@[q] == pixel_y(bgra@, q),
        decreases pixels - p,
    {
        let src = p * 4;
        y_plane.push(luma_of(bgra[src], bgra[src + 1], bgra[src + 2]));
        p += 1;
    }
    assert(y_plane@ =~= y_plane_of(bgra@, width as int, height as int));

    let uv_w = width / 2;
    let uv_h = height / 2;
    proof {
        assert(uv_w * uv_h <= width * height) by (nonlinear_arith)
            requires
                uv_w == width / 2,
                uv_h == height / 2,
        ;
    }
    let mut u_plane: Vec<u8> = Vec::with_capacity(uv_w * uv_h);
    let mut v_plane: Vec<u8> = Vec::with_capacity(uv_w * uv_h);
    let mut j: usize = 0;
    let mut row_base: usize = 0;
    assert(2 * j * width == 0) by (nonlinear_arith)
        requires
            j == 0,
    ;
    while j < uv_h
        invariant
            j <= uv_h,
            uv_w == width / 2,
            uv_h == height / 2,
            conversion_domain(width as int, height as int),
            width * height * 4 <= usize::MAX,
            bgra@.len() + 1 >= width * height * 4,
            row_base == 2 * j * width,
            row_base <= width * height,
            u_plane@.len() == j * uv_w,
            v_plane@.len() == j * uv_w,
            forall|k: int|
                0 <= k < j * uv_w ==> u_plane@[k] == pixel_u(bgra@, chroma_source(width as int, k)),
            forall|k: int|
                0 <= k < j * uv_w ==> v_plane@[k] == pixel_v(bgra@, chroma_source(width as int, k)),
        decreases uv_h - j,
    {
        let mut i: usize = 0;
        while i < uv_w
            invariant
                i <= uv_w,
                j < uv_h,
                uv_w == width / 2,
                uv_h == height / 2,
                conversion_domain(width as int, height as int),
                width * height * 4 <= usize::MAX,
                bgra@.len() + 1 >= width * height * 4,
                row_base == 2 * j * width,
                u_plane@.len() == j * uv_w + i,
                v_plane@.len() == j * uv_w + i,
                forall|k: int|
                    0 <= k < j * uv_w + i ==> u_plane@[k] == pixel_u(
                        bgra@,
                        chroma_source(width as int, k),
                    ),
                forall|k: int|
                    0 <= k < j * uv_w + i ==> v_plane@[k] == pixel_v(
                        bgra@,
                        chroma_source(width as int, k),
                    ),
            decreases uv_w - i,
        {
            proof {
                lemma_block_in_frame(width as int, height as int, j as int, i as int);
                lemma_row_col(j as int, i as int, uv_w as int);
                assert(chroma_source(width as int, j * uv_w + i) == row_base + 2 * i);
            }
            let src = (row_base + 2 * i) * 4;
            let b = bgra[src];
            let g = bgra[src + 1];
            let r = bgra[src + 2];
            u_plane.push(chroma_u_of(b, g, r));
            v_plane.push(chroma_v_of(b, g, r));
            i += 1;
        }
        proof {
            if uv_w > 0 {
                lemma_block_in_frame(width as int, height as int, j as int, 0);
            }
            assert((j + 1) * uv_w == j * uv_w + uv_w) by (nonlinear_arith);
            assert(2 * (j + 1) * width == 2 * j * width + 2 * width) by (nonlinear_arith);
            if uv_w == 0 {
                assert(width <= 1);
                assert(2 * (j + 1) * width <= width * height) by (nonlinear_arith)
                    requires
                        width <= 1,
                        j + 1 <= height / 2,
                        width >= 0,
                ;
            }
        }
        row_base = row_base + 2 * width;
        j += 1;
    }
    assert(j * uv_w == uv_w * uv_h) by (nonlinear_arith)
        requires
            j == uv_h,
    ;
    assert(u_plane@ =~= u_plane_of(bgra@, width as int, height as int));
    assert(v_plane@ =~= v_plane_of(bgra@, width as int, height as int));
    (y_plane, u_plane, v_plane)
}

/// Packs the three planes of an I420 frame into one buffer:
/// `[Y plane | U plane | V plane]`. The dimensions are not consulted.
pub fn pack_i420(y: &[u8], u: &[u8], v: &[u8], _width: usize, _height: usize) -> (buf: Vec<u8>)
    requires
        y@.len() + u@.len() + v@.len() <= usize::MAX,
    ensures
        buf@ == y@ + u@ + v@,
{
    let mut buf: Vec<u8> = Vec::with_capacity(y.len() + u.len() + v.len());
    buf.extend_from_slice(y);
    buf.extend_from_slice(u);
    buf.extend_from_slice(v);
    assert(buf@ =~= y@ + u@ + v@);
    buf
}

/// Byte `k` of the interleaved chroma plane of an NV12 frame: row `k / width`
/// holds the U, V pairs of block row `k / width`, each pair taken from the
/// top-left pixel of its 2x2 block.
pub open spec fn nv12_chroma_byte(bgra: Seq<u8>, width: int, k: int) -> u8 {
    let j = k / width;
    let c = k % width;
    let p = 2 * j * width + (c - c % 2);
    if c % 2 == 0 {
        pixel_u(bgra, p)
    } else {
        pixel_v(bgra, p)
    }
}

/// NV12 image of a `width` x `height` BGRA frame: the luma plane followed by
/// `height / 2` rows of `width` interleaved U, V bytes.
pub open spec fn nv12_of(bgra: Seq<u8>, width: int, height: int) -> Seq<u8> {
    Seq::new(
        (width * height + width * (height / 2)) as nat,
        |i: int|
            if i < width * height {
                pixel_y(bgra, i)
            } else {
                nv12_chroma_byte(bgra, width, i - width * height)
            },
    )
}

proof fn lemma_nv12_pair(w: int, h: int, j: int, c: int)
    requires
        conversion_domain(w, h),
        0 <= j < h / 2,
        0 <= c < w,
        c % 2 == 0,
    ensures
        (j * w + c) / w == j,
        (j * w + c) % w == c,
        (j * w + c + 1) / w == j,
        (j * w + c + 1) % w == c + 1,
        2 * j * w + c + 1 < w * h,
        0 <= 2 * j * w + c,
        j * w + c + 2 <= w * (h / 2),
{
    lemma_block_in_frame(w, h, j, c / 2);
    lemma_row_col(j, c, w);
    lemma_row_col(j, c + 1, w);
    assert(j * w + w <= w * (h / 2)) by (nonlinear_arith)
        requires
            j + 1 <= h / 2,
            w >= 0,
    ;
}

/// Converts a BGRA frame to NV12: the full-resolution Y plane followed by a
/// half-height plane of interleaved U, V bytes, chroma sampled from the
/// top-left pixel of each 2x2 block. Used by the hardware encoders.
#[verifier::rlimit(40)]
pub fn bgra_to_nv12(bgra: &[u8], width: u32, height: u32) -> (out: Vec<u8>)
    requires
        conversion_domain(width as int, height as int),
        width * height * 4 <= usize::MAX,
        bgra@.len() >= width * height * 4,
    ensures
        out@ == nv12_of(bgra@, width as int, height as int),
{
    let w = width as usize;
    let h = height as usize;
    let y_size = w * h;
    proof {
        assert(w * (h / 2) <= w * h) by (nonlinear_arith)
            requires
                w >= 0,
                h >= 0,
        ;
    }
    let uv_size = w * (h / 2);
    let mut out: Vec<u8> = Vec::with_capacity(y_size + uv_size);

    // Luma, one byte per pixel in raster order.
    let mut p: usize = 0;
    while p < y_size
        invariant
            p <= y_size,
            y_size == w * h,
            y_size * 4 <= usize::MAX,
            bgra@.len() >= y_size * 4,
            out@.len() == p,
            forall|q: int| 0 <= q < p ==> out@[q] == pixel_y(bgra@, q),
        decreases y_size - p,
    {
        let src = p * 4;
        out.push(luma_of(bgra[src], bgra[src + 1], bgra[src + 2]));
        p += 1;
    }

    // Chroma, one U, V pair per 2x2 block.
    let uv_h = h / 2;
    let mut j: usize = 0;
    let mut row_base: usize = 0;
    assert(2 * j * w == 0 && j * w == 0) by (nonlinear_arith)
        requires
            j == 0,
    ;
    while j < uv_h
        invariant
            j <= uv_h,
            uv_h == h / 2,
            w == width,
            h == height,
            y_size == w * h,
            uv_size == w * (h / 2),
            conversion_domain(w as int, h as int),
            y_size * 4 <= usize::MAX,
            bgra@.len() >= y_size * 4,
            row_base == 2 * j * w,
            out@.len() == y_size + j * w,
            j * w <= uv_size,
            forall|q: int| 0 <= q < y_size ==> out@[q] == pixel_y(bgra@, q),
            forall|k: int|
                0 <= k < j * w ==> out@[y_size + k] == nv12_chroma_byte(bgra@, w as int, k),
        decreases uv_h - j,
    {
        let mut c: usize = 0;
        while c < w
            invariant
                c <= w,
                c % 2 == 0,
                j < uv_h,
                uv_h == h / 2,
                y_size == w * h,
                uv_size == w * (h / 2),
                conversion_domain(w as int, h as int),
                y_size * 4 <= usize::MAX,
                bgra@.len() >= y_size * 4,
                row_base == 2 * j * w,
                out@.len() == y_size + j * w + c,
                forall|q: int| 0 <= q < y_size ==> out@[q] == pixel_y(bgra@, q),
                forall|k: int|
                    0 <= k < j * w + c ==> out@[y_size + k] == nv12_chroma_byte(
                        bgra@,
                        w as int,
                        k,
                    ),
            decreases w - c,
        {
            proof {
                lemma_nv12_pair(w as int, h as int, j as int, c as int);
            }
            let src = (row_base + c) * 4;
            let b = bgra[src];
            let g = bgra[src + 1];
            let r = bgra[src + 2];
            let ghost before = out@;
            out.push(chroma_u_of(b, g, r));
            out.push(chroma_v_of(b, g, r));
            proof {
                assert(out@ == before.push(pixel_u(bgra@, row_base + c)).push(
                    pixel_v(bgra@, row_base + c),
                ));
                assert(nv12_chroma_byte(bgra@, w as int, j * w + c) == pixel_u(bgra@, row_base + c));
                assert(nv12_chroma_byte(bgra@, w as int, j * w + c + 1) == pixel_v(
                    bgra@,
                    row_base + c,
                ));
            }
            c += 2;
        }
        proof {
            if w > 0 {
                lemma_block_in_frame(w as int, h as int, j as int, 0);
            }
            assert((j + 1) * w == j * w + w) by (nonlinear_arith);
            assert(2 * (j + 1) * w == 2 * j * w + 2 * w) by (nonlinear_arith);
            assert(j * w + w <= w * (h / 2)) by (nonlinear_arith)
                requires
                    j + 1 <= h / 2,
                    w >= 0,
            ;
        }
        row_base = row_base + 2 * w;
        j += 1;
    }
    assert(j * w == w * (h / 2)) by (nonlinear_arith)
        requires
            j == h / 2,
    ;
    assert(out@ =~= nv12_of(bgra@, width as int, height as int));
    out
}

/// Two equally long planes merged byte by byte: `u[0], v[0], u[1], v[1], ...`.
pub open spec fn interleave(u: Seq<u8>, v: Seq<u8>) -> Seq<u8> {
    Seq::new(2 * u.len(), |i: int| if i % 2 == 0 { u[i / 2] } else { v[i / 2] })
}

proof fn lemma_chroma_index(k: int, w: int)
    requires
        w > 0,
        w % 2 == 0,
        k >= 0,
    ensures
        (k / 2) / (w / 2) == k / w,
        2 * ((k / 2) % (w / 2)) == k % w - (k % w) % 2,
        (k % w) % 2 == k % 2,
{
    let q = k / w;
    let c = k % w;
    let m = w / 2;
    let a = c / 2;
    let b = c % 2;
    vstd::arithmetic::div_mod::lemma_fundamental_div_mod(k, w);
    vstd::arithmetic::div_mod::lemma_fundamental_div_mod(c, 2);
    assert(k == 2 * (q * m + a) + b) by (nonlinear_arith)
        requires
            k == w * q + c,
            w == 2 * m,
            c == 2 * a + b,
    ;
    assert(0 <= q * m + a) by (nonlinear_arith)
        requires
            q >= 0,
            m > 0,
            a >= 0,
    ;
    vstd::arithmetic::div_mod::lemma_fundamental_div_mod_converse(k, 2, q * m + a, b);
    assert(a < m);
    vstd::arithmetic::div_mod::lemma_fundamental_div_mod_converse(q * m + a, m, q, a);
}

/// The NV12 conversion carries exactly the planes of the I420 conversion:
/// the same luma plane, followed by the U and V planes interleaved byte by
/// byte.
pub proof fn lemma_nv12_is_interleaved_i420(bgra: Seq<u8>, width: int, height: int)
    requires
        width >= 0,
        height >= 0,
        conversion_domain(width, height),
    ensures
        nv12_of(bgra, width, height) == y_plane_of(bgra, width, height) + interleave(
            u_plane_of(bgra, width, height),
            v_plane_of(bgra, width, height),
        ),
{
    let w = width;
    let h = height;
    let lhs = nv12_of(bgra, w, h);
    let y = y_plane_of(bgra, w, h);
    let uv = interleave(u_plane_of(bgra, w, h), v_plane_of(bgra, w, h));
    assert(w * h >= 0) by (nonlinear_arith)
        requires
            w >= 0,
            h >= 0,
    ;
    assert((w / 2) * (h / 2) >= 0) by (nonlinear_arith)
        requires
            w >= 0,
            h >= 0,
    ;
    if w == 0 || h == 0 {
        assert(w * h == 0 && w * (h / 2) == 0 && (w / 2) * (h / 2) == 0) by (nonlinear_arith)
            requires
                w == 0 || h == 0,
                h >= 0,
                w >= 0,
        ;
        assert(lhs =~= y + uv);
    } else {
        assert(w % 2 == 0 && h % 2 == 0);
        assert(2 * ((w / 2) * (h / 2)) == w * (h / 2)) by (nonlinear_arith)
            requires
                w % 2 == 0,
                w > 0,
                h > 0,
        ;
        assert forall|i: int| 0 <= i < lhs.len() implies lhs[i] == (y + uv)[i] by {
            if i >= w * h {
                let k = i - w * h;
                lemma_chroma_index(k, w);
                assert(k < w * (h / 2));
            }
        }
        assert(lhs =~= y + uv);
    }
}

/// The I420 and NV12 conversions of one frame give the same samples: the
/// NV12 buffer starts with the I420 luma plane, and its `i`-th chroma pair
/// holds the `i`-th samples of the I420 U and V planes.
pub proof fn lemma_i420_nv12_agree(bgra: Seq<u8>, width: int, height: int)
    requires
        width >= 0,
        height >= 0,
        conversion_domain(width, height),
    ensures
        forall|p: int|
            0 <= p < width * height ==> #[trigger] nv12_of(bgra, width, height)[p] == y_plane_of(
                bgra,
                width,
                height,
            )[p],
        forall|i: int|
            0 <= i < (width / 2) * (height / 2) ==> {
                &&& nv12_of(bgra, width, height)[width * height + 2 * i] == #[trigger] u_plane_of(
                    bgra,
                    width,
                    height,
                )[i]
                &&& nv12_of(bgra, width, height)[width * height + 2 * i + 1] == v_plane_of(
                    bgra,
                    width,
                    height,
                )[i]
            },
{
    lemma_nv12_is_interleaved_i420(bgra, width, height);
    let y = y_plane_of(bgra, width, height);
    let u = u_plane_of(bgra, width, height);
    let v = v_plane_of(bgra, width, height);
    assert(width * height >= 0) by (nonlinear_arith)
        requires
            width >= 0,
            height >= 0,
    ;
    assert((width / 2) * (height / 2) >= 0) by (nonlinear_arith)
        requires
            width >= 0,
            height >= 0,
    ;
    assert(y.len() == width * height);
    assert forall|i: int| 0 <= i < (width / 2) * (height / 2) implies {
        &&& nv12_of(bgra, width, height)[width * height + 2 * i] == #[trigger] u[i]
        &&& nv12_of(bgra, width, height)[width * height + 2 * i + 1] == v[i]
    } by {
        let uv = interleave(u, v);
        assert((2 * i) % 2 == 0 && (2 * i) / 2 == i);
        assert((2 * i + 1) % 2 == 1 && (2 * i + 1) / 2 == i);
        assert((y + uv)[width * height + 2 * i] == uv[2 * i]);
        assert((y + uv)[width * height + 2 * i + 1] == uv[2 * i + 1]);
    }
}

/// Every luma byte the converters produce lies in `[16, 235]` and every
/// chroma byte in `[16, 240]`.
pub proof fn lemma_samples_in_limited_range(bgra: Seq<u8>, p: int)
    ensures
        16 <= pixel_y(bgra, p) <= 235,
        16 <= pixel_u(bgra, p) <= 240,
        16 <= pixel_v(bgra, p) <= 240,
{
}

} // verus!
