//! Frame buffers of the capture layer: reading a frame out of a row-padded
//! GPU mapping, and composing several captured BGRA frames into one by
//! nearest-neighbour scaling of each into a rectangle of the destination.

use vstd::prelude::*;

verus! {

/// Pixel row of destination byte `j` in a frame `dst_w` pixels wide.
pub open spec fn byte_row(j: int, dst_w: int) -> int {
    (j / 4) / dst_w
}

/// Pixel column of destination byte `j` in a frame `dst_w` pixels wide.
pub open spec fn byte_col(j: int, dst_w: int) -> int {
    (j / 4) % dst_w
}

/// Whether a blit has anything to draw: a non-empty source with non-zero
/// size, a non-empty target rectangle and a destination of non-zero width.
pub open spec fn blit_active(src: Seq<u8>, src_w: int, src_h: int, dst_w: int, rw: int, rh: int) -> bool {
    src.len() > 0 && src_w > 0 && src_h > 0 && rw > 0 && rh > 0 && dst_w > 0
}

/// Byte offset in the source of the pixel that lands on column `dx`, row
/// `dy` of the target rectangle (nearest neighbour, rounding down).
pub open spec fn blit_source_offset(src_w: int, src_h: int, rw: int, rh: int, dx: int, dy: int) -> int {
    ((dy * src_h / rh) * src_w + dx * src_w / rw) * 4
}

/// Byte `j` of the destination after `scale_and_blit_bgra`: inside the
/// target rectangle (clipped to the destination) a pixel whose source and
/// destination pixels both lie wholly inside their buffers is copied from the
/// source; every other byte keeps its value.
pub open spec fn blit_byte(
    src: Seq<u8>,
    src_w: int,
    src_h: int,
    old: Seq<u8>,
    dst_w: int,
    dst_h: int,
    rx: int,
    ry: int,
    rw: int,
    rh: int,
    j: int,
) -> u8 {
    let y = byte_row(j, dst_w);
    let x = byte_col(j, dst_w);
    if blit_active(src, src_w, src_h, dst_w, rw, rh) && ry <= y < ry + rh && y < dst_h && rx <= x
        < rx + rw {
        let s = blit_source_offset(src_w, src_h, rw, rh, x - rx, y - ry);
        if s + 3 < src.len() && (j / 4) * 4 + 3 < old.len() {
            src[s + j % 4]
        } else {
            old[j]
        }
    } else {
        old[j]
    }
}

/// Whether byte `j` lies in a pixel before (`row`, `col`) in row-major order.
pub open spec fn byte_before(j: int, dst_w: int, row: int, col: int) -> bool {
    byte_row(j, dst_w) < row || (byte_row(j, dst_w) == row && byte_col(j, dst_w) < col)
}

proof fn lemma_pixel_bytes(j: int, row: int, col: int, w: int)
    requires
        0 <= col < w,
        0 <= row,
        0 <= j,
    ensures
        (j / 4 == row * w + col) <==> (byte_row(j, w) == row && byte_col(j, w) == col),
        (j / 4 == row * w + col) <==> ((row * w + col) * 4 <= j < (row * w + col) * 4 + 4),
        (j / 4 == row * w + col) ==> j % 4 == j - (row * w + col) * 4,
{
    let p = j / 4;
    vstd::arithmetic::div_mod::lemma_fundamental_div_mod(j, 4);
    vstd::arithmetic::div_mod::lemma_fundamental_div_mod(p, w);
    assert(0 <= row * w) by (nonlinear_arith)
        requires
            0 <= row,
            0 < w,
    ;
    if byte_row(j, w) == row && byte_col(j, w) == col {
        assert(p == w * row + col);
        assert(w * row == row * w) by (nonlinear_arith);
    }
    if p == row * w + col {
        vstd::arithmetic::div_mod::lemma_fundamental_div_mod_converse(p, w, row, col);
    }
    if (row * w + col) * 4 <= j < (row * w + col) * 4 + 4 {
        vstd::arithmetic::div_mod::lemma_fundamental_div_mod_converse(
            j,
            4,
            row * w + col,
            j - (row * w + col) * 4,
        );
    }
}

/// Scales `src` (a `src_w` x `src_h` BGRA frame) by nearest neighbour into
/// the `rect_w` x `rect_h` rectangle at (`rect_x`, `rect_y`) of `dst` (a
/// `dst_w` x `dst_h` BGRA frame), clipped to the destination. Pixels whose
/// bytes fall outside either buffer are skipped; an empty source or an empty
/// rectangle leaves `dst` unchanged.
pub fn scale_and_blit_bgra(
    src: &[u8],
    src_w: u32,
    src_h: u32,
    dst: &mut [u8],
    dst_w: u32,
    dst_h: u32,
    rect_x: u32,
    rect_y: u32,
    rect_w: u32,
    rect_h: u32,
)
    ensures
        final(dst)@.len() == old(dst)@.len(),
        forall|j: int|
            0 <= j < old(dst)@.len() ==> #[trigger] final(dst)@[j] == blit_byte(
                src@,
                src_w as int,
                src_h as int,
                old(dst)@,
                dst_w as int,
                dst_h as int,
                rect_x as int,
                rect_y as int,
                rect_w as int,
                rect_h as int,
                j,
            ),
{
    let ghost old_dst = dst@;
    if src.len() == 0 || src_w == 0 || src_h == 0 || rect_w == 0 || rect_h == 0 || dst_w == 0 {
        return;
    }
    let ghost bb = |j: int|
        blit_byte(
            src@,
            src_w as int,
            src_h as int,
            old_dst,
            dst_w as int,
            dst_h as int,
            rect_x as int,
            rect_y as int,
            rect_w as int,
            rect_h as int,
            j,
        );
    let dst_len = dst.len();
    let mut dy: u32 = 0;
    while dy < rect_h
        invariant
            dst@.len() == old_dst.len(),
            forall|j: int| #[trigger] bb(j) == blit_byte(
                    src@,
                    src_w as int,
                    src_h as int,
                    old_dst,
                    dst_w as int,
                    dst_h as int,
                    rect_x as int,
                    rect_y as int,
                    rect_w as int,
                    rect_h as int,
                    j,
                ),
            dst_len == dst@.len(),
            blit_active(src@, src_w as int, src_h as int, dst_w as int, rect_w as int, rect_h as int),
            dy <= rect_h,
            rect_y + dy <= dst_h || dy == 0,
            forall|j: int|
                0 <= j < dst@.len() ==> #[trigger] dst@[j] == if byte_row(j, dst_w as int) < rect_y
                    + dy {
                    bb(j)
                } else {
                    old_dst[j]
                },
        ensures
            dy == rect_h || rect_y + dy >= dst_h,
            forall|j: int|
                0 <= j < dst@.len() ==> #[trigger] dst@[j] == if byte_row(j, dst_w as int) < rect_y
                    + dy {
                    bb(j)
                } else {
                    old_dst[j]
                },
        decreases rect_h - dy,
    {
        let ty: u64 = rect_y as u64 + dy as u64;
        if ty >= dst_h as u64 {
            break;
        }
        assert(dy * src_h <= 0xffff_ffff_ffff_ffff) by (nonlinear_arith)
            requires
                dy <= 0xffff_ffff,
                src_h <= 0xffff_ffff,
        ;
        let sy: u128 = (dy as u128 * src_h as u128) / rect_h as u128;
        assert(sy <= 0xffff_ffff_ffff_ffff) by (nonlinear_arith)
            requires
                sy == (dy * src_h) / rect_h as int,
                rect_h >= 1,
                dy * src_h <= 0xffff_ffff_ffff_ffff,
                dy * src_h >= 0,
        ;
        proof {
            assert forall|j: int| 0 <= j < dst@.len() implies #[trigger] dst@[j] == if byte_before(
                j,
                dst_w as int,
                ty as int,
                rect_x + 0,
            ) {
                bb(j)
            } else {
                old_dst[j]
            } by {
                if byte_row(j, dst_w as int) == ty && byte_col(j, dst_w as int) < rect_x {
                    assert(bb(j) == old_dst[j]);
                }
            }
        }
        let mut dx: u32 = 0;
        while dx < rect_w
            invariant
                dst@.len() == old_dst.len(),
                forall|j: int| #[trigger] bb(j) == blit_byte(
                        src@,
                        src_w as int,
                        src_h as int,
                        old_dst,
                        dst_w as int,
                        dst_h as int,
                        rect_x as int,
                        rect_y as int,
                        rect_w as int,
                        rect_h as int,
                        j,
                    ),
                dst_len == dst@.len(),
                blit_active(src@, src_w as int, src_h as int, dst_w as int, rect_w as int, rect_h as int),
                dy < rect_h,
                ty == rect_y + dy,
                ty < dst_h,
                sy == (dy * src_h) / rect_h as int,
                sy <= 0xffff_ffff_ffff_ffff,
                dx <= rect_w,
                rect_x + dx <= dst_w || dx == 0,
                forall|j: int|
                    0 <= j < dst@.len() ==> #[trigger] dst@[j] == if byte_before(
                        j,
                        dst_w as int,
                        ty as int,
                        rect_x + dx,
                    ) {
                        bb(j)
                    } else {
                        old_dst[j]
                    },
            ensures
                dx == rect_w || rect_x + dx >= dst_w,
                forall|j: int|
                    0 <= j < dst@.len() ==> #[trigger] dst@[j] == if byte_before(
                        j,
                        dst_w as int,
                        ty as int,
                        rect_x + dx,
                    ) {
                        bb(j)
                    } else {
                        old_dst[j]
                    },
            decreases rect_w - dx,
        {
            let tx: u64 = rect_x as u64 + dx as u64;
            if tx >= dst_w as u64 {
                break;
            }
            assert(dx * src_w <= 0xffff_ffff_ffff_ffff) by (nonlinear_arith)
                requires
                    dx <= 0xffff_ffff,
                    src_w <= 0xffff_ffff,
            ;
            let sx: u128 = (dx as u128 * src_w as u128) / rect_w as u128;
            assert(sx <= 0xffff_ffff_ffff_ffff) by (nonlinear_arith)
                requires
                    sx == (dx * src_w) / rect_w as int,
                    rect_w >= 1,
                    dx * src_w <= 0xffff_ffff_ffff_ffff,
                    dx * src_w >= 0,
            ;
            assert(sy * src_w <= 0xffff_ffff_ffff_ffff * 0xffff_ffff) by (nonlinear_arith)
                requires
                    sy <= 0xffff_ffff_ffff_ffff,
                    src_w <= 0xffff_ffff,
            ;
            assert(ty * dst_w <= 0xffff_ffff_ffff_ffff) by (nonlinear_arith)
                requires
                    ty <= 0xffff_ffff,
                    dst_w <= 0xffff_ffff,
            ;
            let s: u128 = (sy * src_w as u128 + sx) * 4;
            let d: u128 = (ty as u128 * dst_w as u128 + tx as u128) * 4;
            let ghost pre = dst@;
            proof {
                assert(s == blit_source_offset(
                    src_w as int,
                    src_h as int,
                    rect_w as int,
                    rect_h as int,
                    dx as int,
                    dy as int,
                ));
                assert forall|j: int| 0 <= j < dst@.len() implies (j / 4 == ty * dst_w + tx)
                    == (d <= j < d + 4) && ((j / 4 == ty * dst_w + tx) ==> (byte_row(
                    j,
                    dst_w as int,
                ) == ty && byte_col(j, dst_w as int) == tx && j % 4 == j - d)) by {
                    lemma_pixel_bytes(j, ty as int, tx as int, dst_w as int);
                }
            }
            if s + 3 < src.len() as u128 && d + 3 < dst_len as u128 {
                let si = s as usize;
                let di = d as usize;
                dst[di] = src[si];
                dst[di + 1] = src[si + 1];
                dst[di + 2] = src[si + 2];
                dst[di + 3] = src[si + 3];
            }
            proof {
                assert forall|j: int| 0 <= j < dst@.len() implies #[trigger] dst@[j] == if byte_before(
                    j,
                    dst_w as int,
                    ty as int,
                    rect_x + dx + 1,
                ) {
                    bb(j)
                } else {
                    old_dst[j]
                } by {
                    lemma_pixel_bytes(j, ty as int, tx as int, dst_w as int);
                    if j / 4 == ty * dst_w + tx {
                        assert(!byte_before(j, dst_w as int, ty as int, rect_x + dx));
                        assert(pre[j] == old_dst[j]);
                        assert((j / 4) * 4 == d);
                    } else {
                        assert(!(d <= j < d + 4));
                        assert(dst@[j] == pre[j]);
                    }
                }
            }
            dx = dx + 1;
        }
        proof {
            assert forall|j: int| 0 <= j < dst@.len() implies #[trigger] dst@[j] == if byte_row(
                j,
                dst_w as int,
            ) < rect_y + dy + 1 {
                bb(j)
            } else {
                old_dst[j]
            } by {
                vstd::arithmetic::div_mod::lemma_fundamental_div_mod(j / 4, dst_w as int);
                if byte_row(j, dst_w as int) == ty && byte_col(j, dst_w as int) >= rect_x + dx {
                    assert(bb(j) == old_dst[j]);
                }
            }
        }
        dy = dy + 1;
    }
    proof {
        assert forall|j: int| 0 <= j < dst@.len() implies #[trigger] dst@[j] == bb(j) by {
            if byte_row(j, dst_w as int) >= rect_y + dy {
                assert(bb(j) == old_dst[j]);
            }
        }
    }
}

/// The tightly packed frame (`row_bytes` bytes per row, `rows` rows) held
/// in a mapping whose rows start every `pitch` bytes.
pub open spec fn unpadded(src: Seq<u8>, pitch: int, row_bytes: int, rows: int) -> Seq<u8> {
    Seq::new((row_bytes * rows) as nat, |i: int| src[(i / row_bytes) * pitch + i % row_bytes])
}

/// Copies a frame out of a mapped texture whose rows are `row_pitch` bytes
/// apart, dropping the padding at the end of each row: `height` rows of
/// `width * 4` bytes.
pub fn strip_row_padding(src: &[u8], row_pitch: usize, width: usize, height: usize) -> (out: Vec<u8>)
    requires
        width * 4 <= usize::MAX,
        width * 4 * height <= usize::MAX,
        height == 0 || (height - 1) * row_pitch + width * 4 <= src@.len(),
    ensures
        out@ == unpadded(src@, row_pitch as int, width * 4, height as int),
{
    let row_bytes = width * 4;
    let n = src.len();
    let mut out: Vec<u8> = Vec::with_capacity(row_bytes * height);
    let mut row: usize = 0;
    assert(out@ =~= unpadded(src@, row_pitch as int, row_bytes as int, 0));
    while row < height
        invariant
            n == src@.len(),
            row_bytes == width * 4,
            row_bytes * height <= usize::MAX,
            height == 0 || (height - 1) * row_pitch + row_bytes <= src@.len(),
            row <= height,
            out@ == unpadded(src@, row_pitch as int, row_bytes as int, row as int),
        decreases height - row,
    {
        proof {
            assert(row * row_pitch <= (height - 1) * row_pitch) by (nonlinear_arith)
                requires
                    row < height,
            ;
            assert(row_bytes * (row + 1) <= row_bytes * height) by (nonlinear_arith)
                requires
                    row < height,
            ;
            assert(row_bytes * (row + 1) == row_bytes * row + row_bytes) by (nonlinear_arith);
            assert(row * row_pitch + row_bytes <= n);
        }
        let start = row * row_pitch;
        let ghost before = out@;
        out.extend_from_slice(&src[start..start + row_bytes]);
        proof {
            let next = unpadded(src@, row_pitch as int, row_bytes as int, row + 1);
            assert forall|i: int| 0 <= i < next.len() implies #[trigger] out@[i] == next[i] by {
                if i < row_bytes * row {
                    assert(out@[i] == before[i]);
                } else {
                    let k = i - row_bytes * row;
                    assert(row_bytes > 0) by (nonlinear_arith)
                        requires
                            i < row_bytes * (row + 1),
                            i >= 0,
                    ;
                    assert(row * row_bytes == row_bytes * row) by (nonlinear_arith);
                    assert(k < row_bytes);
                    vstd::arithmetic::div_mod::lemma_fundamental_div_mod_converse(
                        i,
                        row_bytes as int,
                        row as int,
                        k,
                    );
                    assert(out@[i] == src@[start + k]);
                }
            }
            assert(out@ =~= next);
        }
        row = row + 1;
    }
    out
}

/// The grid that holds `n` frames in a composite: the smallest number of
/// columns whose square reaches `n` (the ceiling of its square root), and
/// as many rows as the frames then need.
pub fn grid_shape(n: u32) -> (r: (u32, u32))
    requires
        n >= 1,
    ensures
        r.0 >= 1,
        r.0 * r.0 >= n,
        (r.0 - 1) * (r.0 - 1) < n,
        r.1 == (n + r.0 - 1) / (r.0 as int),
        r.1 >= 1,
{
    let mut c: u64 = 1;
    loop
        invariant
            1 <= c <= 65536,
            (c - 1) * (c - 1) < n,
            n <= u32::MAX,
        ensures
            1 <= c <= 65536,
            (c - 1) * (c - 1) < n,
            c * c >= n,
        decreases n - (c - 1) * (c - 1),
    {
        assert(c * c <= 65536 * 65536) by (nonlinear_arith)
            requires
                1 <= c <= 65536,
        ;
        let sq = c * c;
        if sq >= n as u64 {
            break;
        }
        assert(c < 65536) by (nonlinear_arith)
            requires
                c * c < n,
                n <= u32::MAX,
        ;
        assert(c * c > (c - 1) * (c - 1)) by (nonlinear_arith)
            requires
                c >= 1,
        ;
        c = c + 1;
    }
    let cols: u32 = c as u32;
    let q: u64 = (n as u64 + c - 1) / c;
    assert(1 <= q <= n) by (nonlinear_arith)
        requires
            c >= 1,
            n >= 1,
            q == (n + c - 1) / (c as int),
    ;
    let rows: u32 = q as u32;
    (cols, rows)
}

/// Where frame `i` of a composite is drawn: the top-left corner of its cell
/// (cells `dst_w / cols` by `dst_h / rows`, filled row by row) moved to
/// centre a `fit_w` by `fit_h` picture in it.
pub open spec fn cell_origin_of(
    i: int,
    cols: int,
    rows: int,
    dst_w: int,
    dst_h: int,
    fit_w: int,
    fit_h: int,
) -> (int, int) {
    let cell_w = dst_w / cols;
    let cell_h = dst_h / rows;
    ((i % cols) * cell_w + (cell_w - fit_w) / 2, (i / cols) * cell_h + (cell_h - fit_h) / 2)
}

/// The corner at which frame `i` of the composite is drawn.
pub fn cell_origin(
    i: u32,
    cols: u32,
    rows: u32,
    dst_w: u32,
    dst_h: u32,
    fit_w: u32,
    fit_h: u32,
) -> (r: (u32, u32))
    requires
        cols >= 1,
        rows >= 1,
        i < cols * rows,
        fit_w <= dst_w / cols,
        fit_h <= dst_h / rows,
    ensures
        (r.0 as int, r.1 as int) == cell_origin_of(
            i as int,
            cols as int,
            rows as int,
            dst_w as int,
            dst_h as int,
            fit_w as int,
            fit_h as int,
        ),
        r.0 + fit_w <= dst_w,
        r.1 + fit_h <= dst_h,
{
    let cell_w = dst_w / cols;
    let cell_h = dst_h / rows;
    let col = i % cols;
    let row = i / cols;
    assert(row < rows) by (nonlinear_arith)
        requires
            i < cols * rows,
            row == i / cols,
            cols >= 1,
    ;
    assert(col * cell_w + cell_w <= dst_w) by (nonlinear_arith)
        requires
            col < cols,
            cell_w == dst_w / cols,
            cols >= 1,
    ;
    assert(row * cell_h + cell_h <= dst_h) by (nonlinear_arith)
        requires
            row < rows,
            cell_h == dst_h / rows,
            rows >= 1,
    ;
    let x = col * cell_w + (cell_w - fit_w) / 2;
    let y = row * cell_h + (cell_h - fit_h) / 2;
    (x, y)
}

} // verus!
