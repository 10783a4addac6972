//! Rectangles of images held as samples row by row: cutting out a
//! rectangle, and how cut-outs compose.
use vstd::prelude::*;
use vstd::arithmetic::div_mod::{lemma_fundamental_div_mod, lemma_fundamental_div_mod_converse, lemma_mod_bound};

verus! {

/// The samples of the `w` x `h` rectangle at (`x`, `y`) of an image
/// `width` pixels wide with `pixel_bytes` bytes per pixel, row by row.
pub open spec fn sub_rect(s: Seq<u8>, width: int, pixel_bytes: int, x: int, y: int, w: int, h: int) -> Seq<u8> {
    Seq::new(
        (w * h * pixel_bytes) as nat,
        |k: int| s[(y + k / (w * pixel_bytes)) * (width * pixel_bytes) + x * pixel_bytes + k % (w * pixel_bytes)],
    )
}

/// The offset and size of the region that the `image` crate cuts out of a
/// `width` x `height` image when asked for `w` x `h` at (`x`, `y`): the
/// request clamped to the image.
pub open spec fn clamped_crop(width: u32, height: u32, x: u32, y: u32, w: u32, h: u32) -> (u32, u32, u32, u32) {
    let cx = if x < width { x } else { width };
    let cy = if y < height { y } else { height };
    let cw = if w < width - cx { w } else { (width - cx) as u32 };
    let ch = if h < height - cy { h } else { (height - cy) as u32 };
    (cx, cy, cw, ch)
}

/// The layout and samples of the region cut out of `m` by a request for
/// `w` x `h` at (`x`, `y`).
pub open spec fn cut_model(m: (u8, u8, u32, u32, Seq<u8>), x: u32, y: u32, w: u32, h: u32) -> (u8, u8, u32, u32, Seq<u8>) {
    let r = clamped_crop(m.2, m.3, x, y, w, h);
    (m.0, m.1, r.2, r.3, sub_rect(m.4, m.2 as int, m.1 as int, r.0 as int, r.1 as int, r.2 as int, r.3 as int))
}

/// Cutting out the whole image gives back its samples.
pub proof fn lemma_whole_rect(s: Seq<u8>, width: int, height: int, pixel_bytes: int)
    requires
        width >= 0,
        height >= 0,
        pixel_bytes > 0,
        s.len() == width * height * pixel_bytes,
    ensures
        sub_rect(s, width, pixel_bytes, 0, 0, width, height) == s,
{
    let r = sub_rect(s, width, pixel_bytes, 0, 0, width, height);
    assert(r.len() == s.len());
    assert forall|k: int| 0 <= k < s.len() implies r[k] == s[k] by {
        let row = width * pixel_bytes;
        assert(row > 0) by (nonlinear_arith)
            requires
                width * height * pixel_bytes > 0,
                pixel_bytes > 0,
                height >= 0,
                width >= 0,
                row == width * pixel_bytes;
        lemma_fundamental_div_mod(k, row);
        assert((0 + k / row) * row == row * (k / row)) by (nonlinear_arith);
    }
    assert(r =~= s);
}

/// Cutting a rectangle out of a cut-out is cutting once, with the offsets
/// added.
pub proof fn lemma_rect_of_rect(
    s: Seq<u8>,
    width: int,
    pixel_bytes: int,
    x1: int,
    y1: int,
    w1: int,
    h1: int,
    x2: int,
    y2: int,
    w2: int,
    h2: int,
)
    requires
        pixel_bytes > 0,
        x1 >= 0,
        y1 >= 0,
        x2 >= 0,
        y2 >= 0,
        w2 >= 0,
        h2 >= 0,
        x2 + w2 <= w1,
        y2 + h2 <= h1,
    ensures
        sub_rect(sub_rect(s, width, pixel_bytes, x1, y1, w1, h1), w1, pixel_bytes, x2, y2, w2, h2)
            == sub_rect(s, width, pixel_bytes, x1 + x2, y1 + y2, w2, h2),
{
    let inner = sub_rect(s, width, pixel_bytes, x1, y1, w1, h1);
    let outer = sub_rect(inner, w1, pixel_bytes, x2, y2, w2, h2);
    let direct = sub_rect(s, width, pixel_bytes, x1 + x2, y1 + y2, w2, h2);
    assert(outer.len() == direct.len());
    assert forall|k: int| 0 <= k < outer.len() implies outer[k] == direct[k] by {
        let r2 = w2 * pixel_bytes;
        let r1 = w1 * pixel_bytes;
        assert(w2 > 0 && h2 > 0) by (nonlinear_arith)
            requires
                0 <= k < w2 * h2 * pixel_bytes,
                w2 >= 0,
                h2 >= 0,
                pixel_bytes > 0;
        assert(r2 > 0) by (nonlinear_arith)
            requires w2 > 0, pixel_bytes > 0, r2 == w2 * pixel_bytes;
        assert(r1 >= r2 + x2 * pixel_bytes) by (nonlinear_arith)
            requires x2 + w2 <= w1, pixel_bytes > 0, r1 == w1 * pixel_bytes, r2 == w2 * pixel_bytes;
        let row = k / r2;
        let col = k % r2;
        lemma_mod_bound(k, r2);
        lemma_fundamental_div_mod(k, r2);
        assert(0 <= row < h2) by (nonlinear_arith)
            requires
                k == r2 * row + col,
                0 <= col < r2,
                0 <= k < w2 * h2 * pixel_bytes,
                r2 == w2 * pixel_bytes,
                r2 > 0;
        let q = y2 + row;
        let c = x2 * pixel_bytes + col;
        let i = q * r1 + c;
        assert(0 <= c < r1) by (nonlinear_arith)
            requires
                c == x2 * pixel_bytes + col,
                0 <= col < r2,
                x2 >= 0,
                pixel_bytes > 0,
                r1 >= r2 + x2 * pixel_bytes;
        lemma_fundamental_div_mod_converse(i, r1, q, c);
        assert(0 <= i < w1 * h1 * pixel_bytes) by (nonlinear_arith)
            requires
                i == q * r1 + c,
                0 <= c < r1,
                0 <= q < h1,
                r1 == w1 * pixel_bytes;
        assert(outer[k] == inner[i]);
        assert(inner[i] == s[(y1 + q) * (width * pixel_bytes) + x1 * pixel_bytes + c]);
        assert((x1 + x2) * pixel_bytes + col == x1 * pixel_bytes + c) by (nonlinear_arith)
            requires c == x2 * pixel_bytes + col;
        assert(y1 + q == (y1 + y2) + k / r2);
    }
    assert(outer =~= direct);
}

} // verus!
