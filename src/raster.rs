//! Filling a row-major pixel buffer with the pixels that particles fall on.
use vstd::prelude::*;

verus! {

/// Colour of a pixel that a particle falls on.
pub const LIT: u32 = 0xFFFFFF;

/// Colour of every other pixel.
pub const DARK: u32 = 0x000000;

/// Some pixel `(x, y)` of `pixels` lies inside a `width` by `height` buffer
/// and sits at `index` in row-major order.
pub open spec fn covers(pixels: Seq<(usize, usize)>, width: int, height: int, index: int) -> bool {
    exists|p: int|
        0 <= p < pixels.len() && (#[trigger] pixels[p]).0 < width && pixels[p].1 < height
            && pixels[p].1 * width + pixels[p].0 == index
}

/// Clears `buffer` to `DARK` and lights each pixel of `pixels` that lies
/// inside it; pixels outside are skipped.
pub fn draw_points(buffer: &mut Vec<u32>, width: usize, height: usize, pixels: &Vec<(usize, usize)>)
    requires
        old(buffer).len() == width * height,
    ensures
        final(buffer).len() == old(buffer).len(),
        forall|i: int|
            0 <= i < final(buffer).len() ==> #[trigger] final(buffer)@[i] == (if covers(pixels@, width as int, height as int, i) {
                LIT
            } else {
                DARK
            }),
{
    let n = buffer.len();
    let mut i: usize = 0;
    while i < n
        invariant
            n == buffer.len(),
            i <= n,
            forall|c: int| 0 <= c < i ==> #[trigger] buffer@[c] == DARK,
        decreases n - i,
    {
        buffer.set(i, DARK);
        i = i + 1;
    }
    let mut p: usize = 0;
    while p < pixels.len()
        invariant
            n == buffer.len(),
            n == width * height,
            p <= pixels.len(),
            forall|c: int|
                0 <= c < n ==> #[trigger] buffer@[c] == (if covers(pixels@.subrange(0, p as int), width as int, height as int, c) {
                    LIT
                } else {
                    DARK
                }),
        decreases pixels.len() - p,
    {
        let (x, y) = pixels[p];
        let ghost before = pixels@.subrange(0, p as int);
        let ghost after = pixels@.subrange(0, p + 1);
        if x < width && y < height {
            proof {
                lemma_row_major_in_bounds(x as int, y as int, width as int, height as int);
            }
            let idx = y * width + x;
            buffer.set(idx, LIT);
        }
        assert forall|c: int| 0 <= c < n implies #[trigger] buffer@[c] == (if covers(after, width as int, height as int, c) {
            LIT
        } else {
            DARK
        }) by {
            assert(after[p as int] == pixels@[p as int]);
            if covers(before, width as int, height as int, c) {
                let q = choose|q: int|
                    0 <= q < before.len() && (#[trigger] before[q]).0 < width && before[q].1 < height
                        && before[q].1 * width + before[q].0 == c;
                assert(after[q] == before[q]);
            }
            if covers(after, width as int, height as int, c) {
                let q = choose|q: int|
                    0 <= q < after.len() && (#[trigger] after[q]).0 < width && after[q].1 < height
                        && after[q].1 * width + after[q].0 == c;
                if q < p {
                    assert(before[q] == after[q]);
                }
            }
        }
        p = p + 1;
    }
    assert(pixels@.subrange(0, pixels.len() as int) =~= pixels@);
}

/// The row-major index of a pixel inside the buffer is inside the buffer.
proof fn lemma_row_major_in_bounds(x: int, y: int, width: int, height: int)
    requires
        0 <= x < width,
        0 <= y < height,
    ensures
        0 <= y * width + x < width * height,
{
    assert(y * width + x < width * height) by (nonlinear_arith)
        requires
            0 <= x < width,
            0 <= y < height,
    ;
    assert(0 <= y * width) by (nonlinear_arith)
        requires
            0 <= y,
            0 <= width,
    ;
}

} // verus!
