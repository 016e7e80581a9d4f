//! The row-major RGB pixel buffer: three bytes per pixel, each pixel colored
//! from its own iteration count.
use vstd::prelude::*;

use crate::color::Color;
use crate::coloring::Palette;
use crate::error::RenderError;
use rayon::iter::{IndexedParallelIterator, IntoParallelRefIterator, ParallelIterator};
use rayon::slice::ParallelSliceMut;

verus! {

/// Column and row of the pixel at `index` in a row-major image `width` wide.
pub open spec fn position_of(index: nat, width: nat) -> (nat, nat)
    recommends
        width > 0,
{
    (index % width, index / width)
}

/// Channel `k` (0 red, 1 green, 2 blue) of `c`.
pub open spec fn channel(c: Color, k: int) -> u8 {
    if k == 0 {
        c.red
    } else if k == 1 {
        c.green
    } else {
        c.blue
    }
}

/// The pixel buffer for one iteration count per pixel: byte `k` is channel
/// `k % 3` of the color of pixel `k / 3`.
pub open spec fn pixels_of(counts: Seq<u32>, palette: Palette) -> Seq<u8> {
    Seq::new(3 * counts.len(), |k: int| channel(palette.color_of(counts[k / 3] as nat), k % 3))
}

/// Whether the three bytes of pixel `i` in `buf` are the channels of `c`.
pub open spec fn slot_holds(buf: Seq<u8>, i: int, c: Color) -> bool {
    &&& buf[3 * i] == c.red
    &&& buf[3 * i + 1] == c.green
    &&& buf[3 * i + 2] == c.blue
}

/// The first parameter that rules out a render, if any.
pub open spec fn render_error(width: nat, height: nat, n_counts: nat) -> Option<RenderError> {
    if width == 0 {
        Some(RenderError::ZeroWidth)
    } else if height == 0 {
        Some(RenderError::ZeroHeight)
    } else if 3 * width * height > usize::MAX {
        Some(RenderError::TooLarge)
    } else if n_counts != width * height {
        Some(RenderError::CountMismatch)
    } else {
        None
    }
}

/// Column and row of the pixel at `index` of a row-major image.
pub fn pixel_position(index: usize, width: u32, height: u32) -> (r: (u32, u32))
    requires
        width > 0,
        index < width * height,
    ensures
        r.0 as nat == position_of(index as nat, width as nat).0,
        r.1 as nat == position_of(index as nat, width as nat).1,
        r.0 < width,
        r.1 < height,
{
    let w = width as usize;
    let x = index % w;
    let y = index / w;
    assert(y < height) by (nonlinear_arith)
        requires
            y as int == index as int / (width as int),
            index < width * height,
            width > 0,
    ;
    (x as u32, y as u32)
}

/// Number of pixels of a `width` by `height` image, once the image is known
/// to be non-empty and its buffer to fit in memory's address range.
pub fn pixel_count(width: u32, height: u32) -> (r: Result<usize, RenderError>)
    ensures
        match render_error(width as nat, height as nat, (width * height) as nat) {
            Some(e) => r == Err::<usize, RenderError>(e),
            None => r == Ok::<usize, RenderError>((width * height) as usize),
        },
{
    if width == 0 {
        return Err(RenderError::ZeroWidth);
    }
    if height == 0 {
        return Err(RenderError::ZeroHeight);
    }
    match (width as usize).checked_mul(height as usize) {
        None => {
            assert(3 * width * height > usize::MAX) by (nonlinear_arith)
                requires
                    width * height > usize::MAX,
            ;
            Err(RenderError::TooLarge)
        },
        Some(n) => match n.checked_mul(3) {
            None => {
                assert(3 * width * height == n * 3) by (nonlinear_arith)
                    requires
                        n == width * height,
                ;
                Err(RenderError::TooLarge)
            },
            Some(_) => {
                assert(3 * width * height == n * 3) by (nonlinear_arith)
                    requires
                        n == width * height,
                ;
                Ok(n)
            },
        },
    }
}

/// The pixel buffer of a `width` by `height` image whose pixel `i`, in
/// row-major order, escaped after `counts[i]` iterations, filled one pixel
/// after another on the calling thread.
pub fn render_sequential(width: u32, height: u32, counts: &Vec<u32>, palette: &Palette) -> (r: Result<
    Vec<u8>,
    RenderError,
>)
    requires
        palette.wf(),
    ensures
        match render_error(width as nat, height as nat, counts@.len()) {
            Some(e) => r == Err::<Vec<u8>, RenderError>(e),
            None => r is Ok && r->Ok_0@ == pixels_of(counts@, *palette),
        },
{
    let n = match pixel_count(width, height) {
        Err(e) => return Err(e),
        Ok(n) => n,
    };
    assert(width * height <= 3 * width * height) by (nonlinear_arith);
    assert(3 * n <= usize::MAX) by (nonlinear_arith)
        requires
            n == width * height,
            3 * width * height <= usize::MAX,
    ;
    if counts.len() != n {
        return Err(RenderError::CountMismatch);
    }
    let mut buf: Vec<u8> = Vec::with_capacity(3 * n);
    let mut i: usize = 0;
    while i < n
        invariant
            palette.wf(),
            n == counts@.len(),
            3 * n <= usize::MAX,
            i <= n,
            buf@.len() == 3 * i,
            forall|j: int| 0 <= j < i ==> slot_holds(buf@, j, palette.color_of(counts@[j] as nat)),
        decreases n - i,
    {
        let c = palette.lookup(counts[i]);
        buf.push(c.red);
        buf.push(c.green);
        buf.push(c.blue);
        i = i + 1;
    }
    proof {
        lemma_filled_buffer_is_rendered(counts@, *palette, buf@);
    }
    Ok(buf)
}

/// Writes the color of `iterations` into the three bytes of one pixel.
pub fn fill_pixel(pixel: &mut [u8], palette: &Palette, iterations: u32)
    requires
        old(pixel)@.len() == 3,
        palette.wf(),
    ensures
        final(pixel)@.len() == 3,
        slot_holds(final(pixel)@, 0, palette.color_of(iterations as nat)),
{
    let c = palette.lookup(iterations);
    pixel[0] = c.red;
    pixel[1] = c.green;
    pixel[2] = c.blue;
}

/// Relies on rayon's `par_chunks_mut`, `par_iter`, `zip` and `for_each`: the
/// buffer is cut into consecutive, non-overlapping chunks of three bytes, the
/// `i`-th chunk is paired with `counts[i]`, and each pair is handed once to
/// `fill_pixel`, on whichever worker thread picks it up.
#[verifier::external_body]
fn fill_parallel(buf: &mut Vec<u8>, counts: &Vec<u32>, palette: &Palette)
    requires
        old(buf)@.len() == 3 * counts@.len(),
        palette.wf(),
    ensures
        final(buf)@.len() == old(buf)@.len(),
        forall|i: int|
            0 <= i < counts@.len() ==> slot_holds(
                final(buf)@,
                i,
                palette.color_of(counts@[i] as nat),
            ),
{
    buf.par_chunks_mut(3).zip(counts.par_iter()).for_each(|(pixel, n)| fill_pixel(pixel, palette, *n));
}

/// The pixel buffer of a `width` by `height` image whose pixel `i`, in
/// row-major order, escaped after `counts[i]` iterations, its pixels filled
/// in parallel on rayon's worker threads.
pub fn render(width: u32, height: u32, counts: &Vec<u32>, palette: &Palette) -> (r: Result<
    Vec<u8>,
    RenderError,
>)
    requires
        palette.wf(),
    ensures
        match render_error(width as nat, height as nat, counts@.len()) {
            Some(e) => r == Err::<Vec<u8>, RenderError>(e),
            None => r is Ok && r->Ok_0@ == pixels_of(counts@, *palette),
        },
{
    let n = match pixel_count(width, height) {
        Err(e) => return Err(e),
        Ok(n) => n,
    };
    assert(width * height <= 3 * width * height) by (nonlinear_arith);
    assert(3 * n <= usize::MAX) by (nonlinear_arith)
        requires
            n == width * height,
            3 * width * height <= usize::MAX,
    ;
    if counts.len() != n {
        return Err(RenderError::CountMismatch);
    }
    let mut buf: Vec<u8> = vec![0u8; 3 * n];
    fill_parallel(&mut buf, counts, palette);
    proof {
        lemma_filled_buffer_is_rendered(counts@, *palette, buf@);
    }
    Ok(buf)
}

/// A buffer in which every pixel's three bytes hold that pixel's color is the
/// rendered buffer, whatever order or grouping of pixels filled it: two renders
/// of the same counts and palette are byte for byte the same.
pub proof fn lemma_filled_buffer_is_rendered(counts: Seq<u32>, palette: Palette, buf: Seq<u8>)
    requires
        buf.len() == 3 * counts.len(),
        forall|i: int|
            0 <= i < counts.len() ==> slot_holds(buf, i, palette.color_of(counts[i] as nat)),
    ensures
        buf == pixels_of(counts, palette),
{
    let spec_buf = pixels_of(counts, palette);
    assert forall|k: int| 0 <= k < buf.len() implies buf[k] == spec_buf[k] by {
        let i = k / 3;
        assert(0 <= i < counts.len());
        assert(k == 3 * i || k == 3 * i + 1 || k == 3 * i + 2);
        assert(slot_holds(buf, i, palette.color_of(counts[i] as nat)));
    }
    assert(buf =~= spec_buf);
}

/// Two buffers filled pixel by pixel from the same counts and palette, in any
/// order, are identical.
pub proof fn lemma_fill_is_deterministic(
    counts: Seq<u32>,
    palette: Palette,
    a: Seq<u8>,
    b: Seq<u8>,
)
    requires
        a.len() == 3 * counts.len(),
        b.len() == 3 * counts.len(),
        forall|i: int|
            0 <= i < counts.len() ==> slot_holds(a, i, palette.color_of(counts[i] as nat)),
        forall|i: int|
            0 <= i < counts.len() ==> slot_holds(b, i, palette.color_of(counts[i] as nat)),
    ensures
        a == b,
{
    lemma_filled_buffer_is_rendered(counts, palette, a);
    lemma_filled_buffer_is_rendered(counts, palette, b);
}

} // verus!
