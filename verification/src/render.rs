//! The frame renderer: rebuilds a grayscale pixel buffer for the current view
//! state, one evaluator call per pixel, row-major with index `x + y * width`.
//! The buffer it produces is proved equal to `spec_frame`, a pure function of
//! the view state and the iteration cap.

use vstd::prelude::*;
use vstd::arithmetic::div_mod::{
    lemma_fundamental_div_mod, lemma_fundamental_div_mod_converse_div,
    lemma_fundamental_div_mod_converse_mod,
};
use vstd::arithmetic::mul::{lemma_mul_inequality, lemma_mul_is_commutative};
use crate::escape::{escape_time, spec_escape_time};
use crate::view::{pixel_to_plane, spec_pixel_im, spec_pixel_re, Controller, ViewState};

verus! {

/// Grayscale intensity of an escape count: 0 (black) for a coordinate that
/// never escaped within the cap, otherwise the inverse-linear ramp
/// `255 - count * 255 / max_iter`, so fast escapes are bright.
pub open spec fn spec_intensity(count: nat, max_iter: nat) -> u8
    recommends
        1 <= max_iter,
        count <= max_iter,
{
    if count == max_iter {
        0
    } else {
        (255 - count * 255 / max_iter) as u8
    }
}

/// Grayscale value of the pixel at column `x`, row `y` of the frame.
pub open spec fn spec_pixel_value(v: ViewState, max_iter: nat, x: int, y: int) -> u8 {
    spec_intensity(spec_escape_time(spec_pixel_re(v, x), spec_pixel_im(v, y), max_iter), max_iter)
}

/// The whole frame as a sequence of `width * height` grayscale bytes,
/// row-major: index `i` holds the pixel at `(i % width, i / width)`.
pub open spec fn spec_frame(v: ViewState, max_iter: nat) -> Seq<u8> {
    Seq::new(
        (v.width * v.height) as nat,
        |i: int| spec_pixel_value(v, max_iter, i % (v.width as int), i / (v.width as int)),
    )
}

/// Quantizes one escape count to its grayscale intensity.  The result is 0
/// exactly on the counts that reached the cap, so every escaping coordinate
/// gets a visible (positive) intensity.
pub fn intensity(count: u32, max_iter: u32) -> (r: u8)
    requires
        1 <= max_iter,
        count <= max_iter,
    ensures
        r == spec_intensity(count as nat, max_iter as nat),
        r == 0 <==> count == max_iter,
{
    if count == max_iter {
        0
    } else {
        let prod: u64 = (count as u64) * 255;
        let q: u64 = prod / (max_iter as u64);
        proof {
            lemma_fundamental_div_mod(prod as int, max_iter as int);
            if q >= 255 {
                lemma_mul_inequality(255, q as int, max_iter as int);
                lemma_mul_is_commutative(q as int, max_iter as int);
                assert(false);
            }
        }
        (255 - q) as u8
    }
}

/// Overwrites the buffer with the frame for the given view state: length
/// `width * height`, each byte the intensity of its pixel's escape count.
pub fn render_frame(pixels: &mut Vec<u8>, v: &ViewState, max_iter: u32)
    requires
        v.wf(),
        1 <= max_iter,
    ensures
        final(pixels)@ == spec_frame(*v, max_iter as nat),
        final(pixels)@.len() == v.width * v.height,
{
    let w: u32 = v.width;
    let h: u32 = v.height;
    pixels.clear();
    let mut y: u32 = 0;
    while y < h
        invariant
            v.wf(),
            w == v.width,
            h == v.height,
            1 <= max_iter,
            y <= h,
            pixels@.len() == y * w,
            forall|i: int|
                0 <= i < y * w ==> pixels@[i] == spec_pixel_value(
                    *v,
                    max_iter as nat,
                    i % (w as int),
                    i / (w as int),
                ),
        decreases h - y,
    {
        let mut x: u32 = 0;
        while x < w
            invariant
                v.wf(),
                w == v.width,
                h == v.height,
                1 <= max_iter,
                y < h,
                x <= w,
                pixels@.len() == y * w + x,
                forall|i: int|
                    0 <= i < y * w + x ==> pixels@[i] == spec_pixel_value(
                        *v,
                        max_iter as nat,
                        i % (w as int),
                        i / (w as int),
                    ),
            decreases w - x,
        {
            let c: (i64, i64) = pixel_to_plane(v, x, y);
            let count: u32 = escape_time(c.0, c.1, max_iter);
            let val: u8 = intensity(count, max_iter);
            proof {
                lemma_fundamental_div_mod_converse_div(
                    y as int * w as int + x as int,
                    w as int,
                    y as int,
                    x as int,
                );
                lemma_fundamental_div_mod_converse_mod(
                    y as int * w as int + x as int,
                    w as int,
                    y as int,
                    x as int,
                );
            }
            pixels.push(val);
            x = x + 1;
        }
        assert((y as int + 1) * (w as int) == y as int * w as int + w as int) by (nonlinear_arith);
        y = y + 1;
    }
    proof {
        lemma_mul_is_commutative(v.width as int, v.height as int);
        assert(pixels@ =~= spec_frame(*v, max_iter as nat));
    }
}

/// Law: the renderer is a pure function of view state and cap: two renders
/// from identical state produce identical buffers.
pub proof fn lemma_render_deterministic(
    v: ViewState,
    max_iter: nat,
    first: Seq<u8>,
    second: Seq<u8>,
)
    requires
        first == spec_frame(v, max_iter),
        second == spec_frame(v, max_iter),
    ensures
        first == second,
{
}

impl Controller {
    /// The render cycle: when the buffer is stale, rebuild it from the
    /// current view state and clear `needs_render`; `view_changed` is left
    /// for the display step to consume.
    pub fn render_cycle(&mut self, pixels: &mut Vec<u8>, max_iter: u32)
        requires
            old(self).wf(),
            1 <= max_iter,
        ensures
            final(self).view == old(self).view,
            final(self).view_changed == old(self).view_changed,
            !final(self).needs_render,
            final(self).wf(),
            old(self).needs_render ==> final(pixels)@ == spec_frame(
                old(self).view,
                max_iter as nat,
            ),
            !old(self).needs_render ==> *final(pixels) == *old(pixels),
    {
        if self.needs_render {
            render_frame(pixels, &self.view, max_iter);
            self.needs_render = false;
        }
    }
}

} // verus!
