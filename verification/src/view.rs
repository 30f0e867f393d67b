//! The viewport: the view state (zoom, center, dimensions), the pixel-to-plane
//! coordinate transform, and the controller that turns host events (resize,
//! re-render key, zoom clicks) into new view state and dirty flags.
//!
//! A pixel column `px` of a `width`-pixel viewport maps to the real part
//! `(3.0 / zoom) * (px - width/2) / width + center_re` (and rows likewise with
//! a 2.0 vertical span), computed exactly in fixed point as one truncating
//! division, then clamped to the evaluator's coordinate range.

use vstd::prelude::*;
use vstd::arithmetic::div_mod::{
    lemma_div_is_ordered_by_denominator, lemma_div_multiples_vanish, lemma_div_of0,
    lemma_fundamental_div_mod,
};
use crate::escape::COORD_MAX;
use crate::fixed::{clamp_i64, div_signed_mag, sabs, spec_clamp, tdiv, FIX_ONE};

verus! {

/// Largest viewport dimension the transform accepts.
pub const MAX_DIM: u32 = 16384;

/// Smallest zoom factor, 2^-24 in real terms: one fixed-point unit.
pub const ZOOM_MIN: i64 = 1;

/// Largest zoom factor, 2^16 in real terms (2^40 fixed-point units).
pub const ZOOM_MAX: i64 = 1099511627776;

/// The zoom factor, center coordinate and viewport dimensions that determine
/// which region of the plane is rendered.
#[derive(Clone, Copy, PartialEq, Eq, Structural, Debug)]
pub struct ViewState {
    /// Scale factor in fixed-point units; `FIX_ONE` is a zoom of 1.
    pub zoom: i64,
    /// Real part of the view center, fixed point.
    pub center_re: i64,
    /// Imaginary part of the view center, fixed point.
    pub center_im: i64,
    /// Viewport width in pixels.
    pub width: u32,
    /// Viewport height in pixels.
    pub height: u32,
}

/// Real part of the plane coordinate of pixel column `px`:
/// `(3/zoom) * (px - width/2) / width + center_re`, truncated toward zero and
/// clamped to the evaluator's range.  The numerator constant is `3 * 2^48`,
/// the horizontal span times both fixed-point scales.
pub open spec fn spec_pixel_re(v: ViewState, px: int) -> int {
    spec_clamp(
        tdiv(844424930131968 * (2 * px - v.width), 2 * (v.width as int) * (v.zoom as int))
            + v.center_re,
        COORD_MAX as int,
    )
}

/// Imaginary part of the plane coordinate of pixel row `py`:
/// `(2/zoom) * (py - height/2) / height + center_im`, with `2 * 2^48` as the
/// numerator constant.
pub open spec fn spec_pixel_im(v: ViewState, py: int) -> int {
    spec_clamp(
        tdiv(562949953421312 * (2 * py - v.height), 2 * (v.height as int) * (v.zoom as int))
            + v.center_im,
        COORD_MAX as int,
    )
}

/// Zooming in doubles the zoom factor, saturating at `ZOOM_MAX`.
pub open spec fn spec_zoom_in(z: int) -> int {
    if 2 * z <= ZOOM_MAX {
        2 * z
    } else {
        z
    }
}

/// Zooming out halves the zoom factor, saturating at `ZOOM_MIN`.
pub open spec fn spec_zoom_out(z: int) -> int {
    if z >= 2 * ZOOM_MIN {
        z / 2
    } else {
        z
    }
}

/// The view state after a zoom-in click at pixel `(px, py)`: the center moves
/// to the clicked plane coordinate and the zoom doubles.
pub open spec fn spec_apply_zoom_in(v: ViewState, px: int, py: int) -> ViewState {
    ViewState {
        zoom: spec_zoom_in(v.zoom as int) as i64,
        center_re: spec_pixel_re(v, px) as i64,
        center_im: spec_pixel_im(v, py) as i64,
        width: v.width,
        height: v.height,
    }
}

/// The view state after a zoom-out click at pixel `(px, py)`: the center moves
/// to the clicked plane coordinate and the zoom halves.
pub open spec fn spec_apply_zoom_out(v: ViewState, px: int, py: int) -> ViewState {
    ViewState {
        zoom: spec_zoom_out(v.zoom as int) as i64,
        center_re: spec_pixel_re(v, px) as i64,
        center_im: spec_pixel_im(v, py) as i64,
        width: v.width,
        height: v.height,
    }
}

impl ViewState {
    /// The state's invariant: positive bounded dimensions, a positive bounded
    /// zoom, and a center within the evaluator's coordinate range.
    pub open spec fn wf(self) -> bool {
        &&& 1 <= self.width <= MAX_DIM
        &&& 1 <= self.height <= MAX_DIM
        &&& ZOOM_MIN <= self.zoom <= ZOOM_MAX
        &&& sabs(self.center_re as int) <= COORD_MAX as int
        &&& sabs(self.center_im as int) <= COORD_MAX as int
    }

    /// The default view: zoom 1.0, centered on (-0.5, 0).
    pub open spec fn spec_initial(width: u32, height: u32) -> ViewState {
        ViewState {
            zoom: FIX_ONE,
            center_re: -8388608i64,
            center_im: 0,
            width,
            height,
        }
    }

    /// Builds the default view for a viewport of the given size.
    pub fn initial(width: u32, height: u32) -> (v: ViewState)
        requires
            1 <= width <= MAX_DIM,
            1 <= height <= MAX_DIM,
        ensures
            v == ViewState::spec_initial(width, height),
            v.wf(),
    {
        ViewState { zoom: FIX_ONE, center_re: -8388608, center_im: 0, width, height }
    }
}

/// Maps pixel `(px, py)` to the plane coordinate it shows, exactly as
/// `spec_pixel_re` / `spec_pixel_im` state.
pub fn pixel_to_plane(v: &ViewState, px: u32, py: u32) -> (c: (i64, i64))
    requires
        v.wf(),
        px <= v.width,
        py <= v.height,
    ensures
        c.0 as int == spec_pixel_re(*v, px as int),
        c.1 as int == spec_pixel_im(*v, py as int),
        sabs(c.0 as int) <= COORD_MAX as int,
        sabs(c.1 as int) <= COORD_MAX as int,
{
    let cx: i64 = pixel_axis(844424930131968, px, v.width, v.zoom, v.center_re);
    let cy: i64 = pixel_axis(562949953421312, py, v.height, v.zoom, v.center_im);
    (cx, cy)
}

/// One axis of the transform: `clamp(tdiv(span_num * (2*p - dim), 2 * dim *
/// zoom) + center)` for a span numerator of at most `3 * 2^48`.
fn pixel_axis(span_num: u64, p: u32, dim: u32, zoom: i64, center: i64) -> (r: i64)
    requires
        span_num <= 844424930131968,
        1 <= dim <= MAX_DIM,
        ZOOM_MIN <= zoom <= ZOOM_MAX,
        p <= dim,
        sabs(center as int) <= COORD_MAX as int,
    ensures
        r as int == spec_clamp(
            tdiv(span_num as int * (2 * (p as int) - dim), 2 * (dim as int) * (zoom as int))
                + center,
            COORD_MAX as int,
        ),
        sabs(r as int) <= COORD_MAX as int,
{
    let t: i64 = 2 * (p as i64) - (dim as i64);
    let neg: bool = t < 0;
    let ut: u64 = if neg {
        (-t) as u64
    } else {
        t as u64
    };
    assert(ut as int == sabs(t as int) && ut <= 16384);
    assert(span_num * ut <= 13835058055282163712) by (nonlinear_arith)
        requires
            span_num <= 844424930131968,
            ut <= 16384,
    ;
    let num: u64 = span_num * ut;
    assert(2 * (dim as int) * (zoom as int) <= 36028797018963968 && 2 <= 2 * (dim as int) * (
    zoom as int)) by (nonlinear_arith)
        requires
            1 <= dim <= 16384,
            1 <= zoom <= 1099511627776,
    ;
    let den: u64 = 2 * (dim as u64) * (zoom as u64);
    proof {
        lemma_div_is_ordered_by_denominator(num as int, 2, den as int);
        assert(num as int / 2 <= 6917529027641081856);
        assert(num as int / den as int <= 6917529027641081856);
    }
    let off: i64 = div_signed_mag(neg, num, den);
    assert(num as int == span_num as int * (ut as int)) by (nonlinear_arith)
        requires
            num == span_num * ut,
            span_num <= 844424930131968,
            ut <= 16384,
    ;
    assert(span_num as int * (t as int) == if neg {
        -(num as int)
    } else {
        num as int
    }) by (nonlinear_arith)
        requires
            num as int == span_num as int * (ut as int),
            neg ==> ut as int == -(t as int),
            !neg ==> ut as int == t as int,
    ;
    let sum: i64 = off + center;
    clamp_i64(sum, COORD_MAX)
}

/// Law: the screen center maps back to the view center exactly, for every
/// zoom and every even viewport size.
pub proof fn lemma_center_round_trip(v: ViewState)
    requires
        v.wf(),
        v.width % 2 == 0,
        v.height % 2 == 0,
    ensures
        spec_pixel_re(v, (v.width / 2) as int) == v.center_re,
        spec_pixel_im(v, (v.height / 2) as int) == v.center_im,
{
    lemma_fundamental_div_mod(v.width as int, 2);
    lemma_fundamental_div_mod(v.height as int, 2);
    assert(2 * ((v.width / 2) as int) - v.width == 0);
    assert(2 * ((v.height / 2) as int) - v.height == 0);
    assert(2 <= 2 * (v.width as int) * (v.zoom as int) && 2 <= 2 * (v.height as int) * (
    v.zoom as int)) by (nonlinear_arith)
        requires
            1 <= v.width,
            1 <= v.height,
            1 <= v.zoom,
    ;
    lemma_div_of0(2 * (v.width as int) * (v.zoom as int));
    lemma_div_of0(2 * (v.height as int) * (v.zoom as int));
}

/// Law: a zoom-in click followed by a zoom-out click at the same pointer
/// position restores the zoom factor exactly, and each click recenters the
/// view on the plane coordinate of that click (the second on the coordinate
/// under the zoomed-in view, not on the original center).
pub proof fn lemma_zoom_round_trip(v: ViewState, px: int, py: int)
    requires
        v.wf(),
        2 * v.zoom <= ZOOM_MAX,
    ensures
        spec_apply_zoom_out(spec_apply_zoom_in(v, px, py), px, py).zoom == v.zoom,
        spec_apply_zoom_in(v, px, py).center_re == spec_pixel_re(v, px),
        spec_apply_zoom_in(v, px, py).center_im == spec_pixel_im(v, py),
        spec_apply_zoom_out(spec_apply_zoom_in(v, px, py), px, py).center_re == spec_pixel_re(
            spec_apply_zoom_in(v, px, py),
            px,
        ),
        spec_apply_zoom_out(spec_apply_zoom_in(v, px, py), px, py).center_im == spec_pixel_im(
            spec_apply_zoom_in(v, px, py),
            py,
        ),
{
    let z: int = v.zoom as int;
    lemma_div_multiples_vanish(z, 2);
    assert(spec_zoom_out(spec_zoom_in(z)) == z);
    lemma_pixel_range(v, px, py);
    lemma_pixel_range(spec_apply_zoom_in(v, px, py), px, py);
}

/// The transform's result always lies in the evaluator's coordinate range.
pub proof fn lemma_pixel_range(v: ViewState, px: int, py: int)
    ensures
        sabs(spec_pixel_re(v, px)) <= COORD_MAX as int,
        sabs(spec_pixel_im(v, py)) <= COORD_MAX as int,
{
}

/// The viewport controller: owns the view state and the two dirty flags.
/// `needs_render` marks the pixel buffer stale; `view_changed` marks that the
/// view changed since the display step last consumed the flag.
#[derive(Clone, Copy, PartialEq, Eq, Structural, Debug)]
pub struct Controller {
    pub view: ViewState,
    pub needs_render: bool,
    pub view_changed: bool,
}

impl Controller {
    /// The controller's invariant: its view state is well formed.
    pub open spec fn wf(self) -> bool {
        self.view.wf()
    }

    /// A fresh controller starts dirty: the first frame must render.
    pub fn new(width: u32, height: u32) -> (c: Controller)
        requires
            1 <= width <= MAX_DIM,
            1 <= height <= MAX_DIM,
        ensures
            c.view == ViewState::spec_initial(width, height),
            c.needs_render,
            !c.view_changed,
            c.wf(),
    {
        Controller { view: ViewState::initial(width, height), needs_render: true, view_changed: false }
    }

    /// Resize event: adopt the new dimensions and flag the view as changed;
    /// by itself this does not force a re-render.
    pub fn on_resize(&mut self, width: u32, height: u32)
        requires
            old(self).wf(),
            1 <= width <= MAX_DIM,
            1 <= height <= MAX_DIM,
        ensures
            final(self).view.width == width,
            final(self).view.height == height,
            final(self).view.zoom == old(self).view.zoom,
            final(self).view.center_re == old(self).view.center_re,
            final(self).view.center_im == old(self).view.center_im,
            final(self).view_changed,
            final(self).needs_render == old(self).needs_render,
            final(self).wf(),
    {
        self.view.width = width;
        self.view.height = height;
        self.view_changed = true;
    }

    /// Re-render key event: mark the pixel buffer stale, nothing else.
    pub fn on_rerender_key(&mut self)
        ensures
            final(self).needs_render,
            final(self).view == old(self).view,
            final(self).view_changed == old(self).view_changed,
    {
        self.needs_render = true;
    }

    /// Primary-button click at pixel `(px, py)`: recenter on the clicked
    /// plane coordinate and zoom in; both flags are raised.
    pub fn on_zoom_in(&mut self, px: u32, py: u32)
        requires
            old(self).wf(),
            px <= old(self).view.width,
            py <= old(self).view.height,
        ensures
            final(self).view == spec_apply_zoom_in(old(self).view, px as int, py as int),
            final(self).needs_render,
            final(self).view_changed,
            final(self).wf(),
    {
        let c: (i64, i64) = pixel_to_plane(&self.view, px, py);
        self.view.center_re = c.0;
        self.view.center_im = c.1;
        self.view.zoom = zoom_in_level(self.view.zoom);
        self.needs_render = true;
        self.view_changed = true;
    }

    /// Secondary-button click at pixel `(px, py)`: recenter on the clicked
    /// plane coordinate and zoom out; both flags are raised.
    pub fn on_zoom_out(&mut self, px: u32, py: u32)
        requires
            old(self).wf(),
            px <= old(self).view.width,
            py <= old(self).view.height,
        ensures
            final(self).view == spec_apply_zoom_out(old(self).view, px as int, py as int),
            final(self).needs_render,
            final(self).view_changed,
            final(self).wf(),
    {
        let c: (i64, i64) = pixel_to_plane(&self.view, px, py);
        self.view.center_re = c.0;
        self.view.center_im = c.1;
        self.view.zoom = zoom_out_level(self.view.zoom);
        self.needs_render = true;
        self.view_changed = true;
    }

    /// The display step consumes `view_changed` (it decides whether to show
    /// the hint) and clears it.
    pub fn consume_view_changed(&mut self) -> (r: bool)
        ensures
            r == old(self).view_changed,
            !final(self).view_changed,
            final(self).view == old(self).view,
            final(self).needs_render == old(self).needs_render,
    {
        let r: bool = self.view_changed;
        self.view_changed = false;
        r
    }
}

/// The zoom-target indicator: a rectangle of half the viewport's size,
/// centered on the pointer, as `(left, top, width, height)`.  The display
/// sink draws it each frame; a zoom-in click magnifies exactly this region.
pub fn indicator_rect(px: u32, py: u32, width: u32, height: u32) -> (r: (i64, i64, u32, u32))
    requires
        width <= MAX_DIM,
        height <= MAX_DIM,
        px <= width,
        py <= height,
    ensures
        r.0 == px - width / 4,
        r.1 == py - height / 4,
        r.2 == width / 2,
        r.3 == height / 2,
{
    (
        px as i64 - (width / 4) as i64,
        py as i64 - (height / 4) as i64,
        width / 2,
        height / 2,
    )
}

/// Doubles a zoom level, saturating at `ZOOM_MAX`.
fn zoom_in_level(z: i64) -> (r: i64)
    requires
        ZOOM_MIN <= z <= ZOOM_MAX,
    ensures
        r as int == spec_zoom_in(z as int),
        ZOOM_MIN <= r <= ZOOM_MAX,
{
    if z <= 549755813888 {
        2 * z
    } else {
        z
    }
}

/// Halves a zoom level, saturating at `ZOOM_MIN`.
fn zoom_out_level(z: i64) -> (r: i64)
    requires
        ZOOM_MIN <= z <= ZOOM_MAX,
    ensures
        r as int == spec_zoom_out(z as int),
        ZOOM_MIN <= r <= ZOOM_MAX,
{
    if z >= 2 {
        ((z as u64) / 2) as i64
    } else {
        z
    }
}

} // verus!
