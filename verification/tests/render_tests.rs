use mandelbrot::escape::escape_time;
use mandelbrot::render::{intensity, render_frame};
use mandelbrot::view::{pixel_to_plane, Controller, ViewState};
use mandelbrot::{Pixels, HEIGHT, MAX_ITER, WIDTH};

#[test]
fn intensity_ramp_values() {
    assert_eq!(intensity(64, 64), 0);
    assert_eq!(intensity(0, 64), 255);
    assert_eq!(intensity(1, 64), 252);
    assert_eq!(intensity(32, 64), 128);
    assert_eq!(intensity(63, 64), 4);
    assert_eq!(intensity(1, 1), 0);
}

#[test]
fn render_is_idempotent() {
    let v: ViewState = ViewState::initial(64, 48);
    let mut first: Pixels = Vec::new();
    let mut second: Pixels = Vec::new();
    render_frame(&mut first, &v, 32);
    render_frame(&mut second, &v, 32);
    assert_eq!(first.len(), 64 * 48);
    assert_eq!(first, second);
}

#[test]
fn buffer_is_row_major_and_matches_the_evaluator() {
    let v: ViewState = ViewState::initial(8, 4);
    let mut pixels: Pixels = Vec::new();
    render_frame(&mut pixels, &v, 16);
    assert_eq!(pixels.len(), 32);
    for y in 0u32..4 {
        for x in 0u32..8 {
            let c: (i64, i64) = pixel_to_plane(&v, x, y);
            let expected: u8 = intensity(escape_time(c.0, c.1, 16), 16);
            assert_eq!(pixels[(x + y * 8) as usize], expected);
        }
    }
}

#[test]
fn default_frame_center_and_corner() {
    // The default view: 800 x 600, zoom 1, centered on (-0.5, 0), cap 64.
    let mut c: Controller = Controller::new(WIDTH, HEIGHT);
    let mut pixels: Pixels = Vec::new();
    c.render_cycle(&mut pixels, MAX_ITER);
    assert!(!c.needs_render);
    assert_eq!(pixels.len(), 480000);
    // The screen center shows the view center (-0.5, 0), a stable interior
    // coordinate: intensity 0.
    assert_eq!(pixels[(400 + 300 * 800) as usize], 0);
    // The far corner shows (-2, -1), which escapes on the first iteration:
    // intensity 255 - 1 * 255 / 64 = 252, in particular visible.
    assert_eq!(pixels[0], 252);
    assert!(pixels[0] > 0);
}

#[test]
fn render_cycle_skips_when_clean() {
    let mut c: Controller = Controller::new(16, 16);
    let mut pixels: Pixels = Vec::new();
    c.render_cycle(&mut pixels, 8);
    assert!(!c.needs_render);
    pixels[0] = 7;
    c.render_cycle(&mut pixels, 8);
    assert_eq!(pixels[0], 7);
    c.on_rerender_key();
    c.render_cycle(&mut pixels, 8);
    let corner: (i64, i64) = pixel_to_plane(&c.view, 0, 0);
    assert_eq!(pixels[0], intensity(escape_time(corner.0, corner.1, 8), 8));
}
