use mandelbrot::fixed::FIX_ONE;
use mandelbrot::view::{indicator_rect, pixel_to_plane, Controller, ViewState, ZOOM_MAX, ZOOM_MIN};

#[test]
fn initial_view_defaults() {
    let v: ViewState = ViewState::initial(800, 600);
    assert_eq!(v.zoom, FIX_ONE);
    assert_eq!(v.center_re, -FIX_ONE / 2);
    assert_eq!(v.center_im, 0);
    assert_eq!(v.width, 800);
    assert_eq!(v.height, 600);
}

#[test]
fn controller_starts_dirty() {
    let c: Controller = Controller::new(800, 600);
    assert!(c.needs_render);
    assert!(!c.view_changed);
}

#[test]
fn corner_pixels_map_to_span_edges() {
    // At zoom 1 around (-0.5, 0) the viewport spans 3 horizontally and 2
    // vertically: (0, 0) shows (-2, -1) and (width, height) shows (1, 1).
    let v: ViewState = ViewState::initial(800, 600);
    assert_eq!(pixel_to_plane(&v, 0, 0), (-2 * FIX_ONE, -FIX_ONE));
    assert_eq!(pixel_to_plane(&v, 800, 600), (FIX_ONE, FIX_ONE));
}

#[test]
fn screen_center_maps_to_view_center() {
    let mut c: Controller = Controller::new(800, 600);
    // Move somewhere less symmetric first.
    c.on_zoom_in(123, 456);
    c.on_zoom_in(700, 12);
    let v: ViewState = c.view;
    assert_eq!(pixel_to_plane(&v, 400, 300), (v.center_re, v.center_im));
}

#[test]
fn resize_flags_view_changed_only() {
    let mut c: Controller = Controller::new(800, 600);
    c.needs_render = false;
    c.on_resize(1024, 768);
    assert_eq!(c.view.width, 1024);
    assert_eq!(c.view.height, 768);
    assert!(c.view_changed);
    assert!(!c.needs_render);
    assert_eq!(c.view.zoom, FIX_ONE);
    assert_eq!(c.view.center_re, -FIX_ONE / 2);
}

#[test]
fn rerender_key_marks_dirty() {
    let mut c: Controller = Controller::new(800, 600);
    c.needs_render = false;
    let before: ViewState = c.view;
    c.on_rerender_key();
    assert!(c.needs_render);
    assert_eq!(c.view, before);
}

#[test]
fn center_click_keeps_center_and_doubles_zoom() {
    let mut c: Controller = Controller::new(800, 600);
    c.on_zoom_in(400, 300);
    assert_eq!(c.view.center_re, -FIX_ONE / 2);
    assert_eq!(c.view.center_im, 0);
    assert_eq!(c.view.zoom, 2 * FIX_ONE);
    assert!(c.needs_render);
    assert!(c.view_changed);
}

#[test]
fn zoom_round_trip_restores_zoom_and_recenters_on_clicks() {
    let mut c: Controller = Controller::new(800, 600);
    let clicked_first: (i64, i64) = pixel_to_plane(&c.view, 200, 150);
    c.on_zoom_in(200, 150);
    assert_eq!((c.view.center_re, c.view.center_im), clicked_first);
    assert_eq!(c.view.zoom, 2 * FIX_ONE);
    let clicked_second: (i64, i64) = pixel_to_plane(&c.view, 200, 150);
    c.on_zoom_out(200, 150);
    // The zoom factor is back to its original value; the center sits on the
    // second click's coordinate, not on the original center.
    assert_eq!(c.view.zoom, FIX_ONE);
    assert_eq!((c.view.center_re, c.view.center_im), clicked_second);
}

#[test]
fn zoom_saturates_at_its_bounds() {
    let mut c: Controller = Controller::new(800, 600);
    for _ in 0..40 {
        c.on_zoom_out(400, 300);
    }
    assert_eq!(c.view.zoom, ZOOM_MIN);
    for _ in 0..80 {
        c.on_zoom_in(400, 300);
    }
    assert_eq!(c.view.zoom, ZOOM_MAX);
}

#[test]
fn indicator_rectangle_centers_on_pointer() {
    assert_eq!(indicator_rect(400, 300, 800, 600), (200, 150, 400, 300));
    // Near the top-left edge the rectangle's corner goes negative.
    assert_eq!(indicator_rect(0, 0, 800, 600), (-200, -150, 400, 300));
}

#[test]
fn consume_view_changed_clears_the_flag() {
    let mut c: Controller = Controller::new(800, 600);
    c.on_resize(640, 480);
    assert!(c.consume_view_changed());
    assert!(!c.view_changed);
    assert!(!c.consume_view_changed());
}
