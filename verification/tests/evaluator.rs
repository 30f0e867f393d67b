use mandelbrot::escape::escape_time;
use mandelbrot::fixed::FIX_ONE;

#[test]
fn far_coordinate_escapes_on_first_iteration() {
    // c = (3, 0): |c| > 2, so the orbit escapes as soon as z becomes c.
    assert_eq!(escape_time(3 * FIX_ONE, 0, 64), 1);
    assert_eq!(escape_time(0, 3 * FIX_ONE, 64), 1);
    assert_eq!(escape_time(-3 * FIX_ONE, -3 * FIX_ONE, 64), 1);
}

#[test]
fn origin_reaches_cap() {
    // c = (0, 0) is inside the main cardioid: the orbit never escapes.
    assert_eq!(escape_time(0, 0, 64), 64);
    assert_eq!(escape_time(0, 0, 10), 10);
    assert_eq!(escape_time(0, 0, 0), 0);
}

#[test]
fn boundary_coordinate_escapes_after_two_iterations() {
    // c = (2, 0): |c|^2 == 4 is not yet past the escape radius, one more
    // step (z = 4 + 2 = 6) is.
    assert_eq!(escape_time(2 * FIX_ONE, 0, 64), 2);
}

#[test]
fn value_stays_within_cap() {
    let cases: Vec<(i64, i64)> = vec![
        (0, 0),
        (-2 * FIX_ONE, -FIX_ONE),
        (2 * FIX_ONE, 0),
        (-8388608, 0),
        (64 * FIX_ONE, 64 * FIX_ONE),
        (-64 * FIX_ONE, 64 * FIX_ONE),
        (FIX_ONE / 4, FIX_ONE / 4),
    ];
    for &(re, im) in cases.iter() {
        let r: u32 = escape_time(re, im, 64);
        assert!(r <= 64);
    }
}

#[test]
fn raising_cap_never_lowers_the_count() {
    // An escaping coordinate keeps its count under a larger cap.
    assert_eq!(escape_time(3 * FIX_ONE, 0, 8), escape_time(3 * FIX_ONE, 0, 64));
    assert_eq!(escape_time(-2 * FIX_ONE, -FIX_ONE, 8), escape_time(-2 * FIX_ONE, -FIX_ONE, 64));
    // A non-escaping coordinate's count grows with the cap.
    assert!(escape_time(0, 0, 8) <= escape_time(0, 0, 64));
}
