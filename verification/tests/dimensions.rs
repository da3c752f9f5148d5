use libcaesium::resize::compute_dimensions;

#[test]
fn downscale_exact() {
    let original_width = 800;
    let original_height = 600;

    assert_eq!(
        compute_dimensions(original_width, original_height, 300, 300, 0, 0, false),
        (300, 300)
    )
}

#[test]
fn same_exact() {
    let original_width = 800;
    let original_height = 600;

    assert_eq!(
        compute_dimensions(original_width, original_height, 800, 600, 0, 0, false),
        (800, 600)
    )
}

#[test]
fn downscale_on_width() {
    let original_width = 800;
    let original_height = 600;

    assert_eq!(
        compute_dimensions(original_width, original_height, 750, 0, 0, 0, false),
        (750, 563)
    )
}

#[test]
fn downscale_on_height() {
    let original_width = 800;
    let original_height = 600;

    assert_eq!(
        compute_dimensions(original_width, original_height, 0, 478, 0, 0, false),
        (637, 478)
    )
}

#[test]
fn unconstrained_request_keeps_original() {
    assert_eq!(compute_dimensions(800, 600, 0, 0, 0, 0, false), (800, 600));
    assert_eq!(compute_dimensions(800, 600, 0, 0, 0, 0, true), (800, 600));
    assert_eq!(compute_dimensions(1, 1, 0, 0, 0, 0, false), (1, 1));
}

#[test]
fn power_of_2_downscale() {
    // 800x600 halved twice fits a width target of 200: (200, 150).
    assert_eq!(compute_dimensions(800, 600, 200, 0, 0, 0, true), (200, 150));
    // both targets: halve until 800 <= 250 and 600 <= 250 -> k = 2 is not
    // enough for 800 (200 <= 250 at k = 2, 150 <= 250), so (200, 150).
    assert_eq!(compute_dimensions(800, 600, 250, 250, 0, 0, true), (200, 150));
    // ceilings: 1000x700 with width cap 4 halves 8 times: 1000/256 and
    // 700/256 rounded up.
    assert_eq!(compute_dimensions(1000, 700, 4, 0, 0, 0, true), (4, 3));
}

#[test]
fn power_of_2_needs_real_downscale() {
    // a target of 3 or less never activates the power-of-2 branch
    assert_eq!(compute_dimensions(800, 600, 3, 0, 0, 0, true), (3, 2));
    // nor does a target at or above the original axis
    assert_eq!(compute_dimensions(800, 600, 800, 600, 0, 0, true), (800, 600));
}

#[test]
fn short_long_side_targets() {
    // landscape: the long side is the width
    assert_eq!(compute_dimensions(800, 600, 0, 0, 300, 400, false), (400, 300));
    // portrait: the short side is the width
    assert_eq!(compute_dimensions(600, 800, 0, 0, 300, 400, false), (300, 400));
    // a short-side target alone derives the other axis from the ratio
    assert_eq!(compute_dimensions(800, 600, 0, 0, 300, 0, false), (400, 300));
    // explicit axes beat short/long-side targets
    assert_eq!(compute_dimensions(800, 600, 100, 100, 300, 400, false), (100, 100));
}

#[test]
fn derived_axis_rounds_half_away_from_zero() {
    // 100 * 150 / 200 = 75 exactly
    assert_eq!(compute_dimensions(200, 150, 100, 0, 0, 0, false), (100, 75));
    // 150 * 200 / 150 = 200: height known
    assert_eq!(compute_dimensions(200, 150, 0, 75, 0, 0, false), (100, 75));
    // 5 * 2 / 4 = 2.5 rounds up to 3
    assert_eq!(compute_dimensions(4, 2, 5, 0, 0, 0, false), (5, 3));
}

#[test]
fn derived_axis_is_clamped_positive() {
    // 1 * 1 / 10000 rounds to 0 and is clamped to 1
    assert_eq!(compute_dimensions(10000, 1, 1, 0, 0, 0, false), (1, 1));
}
