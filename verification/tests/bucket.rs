use chimper::bucket::level_bounds;
use chimper::find_level;
use chimper::smallest_size;

#[test]
fn small_thumbnail_is_level_zero() {
    assert_eq!(find_level(640, 480), 0);
    assert_eq!(smallest_size(640, 480), 0);
    assert_eq!(find_level(0, 0), 0);
    assert_eq!(find_level(1, 1), 0);
}

#[test]
fn one_pixel_over_moves_one_level_up() {
    assert_eq!(find_level(641, 480), 1);
    assert_eq!(find_level(640, 481), 1);
    assert_eq!(smallest_size(641, 480), 1);
}

#[test]
fn huge_request_is_unbounded_level() {
    assert_eq!(find_level(100000, 100000), 6);
    assert_eq!(smallest_size(100000, 100000), 6);
    assert_eq!(find_level(u32::MAX, u32::MAX), 6);
}

#[test]
fn both_dimensions_must_fit() {
    // Narrow but tall: the height picks the level.
    assert_eq!(find_level(100, 2000), 4);
    // Wide but short: the width picks the level.
    assert_eq!(find_level(5000, 100), 5);
}

#[test]
fn each_level_maps_to_itself() {
    for i in 0..7 {
        let (w, h) = level_bounds(i);
        if i < 6 {
            assert_eq!(find_level(w, h), i);
        } else {
            assert_eq!((w, h), (0, 0));
        }
    }
}

#[test]
fn table_bounds_are_ascending() {
    assert_eq!(level_bounds(0), (640, 480));
    assert_eq!(level_bounds(1), (1400, 800));
    assert_eq!(level_bounds(2), (2000, 1200));
    assert_eq!(level_bounds(3), (2600, 1600));
    assert_eq!(level_bounds(4), (4100, 2200));
    assert_eq!(level_bounds(5), (5200, 2900));
}
