//! Resolution bucketing: quantizes an arbitrary requested (width, height)
//! onto a fixed ascending table of resolution levels so that many nearby
//! viewport sizes collapse onto one cache key.

use vstd::prelude::*;

verus! {

/// Number of levels in the resolution table; the last level is the
/// unbounded "native size" level.
pub const LEVEL_COUNT: usize = 7;

/// Maximum width of each level, in table order.  The last entry is 0,
/// standing for "no bound": decode at native size.
pub open spec fn level_max_width(i: int) -> int {
    if i == 0 {
        640
    } else if i == 1 {
        1400
    } else if i == 2 {
        2000
    } else if i == 3 {
        2600
    } else if i == 4 {
        4100
    } else if i == 5 {
        5200
    } else {
        0
    }
}

/// Maximum height of each level, in table order.  The last entry is 0,
/// standing for "no bound".
pub open spec fn level_max_height(i: int) -> int {
    if i == 0 {
        480
    } else if i == 1 {
        800
    } else if i == 2 {
        1200
    } else if i == 3 {
        1600
    } else if i == 4 {
        2200
    } else if i == 5 {
        2900
    } else {
        0
    }
}

/// A level accommodates a request only when both dimensions fit under its
/// bounds; a request wider but shorter than a level does not match it.
pub open spec fn level_fits(i: int, width: int, height: int) -> bool {
    level_max_width(i) >= width && level_max_height(i) >= height
}

/// The first level at or after `i` that fits, or the last level if none does.
pub open spec fn bucket_from(i: int, width: int, height: int) -> int
    decreases LEVEL_COUNT - i,
{
    if i >= LEVEL_COUNT - 1 {
        LEVEL_COUNT - 1
    } else if level_fits(i, width, height) {
        i
    } else {
        bucket_from(i + 1, width, height)
    }
}

/// The level a request for `width` x `height` is quantized to: the first
/// level whose bounds dominate both dimensions, or the last (unbounded)
/// level when none does.
pub open spec fn bucket_of(width: int, height: int) -> int {
    bucket_from(0, width, height)
}

/// The chosen bucket is a valid index, fits the request unless it is the
/// last level, and no earlier level fits.
pub proof fn lemma_bucket_of_is_first_fit(width: int, height: int)
    ensures
        0 <= bucket_of(width, height) < LEVEL_COUNT,
        bucket_of(width, height) < LEVEL_COUNT - 1 ==> level_fits(
            bucket_of(width, height),
            width,
            height,
        ),
        forall|j: int|
            0 <= j < bucket_of(width, height) ==> !level_fits(j, width, height),
{
    lemma_bucket_from_is_first_fit(0, width, height);
}

proof fn lemma_bucket_from_is_first_fit(i: int, width: int, height: int)
    requires
        0 <= i < LEVEL_COUNT,
    ensures
        i <= bucket_from(i, width, height) < LEVEL_COUNT,
        bucket_from(i, width, height) < LEVEL_COUNT - 1 ==> level_fits(
            bucket_from(i, width, height),
            width,
            height,
        ),
        forall|j: int|
            i <= j < bucket_from(i, width, height) ==> !level_fits(j, width, height),
    decreases LEVEL_COUNT - i,
{
    if i < LEVEL_COUNT - 1 && !level_fits(i, width, height) {
        lemma_bucket_from_is_first_fit(i + 1, width, height);
    }
}

/// The width and height bounds of level `i`, as the decoder consumes them.
pub fn level_bounds(i: usize) -> (r: (u32, u32))
    requires
        i < LEVEL_COUNT,
    ensures
        r.0 == level_max_width(i as int),
        r.1 == level_max_height(i as int),
{
    if i == 0 {
        (640, 480)
    } else if i == 1 {
        (1400, 800)
    } else if i == 2 {
        (2000, 1200)
    } else if i == 3 {
        (2600, 1600)
    } else if i == 4 {
        (4100, 2200)
    } else if i == 5 {
        (5200, 2900)
    } else {
        (0, 0)
    }
}

/// The resolution level for a request of `width` x `height` pixels: the
/// first table level whose bounds dominate both dimensions, or the last
/// (unbounded) level when none does.
pub fn find_level(width: u32, height: u32) -> (r: usize)
    ensures
        r == bucket_of(width as int, height as int),
{
    let mut i: usize = 0;
    while i < LEVEL_COUNT - 1
        invariant
            0 <= i <= LEVEL_COUNT - 1,
            bucket_of(width as int, height as int) == bucket_from(
                i as int,
                width as int,
                height as int,
            ),
        decreases LEVEL_COUNT - i,
    {
        let (w, h) = level_bounds(i);
        if w >= width && h >= height {
            return i;
        }
        i = i + 1;
    }
    i
}

/// Same quantization over `usize` dimensions, as window sizes arrive from
/// the user interface.
pub fn smallest_size(width: usize, height: usize) -> (r: usize)
    ensures
        r == bucket_of(width as int, height as int),
{
    let mut i: usize = 0;
    while i < LEVEL_COUNT - 1
        invariant
            0 <= i <= LEVEL_COUNT - 1,
            bucket_of(width as int, height as int) == bucket_from(
                i as int,
                width as int,
                height as int,
            ),
        decreases LEVEL_COUNT - i,
    {
        let (w, h) = level_bounds(i);
        if w as usize >= width && h as usize >= height {
            return i;
        }
        i = i + 1;
    }
    i
}

} // verus!
