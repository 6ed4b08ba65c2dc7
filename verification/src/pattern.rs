//! Color-filter-array patterns offered by the raw-input panel.
//!
//! The panel lists the patterns by name; the short names are themselves
//! the pattern strings, while the special entries expand to their full
//! cell layout.  Entry 0 stands for a grayscale source with no pattern.

use vstd::prelude::*;

use crate::ops::ProcOps;

verus! {

/// Number of selectable patterns.
pub const PATTERN_COUNT: usize = 11;

/// The display name of pattern `i`.
pub open spec fn pattern_name(i: int) -> Seq<char> {
    if i == 0 {
        "Monochrome"@
    } else if i == 1 {
        "RGGB"@
    } else if i == 2 {
        "GRBG"@
    } else if i == 3 {
        "GBRG"@
    } else if i == 4 {
        "BGGR"@
    } else if i == 5 {
        "Xtrans1"@
    } else if i == 6 {
        "Xtrans2"@
    } else if i == 7 {
        "Xtrans3"@
    } else if i == 8 {
        "ERBG"@
    } else if i == 9 {
        "RGEB"@
    } else {
        "EBGR4"@
    }
}

/// The cell layout of pattern `i`: the name itself, except for the
/// entries that abbreviate a longer layout.
pub open spec fn pattern_cfa(i: int) -> Seq<char> {
    if i == 5 {
        "GBGGRGRGRBGBGBGGRGGRGGBGBGBRGRGRGGBG"@
    } else if i == 6 {
        "GGRGGBGGBGGRBRGRBGGGBGGRGGRGGBRBGBRG"@
    } else if i == 7 {
        "RBGBRGGGRGGBGGBGGRBRGRBGGGBGGRGGRGGB"@
    } else if i == 10 {
        "EBGRBERGEBRGBEGR"@
    } else {
        pattern_name(i)
    }
}

/// The cell layout of the selected pattern.
pub fn get_pattern(patnum: usize) -> (r: String)
    requires
        patnum < PATTERN_COUNT,
    ensures
        r@ == pattern_cfa(patnum as int),
{
    let s: &str = if patnum == 0 {
        "Monochrome"
    } else if patnum == 1 {
        "RGGB"
    } else if patnum == 2 {
        "GRBG"
    } else if patnum == 3 {
        "GBRG"
    } else if patnum == 4 {
        "BGGR"
    } else if patnum == 5 {
        "GBGGRGRGRBGBGBGGRGGRGGBGBGBRGRGRGGBG"
    } else if patnum == 6 {
        "GGRGGBGGBGGRBRGRBGGGBGGRGGRGGBRBGBRG"
    } else if patnum == 7 {
        "RBGBRGGGRGGBGGBGGRBRGRBGGGBGGRGGRGGB"
    } else if patnum == 8 {
        "ERBG"
    } else if patnum == 9 {
        "RGEB"
    } else {
        "EBGRBERGEBRGBEGR"
    };
    s.to_string()
}

/// The first pattern index at or after `i` whose layout is `cfa`.
pub open spec fn cfa_index_from(cfa: Seq<char>, i: int) -> Option<int>
    decreases PATTERN_COUNT - i,
{
    if i >= PATTERN_COUNT {
        None
    } else if pattern_cfa(i) == cfa {
        Some(i)
    } else {
        cfa_index_from(cfa, i + 1)
    }
}

/// The pattern index an option set selects: 0 for a grayscale source,
/// else the first pattern matching the configured layout, else nothing.
pub open spec fn patnum_spec(ops: crate::ops::OpsView) -> Option<int> {
    if !ops.gofloat.is_cfa {
        Some(0)
    } else {
        cfa_index_from(ops.cfa, 0)
    }
}

/// The pattern index to preselect in the panel for an option set.
pub fn get_patnum(ops: &ProcOps) -> (r: Option<usize>)
    ensures
        match r {
            Some(i) => patnum_spec(ops@) == Some(i as int),
            None => patnum_spec(ops@) is None,
        },
{
    if !ops.gofloat.is_cfa {
        return Some(0);
    }
    let mut i: usize = 0;
    while i < PATTERN_COUNT
        invariant
            0 <= i <= PATTERN_COUNT,
            ops@.gofloat.is_cfa,
            cfa_index_from(ops@.cfa, 0) == cfa_index_from(ops@.cfa, i as int),
        decreases PATTERN_COUNT - i,
    {
        if get_pattern(i) == ops.demosaic.cfa {
            return Some(i);
        }
        i = i + 1;
    }
    None
}

} // verus!
