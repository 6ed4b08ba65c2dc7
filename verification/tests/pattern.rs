use chimper::ops::DemosaicOps;
use chimper::ops::GoFloatOps;
use chimper::ops::ProcOps;
use chimper::pattern::get_patnum;
use chimper::pattern::get_pattern;

fn ops_with(cfa: &str, is_cfa: bool) -> ProcOps {
    ProcOps {
        gofloat: GoFloatOps {
            is_cfa,
            crop_top: 0,
            crop_left: 0,
            crop_right: 0,
            crop_bottom: 0,
        },
        demosaic: DemosaicOps { cfa: cfa.to_string() },
        extra: 0,
    }
}

#[test]
fn short_names_are_their_own_pattern() {
    assert_eq!(get_pattern(0), "Monochrome");
    assert_eq!(get_pattern(1), "RGGB");
    assert_eq!(get_pattern(2), "GRBG");
    assert_eq!(get_pattern(3), "GBRG");
    assert_eq!(get_pattern(4), "BGGR");
    assert_eq!(get_pattern(8), "ERBG");
    assert_eq!(get_pattern(9), "RGEB");
}

#[test]
fn special_names_expand_to_full_layout() {
    assert_eq!(get_pattern(5), "GBGGRGRGRBGBGBGGRGGRGGBGBGBRGRGRGGBG");
    assert_eq!(get_pattern(6), "GGRGGBGGBGGRBRGRBGGGBGGRGGRGGBRBGBRG");
    assert_eq!(get_pattern(7), "RBGBRGGGRGGBGGBGGRBRGRBGGGBGGRGGRGGB");
    assert_eq!(get_pattern(10), "EBGRBERGEBRGBEGR");
}

#[test]
fn grayscale_selects_the_monochrome_entry() {
    assert_eq!(get_patnum(&ops_with("whatever", false)), Some(0));
}

#[test]
fn configured_layout_selects_its_pattern() {
    assert_eq!(get_patnum(&ops_with("GRBG", true)), Some(2));
    assert_eq!(get_patnum(&ops_with("GGRGGBGGBGGRBRGRBGGGBGGRGGRGGBRBGBRG", true)), Some(6));
}

#[test]
fn unknown_layout_selects_nothing() {
    assert_eq!(get_patnum(&ops_with("QQQQ", true)), None);
}
