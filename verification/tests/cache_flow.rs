use chimper::cache::ImageCache;
use chimper::ops::DemosaicOps;
use chimper::ops::GoFloatOps;
use chimper::ops::ProcOps;
use chimper::output::Bitmap;
use chimper::output::GetOutcome;
use chimper::output::PipelineOutcome;
use chimper::request::RequestedImage;

fn some_ops(extra: u64) -> ProcOps {
    ProcOps {
        gofloat: GoFloatOps {
            is_cfa: true,
            crop_top: 0,
            crop_left: 0,
            crop_right: 0,
            crop_bottom: 0,
        },
        demosaic: DemosaicOps { cfa: "RGGB".to_string() },
        extra,
    }
}

fn request(file: &str, ops: Option<ProcOps>) -> RequestedImage {
    RequestedImage { file: file.to_string(), width: 800, height: 600, ops }
}

/// A stub decode: a 4x4 bitmap, 48 bytes.
fn decoded(applied: ProcOps) -> PipelineOutcome {
    PipelineOutcome::Decoded {
        image: Bitmap { data: vec![7u8; 48], width: 4, height: 4 },
        ops: applied,
        default_ops: some_ops(0),
    }
}

/// Runs a full miss-decode-complete cycle, counting it as one decode.
fn populate(cache: &mut ImageCache, req: &RequestedImage, applied: ProcOps, decodes: &mut u32) {
    match cache.get(req) {
        GetOutcome::Miss(preq) => {
            assert_eq!(preq.file, req.file);
            *decodes += 1;
            let res = cache.complete(req, decoded(applied));
            assert!(res.image.is_some());
        }
        _ => panic!("expected a miss"),
    }
}

#[test]
fn miss_reports_level_bounds() {
    let mut cache = ImageCache::new();
    let req = request("a.raw", None);
    match cache.get(&req) {
        GetOutcome::Miss(preq) => {
            // 800 x 600 quantizes to the second level.
            assert_eq!(preq.maxwidth, 1400);
            assert_eq!(preq.maxheight, 800);
            assert_eq!(preq.ops, None);
        }
        _ => panic!("expected a miss on an empty cache"),
    }
}

#[test]
fn second_lookup_sees_work_in_flight() {
    let mut cache = ImageCache::new();
    let req = request("a.raw", None);
    assert!(matches!(cache.get(&req), GetOutcome::Miss(_)));
    // The guard entry suppresses a duplicate decode for the same key.
    assert!(matches!(cache.get(&req), GetOutcome::Pending(_)));
}

#[test]
fn idempotent_hit_after_publication() {
    let mut cache = ImageCache::new();
    let req = request("a.raw", None);
    let mut decodes = 0;
    populate(&mut cache, &req, some_ops(1), &mut decodes);
    for _ in 0..3 {
        match cache.get(&req) {
            GetOutcome::Hit(res) => {
                let out = res.image.expect("hit carries the output");
                assert_eq!(out.image.data, vec![7u8; 48]);
                assert_eq!(out.ops, some_ops(1));
                // A 4x4 decode is far below its level bounds: native size.
                assert_eq!(out.maxwidth, u32::MAX);
                assert_eq!(out.maxheight, u32::MAX);
            }
            _ => panic!("expected a hit after publication"),
        }
    }
    assert_eq!(decodes, 1);
}

#[test]
fn dual_key_publication_hits_resolved_options() {
    let mut cache = ImageCache::new();
    let req = request("a.raw", None);
    let applied = some_ops(9);
    let mut decodes = 0;
    populate(&mut cache, &req, applied.clone(), &mut decodes);
    // Echoing the resolved options back must hit without a new decode.
    let echoed = request("a.raw", Some(applied));
    match cache.get(&echoed) {
        GetOutcome::Hit(res) => {
            assert_eq!(res.image.unwrap().ops, some_ops(9));
        }
        _ => panic!("expected a hit under the resolved options"),
    }
    assert_eq!(decodes, 1);
}

#[test]
fn distinct_options_are_independent_entries() {
    let mut cache = ImageCache::new();
    let req1 = request("a.raw", Some(some_ops(1)));
    let req2 = request("a.raw", Some(some_ops(2)));
    let mut decodes = 0;
    populate(&mut cache, &req1, some_ops(1), &mut decodes);
    // Different options: an independent miss and an independent decode.
    populate(&mut cache, &req2, some_ops(2), &mut decodes);
    assert_eq!(decodes, 2);
    match cache.get(&req1) {
        GetOutcome::Hit(res) => assert_eq!(res.image.unwrap().ops, some_ops(1)),
        _ => panic!("first entry must survive"),
    }
    match cache.get(&req2) {
        GetOutcome::Hit(res) => assert_eq!(res.image.unwrap().ops, some_ops(2)),
        _ => panic!("second entry must stand beside the first"),
    }
}

#[test]
fn eviction_over_budget_forgets_oldest() {
    // Two 48-byte entries fit a 100-byte budget; a third evicts the oldest.
    let mut cache = ImageCache::with_budget(100);
    let r1 = request("one.raw", Some(some_ops(1)));
    let r2 = request("two.raw", Some(some_ops(1)));
    let r3 = request("three.raw", Some(some_ops(1)));
    let mut decodes = 0;
    populate(&mut cache, &r1, some_ops(1), &mut decodes);
    populate(&mut cache, &r2, some_ops(1), &mut decodes);
    populate(&mut cache, &r3, some_ops(1), &mut decodes);
    assert!(matches!(cache.get(&r1), GetOutcome::Miss(_)), "oldest entry must be evicted");
    assert!(matches!(cache.get(&r2), GetOutcome::Hit(_)));
    assert!(matches!(cache.get(&r3), GetOutcome::Hit(_)));
}

#[test]
fn lookup_refreshes_eviction_order() {
    let mut cache = ImageCache::with_budget(100);
    let r1 = request("one.raw", Some(some_ops(1)));
    let r2 = request("two.raw", Some(some_ops(1)));
    let r3 = request("three.raw", Some(some_ops(1)));
    let mut decodes = 0;
    populate(&mut cache, &r1, some_ops(1), &mut decodes);
    populate(&mut cache, &r2, some_ops(1), &mut decodes);
    // Touch the older entry: now the other one is least recently used.
    assert!(matches!(cache.get(&r1), GetOutcome::Hit(_)));
    populate(&mut cache, &r3, some_ops(1), &mut decodes);
    assert!(matches!(cache.get(&r1), GetOutcome::Hit(_)));
    assert!(matches!(cache.get(&r2), GetOutcome::Miss(_)), "least recently used must go");
}

#[test]
fn explicit_options_publish_a_single_key() {
    let mut cache = ImageCache::new();
    let req = request("a.raw", Some(some_ops(1)));
    let mut decodes = 0;
    populate(&mut cache, &req, some_ops(1), &mut decodes);
    // No options were left to the decoder, so nothing is published under
    // the defaults key.
    assert!(matches!(cache.get(&request("a.raw", None)), GetOutcome::Miss(_)));
}

#[test]
fn tight_budget_keeps_the_requested_key() {
    // Room for only one of the two published records: the request's own
    // key is published last and is the one that survives.
    let mut cache = ImageCache::with_budget(50);
    let req = request("a.raw", None);
    let applied = some_ops(9);
    let mut decodes = 0;
    populate(&mut cache, &req, applied.clone(), &mut decodes);
    assert!(matches!(cache.get(&req), GetOutcome::Hit(_)));
    assert!(matches!(cache.get(&request("a.raw", Some(applied))), GetOutcome::Miss(_)));
}

#[test]
fn oversized_output_is_returned_uncached() {
    let mut cache = ImageCache::with_budget(10);
    let req = request("big.raw", Some(some_ops(1)));
    assert!(matches!(cache.get(&req), GetOutcome::Miss(_)));
    let res = cache.complete(&req, decoded(some_ops(1)));
    assert!(res.image.is_some(), "the caller still receives the decode");
}

#[test]
fn failure_is_recorded_and_isolated() {
    let mut cache = ImageCache::new();
    let good = request("good.raw", Some(some_ops(1)));
    let bad = request("missing.raw", None);
    let mut decodes = 0;
    populate(&mut cache, &good, some_ops(1), &mut decodes);

    assert!(matches!(cache.get(&bad), GetOutcome::Miss(_)));
    let res = cache.complete(&bad, PipelineOutcome::Failed);
    assert_eq!(res.file, "missing.raw");
    assert!(res.image.is_none());
    // The failure is remembered for that key and not retried in a loop.
    assert!(matches!(cache.get(&bad), GetOutcome::Failed(_)));
    // And it poisons nothing else.
    assert!(matches!(cache.get(&good), GetOutcome::Hit(_)));
    assert_eq!(decodes, 1);
}

#[test]
fn budget_getter_reports_configuration() {
    let cache = ImageCache::with_budget(12345);
    assert_eq!(cache.budget(), 12345);
}
