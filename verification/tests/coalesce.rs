use chimper::cache::ImageCache;
use chimper::coalesce::latest_request;
use chimper::ops::DemosaicOps;
use chimper::ops::GoFloatOps;
use chimper::ops::ProcOps;
use chimper::output::Bitmap;
use chimper::output::GetOutcome;
use chimper::output::PipelineOutcome;
use chimper::request::RequestedImage;

fn sized_request(file: &str, width: u32) -> RequestedImage {
    RequestedImage { file: file.to_string(), width, height: 100, ops: None }
}

#[test]
fn empty_backlog_serves_the_received_request() {
    let first = sized_request("a.raw", 100);
    let served = latest_request(first.clone(), Vec::new());
    assert_eq!(served, first);
}

#[test]
fn burst_serves_only_the_last_request() {
    let first = sized_request("a.raw", 100);
    let backlog = vec![
        sized_request("b.raw", 100),
        sized_request("c.raw", 100),
        sized_request("d.raw", 100),
    ];
    let served = latest_request(first, backlog);
    assert_eq!(served.file, "d.raw");
}

#[test]
fn superseded_requests_leave_no_trace() {
    // A worker step over a burst: only the served request is decoded and
    // published; the superseded ones trigger nothing.
    let mut cache = ImageCache::new();
    let first = sized_request("stale1.raw", 100);
    let backlog = vec![sized_request("stale2.raw", 100), sized_request("fresh.raw", 100)];
    let served = latest_request(first, backlog);

    let mut decodes = 0;
    if let GetOutcome::Miss(_) = cache.get(&served) {
        decodes += 1;
        let applied = ProcOps {
            gofloat: GoFloatOps {
                is_cfa: false,
                crop_top: 0,
                crop_left: 0,
                crop_right: 0,
                crop_bottom: 0,
            },
            demosaic: DemosaicOps { cfa: String::new() },
            extra: 0,
        };
        cache.complete(
            &served,
            PipelineOutcome::Decoded {
                image: Bitmap { data: vec![0u8; 27], width: 3, height: 3 },
                ops: applied.clone(),
                default_ops: applied,
            },
        );
    }
    assert_eq!(decodes, 1);
    assert!(matches!(cache.get(&served), GetOutcome::Hit(_)));
    // The superseded requests were never serviced: still plain misses.
    assert!(matches!(cache.get(&sized_request("stale1.raw", 100)), GetOutcome::Miss(_)));
    assert!(matches!(cache.get(&sized_request("stale2.raw", 100)), GetOutcome::Miss(_)));
}
