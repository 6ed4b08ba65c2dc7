//! The cache orchestrator: check-then-populate with guard entries and
//! dual-key publication.
//!
//! Decoding is outside work, so servicing a miss is split in two verified
//! steps: `get` looks the key up and, on a miss, writes a guard entry and
//! hands back the bounds and options the decoder needs; `complete` folds
//! the decoder's outcome back into the store and returns the response.
//! The caller (a worker loop) runs the decoder in between.

use std::sync::Arc;
use vstd::prelude::*;

use crate::bucket::bucket_of;
use crate::bucket::lemma_bucket_of_is_first_fit;
use crate::bucket::level_bounds;
use crate::bucket::level_max_height;
use crate::bucket::level_max_width;
use crate::ops::OpsView;
use crate::output::BitmapView;
use crate::output::CacheEntry;
use crate::output::EntryView;
use crate::output::GetOutcome;
use crate::output::GetOutcomeView;
use crate::output::ImageOutput;
use crate::output::ImageResult;
use crate::output::OutcomeView;
use crate::output::OutputView;
use crate::output::PipeReqView;
use crate::output::PipelineOutcome;
use crate::output::PipelineRequest;
use crate::output::ResultView;
use crate::request::key_of;
use crate::request::CacheKey;
use crate::request::KeyView;
use crate::request::RequestedImage;
use crate::request::ReqView;
use crate::store::cache_budget;
use crate::store::cache_seq;
use crate::store::lemma_drop_key_total;
use crate::store::lemma_put_total;
use crate::store::lemma_put_unique;
use crate::store::lemma_refresh_wf;
use crate::store::store_find;
use crate::store::store_get;
use crate::store::store_has;
use crate::store::store_new;
use crate::store::store_put;
use crate::store::store_put_seq;
use crate::store::store_refresh;
use crate::store::store_total;
use crate::store::store_unique;
use crate::store::StoreRec;

verus! {

/// Byte budget of the decoded-image store.
pub const DEFAULT_BUDGET: usize = 100000000;

/// The decode request a miss hands back: the level's bounds and the
/// options to force, ready for the decoding pipeline.
pub open spec fn pipe_request_of(req: ReqView) -> PipeReqView {
    let level = bucket_of(req.width as int, req.height as int);
    PipeReqView {
        file: req.file,
        maxwidth: level_max_width(level) as u32,
        maxheight: level_max_height(level) as u32,
        ops: req.ops,
    }
}

/// What a lookup on a store holding `s` finds for `req`.
pub open spec fn get_outcome_spec(s: Seq<StoreRec>, req: ReqView) -> GetOutcomeView {
    match store_find(s, key_of(req)) {
        Some(rec) => match rec.entry {
            EntryView::Pending => GetOutcomeView::Pending(req.file),
            EntryView::Ready(out) => GetOutcomeView::Hit(
                ResultView { file: req.file, image: Some(out) },
            ),
            EntryView::Failed => GetOutcomeView::Failed(req.file),
        },
        None => GetOutcomeView::Miss(pipe_request_of(req)),
    }
}

/// The store after a lookup: a found record becomes most recently used; a
/// miss writes a zero-cost guard entry under the key.
pub open spec fn get_post_spec(s: Seq<StoreRec>, budget: nat, req: ReqView) -> Seq<StoreRec> {
    if store_has(s, key_of(req)) {
        store_refresh(s, key_of(req))
    } else {
        store_put_seq(s, budget, key_of(req), EntryView::Pending, 0)
    }
}

/// The output record built from a decode, with the level bounds the decode
/// honored; a bitmap smaller than its bounds is already native size, and
/// the record says so with unbounded dimensions.
pub open spec fn output_of(
    req: ReqView,
    image: BitmapView,
    ops: OpsView,
    default_ops: OpsView,
) -> OutputView {
    let level = bucket_of(req.width as int, req.height as int);
    let native = image.width < level_max_width(level) && image.height < level_max_height(level);
    OutputView {
        image,
        ops,
        default_ops,
        maxwidth: if native {
            u32::MAX
        } else {
            level_max_width(level) as u32
        },
        maxheight: if native {
            u32::MAX
        } else {
            level_max_height(level) as u32
        },
    }
}

/// The response `complete` hands back: the shared output on success,
/// nothing on failure.
pub open spec fn complete_result_spec(req: ReqView, outcome: OutcomeView) -> ResultView {
    match outcome {
        OutcomeView::Decoded { image, ops, default_ops } => ResultView {
            file: req.file,
            image: Some(output_of(req, image, ops, default_ops)),
        },
        OutcomeView::Failed => ResultView { file: req.file, image: None },
    }
}

/// The store after `complete`.  A failure records a zero-cost failed entry
/// under the key.  A success whose cost fits the budget publishes the
/// output under the request's key and, when the request left the options
/// to the decoder, also under the key carrying the options actually
/// applied; an output larger than the whole budget is handed back
/// uncached.
pub open spec fn complete_post_spec(
    s: Seq<StoreRec>,
    budget: nat,
    req: ReqView,
    outcome: OutcomeView,
) -> Seq<StoreRec> {
    let k = key_of(req);
    match outcome {
        OutcomeView::Failed => store_put_seq(s, budget, k, EntryView::Failed, 0),
        OutcomeView::Decoded { image, ops, default_ops } => {
            let out = output_of(req, image, ops, default_ops);
            let cost = image.data.len();
            if cost <= budget {
                let s1 = if req.ops is None {
                    store_put_seq(
                        s,
                        budget,
                        KeyView { file: k.file, level: k.level, ops: Some(ops) },
                        EntryView::Ready(out),
                        cost,
                    )
                } else {
                    s
                };
                store_put_seq(s1, budget, k, EntryView::Ready(out), cost)
            } else {
                s
            }
        },
    }
}

/// The decoded-image cache: a byte-budgeted store of shared decoded
/// outputs, keyed by (file, resolution level, options).
pub struct ImageCache {
    store: multicache::MultiCache<CacheKey, CacheEntry>,
    budget: usize,
}

impl ImageCache {
    /// The records the store holds, in eviction order.
    pub closed spec fn contents(self) -> Seq<StoreRec> {
        cache_seq(self.store)
    }

    /// The byte budget the store was created with.
    pub closed spec fn budget_limit(self) -> nat {
        cache_budget(self.store)
    }

    /// A well-formed cache: keys are unique, the tracked cost never
    /// exceeds the budget, and the budget leaves arithmetic headroom.
    pub closed spec fn wf(self) -> bool {
        &&& cache_budget(self.store) == self.budget as nat
        &&& self.budget * 2 <= usize::MAX
        &&& store_unique(self.contents())
        &&& store_total(self.contents()) <= self.budget as nat
    }

    /// A fresh cache with the default byte budget.
    pub fn new() -> (c: Self)
        ensures
            c.wf(),
            c.contents() == Seq::<StoreRec>::empty(),
            c.budget_limit() == DEFAULT_BUDGET as nat,
    {
        ImageCache { store: store_new(DEFAULT_BUDGET), budget: DEFAULT_BUDGET }
    }

    /// A fresh cache with the given byte budget.
    pub fn with_budget(budget: usize) -> (c: Self)
        requires
            budget * 2 <= usize::MAX,
        ensures
            c.wf(),
            c.contents() == Seq::<StoreRec>::empty(),
            c.budget_limit() == budget as nat,
    {
        ImageCache { store: store_new(budget), budget }
    }

    /// The configured byte budget.
    pub fn budget(&self) -> (b: usize)
        requires
            self.wf(),
        ensures
            b as nat == self.budget_limit(),
    {
        self.budget
    }

    /// Looks a request up.  A present entry is returned as a hit, an
    /// in-flight computation, or a recorded failure, and becomes the most
    /// recently used; a miss writes a guard entry so further lookups see
    /// work in flight, and hands back what the decoder needs.
    pub fn get(&mut self, req: &RequestedImage) -> (r: GetOutcome)
        requires
            old(self).wf(),
        ensures
            final(self).wf(),
            final(self).budget_limit() == old(self).budget_limit(),
            final(self).contents() == get_post_spec(
                old(self).contents(),
                old(self).budget_limit(),
                req@,
            ),
            r@ == get_outcome_spec(old(self).contents(), req@),
    {
        let file = req.file.clone();
        let key = CacheKey::from_request(req.clone());
        proof {
            lemma_bucket_of_is_first_fit(req@.width as int, req@.height as int);
        }
        match store_get(&mut self.store, &key) {
            Some(entry) => {
                proof {
                    lemma_refresh_wf(old(self).contents(), key@);
                }
                match entry {
                    CacheEntry::Pending => GetOutcome::Pending(file),
                    CacheEntry::Ready(out) => GetOutcome::Hit(
                        ImageResult { file, image: Some(out) },
                    ),
                    CacheEntry::Failed => GetOutcome::Failed(file),
                }
            },
            None => {
                let level = key.level;
                let ops = match &key.ops {
                    Some(o) => Some(o.clone()),
                    None => None,
                };
                proof {
                    lemma_drop_key_total(old(self).contents(), key@);
                }
                store_put(&mut self.store, key, CacheEntry::Pending, 0);
                proof {
                    lemma_put_unique(
                        old(self).contents(),
                        old(self).budget_limit(),
                        key_of(req@),
                        EntryView::Pending,
                        0,
                    );
                    lemma_put_total(
                        old(self).contents(),
                        old(self).budget_limit(),
                        key_of(req@),
                        EntryView::Pending,
                        0,
                    );
                }
                let (maxwidth, maxheight) = level_bounds(level);
                GetOutcome::Miss(PipelineRequest { file, maxwidth, maxheight, ops })
            },
        }
    }

    /// Folds the decoder's outcome for a request back into the store and
    /// returns the response for it.
    pub fn complete(&mut self, req: &RequestedImage, outcome: PipelineOutcome) -> (r: ImageResult)
        requires
            old(self).wf(),
            outcome@ matches OutcomeView::Decoded { image, .. } ==> image.wf(),
        ensures
            final(self).wf(),
            final(self).budget_limit() == old(self).budget_limit(),
            final(self).contents() == complete_post_spec(
                old(self).contents(),
                old(self).budget_limit(),
                req@,
                outcome@,
            ),
            r@ == complete_result_spec(req@, outcome@),
    {
        let file = req.file.clone();
        let key = CacheKey::from_request(req.clone());
        proof {
            lemma_bucket_of_is_first_fit(req@.width as int, req@.height as int);
        }
        match outcome {
            PipelineOutcome::Failed => {
                proof {
                    lemma_drop_key_total(old(self).contents(), key@);
                }
                store_put(&mut self.store, key, CacheEntry::Failed, 0);
                proof {
                    lemma_put_unique(
                        old(self).contents(),
                        old(self).budget_limit(),
                        key_of(req@),
                        EntryView::Failed,
                        0,
                    );
                    lemma_put_total(
                        old(self).contents(),
                        old(self).budget_limit(),
                        key_of(req@),
                        EntryView::Failed,
                        0,
                    );
                }
                ImageResult { file, image: None }
            },
            PipelineOutcome::Decoded { image, ops, default_ops } => {
                let cost = image.data.len();
                let level = key.level;
                let (maxwidth, maxheight) = level_bounds(level);
                let native = image.width < maxwidth as usize && image.height < maxheight as usize;
                let (outw, outh) = if native {
                    (u32::MAX, u32::MAX)
                } else {
                    (maxwidth, maxheight)
                };
                let out = Arc::new(
                    ImageOutput {
                        image,
                        ops: ops.clone(),
                        default_ops,
                        maxwidth: outw,
                        maxheight: outh,
                    },
                );
                if cost <= self.budget {
                    let ghost mut mid = self.contents();
                    if req.ops.is_none() {
                        let key2 = CacheKey { file: req.file.clone(), level, ops: Some(ops) };
                        proof {
                            lemma_drop_key_total(old(self).contents(), key2@);
                        }
                        store_put(&mut self.store, key2, CacheEntry::Ready(out.clone()), cost);
                        proof {
                            mid = self.contents();
                            lemma_put_unique(
                                old(self).contents(),
                                old(self).budget_limit(),
                                KeyView {
                                    file: key_of(req@).file,
                                    level: key_of(req@).level,
                                    ops: Some(out@.ops),
                                },
                                EntryView::Ready(out@),
                                cost as nat,
                            );
                            lemma_put_total(
                                old(self).contents(),
                                old(self).budget_limit(),
                                KeyView {
                                    file: key_of(req@).file,
                                    level: key_of(req@).level,
                                    ops: Some(out@.ops),
                                },
                                EntryView::Ready(out@),
                                cost as nat,
                            );
                        }
                    }
                    proof {
                        lemma_drop_key_total(mid, key@);
                    }
                    store_put(&mut self.store, key, CacheEntry::Ready(out.clone()), cost);
                    proof {
                        lemma_put_unique(
                            mid,
                            old(self).budget_limit(),
                            key_of(req@),
                            EntryView::Ready(out@),
                            cost as nat,
                        );
                        lemma_put_total(
                            mid,
                            old(self).budget_limit(),
                            key_of(req@),
                            EntryView::Ready(out@),
                            cost as nat,
                        );
                    }
                }
                ImageResult { file, image: Some(out) }
            },
        }
    }
}

} // verus!
