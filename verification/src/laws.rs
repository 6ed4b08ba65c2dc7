//! Laws of the cache orchestrator, proved over the same spec functions
//! that `ImageCache::get` and `ImageCache::complete` promise in their
//! contracts.

use vstd::prelude::*;

use crate::cache::complete_post_spec;
use crate::cache::complete_result_spec;
use crate::cache::get_outcome_spec;
use crate::cache::get_post_spec;
use crate::ops::OpsView;
use crate::output::BitmapView;
use crate::output::EntryView;
use crate::output::GetOutcomeView;
use crate::output::OutcomeView;
use crate::request::key_of;
use crate::request::KeyView;
use crate::request::ReqView;
use crate::store::lemma_drop_key_find;
use crate::store::lemma_drop_key_push;
use crate::store::lemma_drop_key_total;
use crate::store::lemma_drop_key_unique;
use crate::store::lemma_evict_keeps_last;
use crate::store::lemma_evict_not_has;
use crate::store::lemma_evict_unique;
use crate::store::lemma_find_push;
use crate::store::lemma_find_unique_element;
use crate::store::lemma_push_unique;
use crate::store::lemma_put_find_same;
use crate::store::lemma_put_total;
use crate::store::lemma_refresh_wf;
use crate::store::store_drop_key;
use crate::store::store_evict;
use crate::store::store_find;
use crate::store::store_has;
use crate::store::store_put_seq;
use crate::store::store_total;
use crate::store::store_unique;
use crate::store::StoreRec;

verus! {

/// A `put` under one key leaves every absent other key absent.
proof fn lemma_put_not_has(
    s: Seq<StoreRec>,
    budget: nat,
    k: KeyView,
    e: EntryView,
    cost: nat,
    k2: KeyView,
)
    requires
        k2 != k,
        !store_has(s, k2),
    ensures
        !store_has(store_put_seq(s, budget, k, e, cost), k2),
{
    lemma_drop_key_find(s, k, k2);
    lemma_evict_not_has(store_drop_key(s, k), budget, cost, k2);
    lemma_find_push(
        store_evict(store_drop_key(s, k), budget, cost),
        StoreRec { key: k, entry: e, cost },
        k2,
    );
}

/// Idempotent hit: once a decode for a request has been published, looking
/// the identical request up is a hit on the very output that was
/// published, so no further decode is triggered for it.
pub proof fn lemma_idempotent_hit(
    s: Seq<StoreRec>,
    budget: nat,
    req: ReqView,
    image: BitmapView,
    ops: OpsView,
    default_ops: OpsView,
)
    requires
        image.data.len() <= budget,
    ensures
        ({
            let outcome = OutcomeView::Decoded { image, ops, default_ops };
            let post = complete_post_spec(s, budget, req, outcome);
            get_outcome_spec(post, req) == GetOutcomeView::Hit(
                complete_result_spec(req, outcome),
            )
        }),
{
    let outcome = OutcomeView::Decoded { image, ops, default_ops };
    let k = key_of(req);
    let out = crate::cache::output_of(req, image, ops, default_ops);
    let s1 = if req.ops is None {
        store_put_seq(
            s,
            budget,
            KeyView { file: k.file, level: k.level, ops: Some(ops) },
            EntryView::Ready(out),
            image.data.len(),
        )
    } else {
        s
    };
    lemma_put_find_same(s1, budget, k, EntryView::Ready(out), image.data.len());
}

/// Dual-key publication: a request that left the options to the decoder
/// publishes its output under the resolved options as well, so a later
/// request that spells those options out is a hit on the same output, with
/// no further decode.  This needs room for both records in the budget.
pub proof fn lemma_dual_publication(
    s: Seq<StoreRec>,
    budget: nat,
    req: ReqView,
    req2: ReqView,
    image: BitmapView,
    ops: OpsView,
    default_ops: OpsView,
)
    requires
        store_unique(s),
        req.ops is None,
        req2 == (ReqView { ops: Some(ops), ..req }),
        image.data.len() * 2 <= budget,
    ensures
        ({
            let outcome = OutcomeView::Decoded { image, ops, default_ops };
            let post = complete_post_spec(s, budget, req, outcome);
            get_outcome_spec(post, req2) == GetOutcomeView::Hit(
                complete_result_spec(req, outcome),
            )
        }),
{
    let cost = image.data.len();
    let k1 = key_of(req);
    let k2 = key_of(req2);
    let out = crate::cache::output_of(req, image, ops, default_ops);
    let rec1 = StoreRec { key: k1, entry: EntryView::Ready(out), cost };
    let rec2 = StoreRec { key: k2, entry: EntryView::Ready(out), cost };
    assert(k2 == KeyView { file: k1.file, level: k1.level, ops: Some(ops) });
    let x = store_evict(store_drop_key(s, k2), budget, cost);
    let mid = x.push(rec2);
    let y = store_drop_key(x, k1);
    let e = store_evict(store_drop_key(mid, k1), budget, cost);
    let post = e.push(rec1);

    lemma_drop_key_push(x, rec2, k1);
    assert(store_drop_key(mid, k1) == y.push(rec2));
    assert(y.push(rec2).last() == rec2);
    lemma_evict_keeps_last(y.push(rec2), budget, cost);
    assert(e.contains(rec2));

    lemma_drop_key_unique(s, k2);
    lemma_evict_unique(store_drop_key(s, k2), budget, cost);
    lemma_drop_key_unique(x, k1);
    lemma_drop_key_find(s, k2, k2);
    lemma_evict_not_has(store_drop_key(s, k2), budget, cost, k2);
    lemma_drop_key_find(x, k1, k2);
    lemma_push_unique(y, rec2);
    lemma_evict_unique(y.push(rec2), budget, cost);
    lemma_find_unique_element(e, rec2);
    lemma_find_push(e, rec1, k2);
    assert(store_find(post, k2) == Some(rec2));
}

/// Distinctness: a decode completed for one explicit option set never
/// publishes anything under another option set, so a request carrying
/// different options still misses and triggers its own decode.
pub proof fn lemma_distinct_options(
    s: Seq<StoreRec>,
    budget: nat,
    req1: ReqView,
    req2: ReqView,
    outcome: OutcomeView,
)
    requires
        req1.ops is Some,
        req2.ops is Some,
        req1.ops != req2.ops,
        !store_has(s, key_of(req2)),
    ensures
        !store_has(complete_post_spec(s, budget, req1, outcome), key_of(req2)),
        get_outcome_spec(complete_post_spec(s, budget, req1, outcome), req2)
            is Miss,
{
    let k1 = key_of(req1);
    let k2 = key_of(req2);
    match outcome {
        OutcomeView::Failed => {
            lemma_put_not_has(s, budget, k1, EntryView::Failed, 0, k2);
        },
        OutcomeView::Decoded { image, ops, default_ops } => {
            let out = crate::cache::output_of(req1, image, ops, default_ops);
            let cost = image.data.len();
            if cost <= budget {
                lemma_put_not_has(s, budget, k1, EntryView::Ready(out), cost, k2);
            }
        },
    }
}

/// Capacity: neither a lookup nor a completion ever leaves the tracked
/// cost of the store above the configured budget.
pub proof fn lemma_budget_never_exceeded(
    s: Seq<StoreRec>,
    budget: nat,
    req: ReqView,
    outcome: OutcomeView,
)
    requires
        store_unique(s),
        store_total(s) <= budget,
    ensures
        store_total(get_post_spec(s, budget, req)) <= budget,
        store_total(complete_post_spec(s, budget, req, outcome)) <= budget,
{
    let k = key_of(req);
    if store_has(s, k) {
        lemma_refresh_wf(s, k);
    } else {
        lemma_put_total(s, budget, k, EntryView::Pending, 0);
    }
    match outcome {
        OutcomeView::Failed => {
            lemma_put_total(s, budget, k, EntryView::Failed, 0);
        },
        OutcomeView::Decoded { image, ops, default_ops } => {
            let out = crate::cache::output_of(req, image, ops, default_ops);
            let cost = image.data.len();
            if cost <= budget {
                let s1 = if req.ops is None {
                    store_put_seq(
                        s,
                        budget,
                        KeyView { file: k.file, level: k.level, ops: Some(ops) },
                        EntryView::Ready(out),
                        cost,
                    )
                } else {
                    s
                };
                lemma_put_total(s1, budget, k, EntryView::Ready(out), cost);
            }
        },
    }
}

/// Failure isolation: recording a failed decode marks only that request's
/// key as failed and leaves every other key's entry exactly as it was, so
/// a broken file cannot poison the store.
pub proof fn lemma_failure_isolation(s: Seq<StoreRec>, budget: nat, req: ReqView, k2: KeyView)
    requires
        store_total(s) <= budget,
        k2 != key_of(req),
    ensures
        store_find(complete_post_spec(s, budget, req, OutcomeView::Failed), k2) == store_find(
            s,
            k2,
        ),
        get_outcome_spec(complete_post_spec(s, budget, req, OutcomeView::Failed), req)
            is Failed,
{
    let k = key_of(req);
    let failrec = StoreRec { key: k, entry: EntryView::Failed, cost: 0 };
    lemma_drop_key_total(s, k);
    assert(store_evict(store_drop_key(s, k), budget, 0) == store_drop_key(s, k));
    lemma_find_push(store_drop_key(s, k), failrec, k2);
    lemma_drop_key_find(s, k, k2);
    lemma_put_find_same(s, budget, k, EntryView::Failed, 0);
}

} // verus!
