//! The byte-budgeted eviction store, backed by `multicache::MultiCache`.
//!
//! The store is modeled as a sequence of records in eviction order: the
//! front is the next entry to be evicted, the back the most recently used.
//! `put` first drops any record with the same key, then evicts from the
//! front until the new total fits the budget, then appends the new record;
//! `get` moves the found record to the back.  The wrappers below state
//! exactly that behavior, which is what the crate's source shows.

use vstd::prelude::*;

use crate::output::CacheEntry;
use crate::output::EntryView;
use crate::request::CacheKey;
use crate::request::KeyView;

verus! {

#[verifier::external_type_specification]
#[verifier::external_body]
#[verifier::reject_recursive_types(K)]
#[verifier::reject_recursive_types(V)]
pub struct ExMultiCache<K, V>(multicache::MultiCache<K, V>);

/// One stored record: its key, its entry, and the byte cost it was
/// accounted with.
#[verifier::ext_equal]
pub struct StoreRec {
    pub key: KeyView,
    pub entry: EntryView,
    pub cost: nat,
}

/// The records a store holds, in eviction order (front is evicted first).
pub uninterp spec fn cache_seq(c: multicache::MultiCache<CacheKey, CacheEntry>) -> Seq<StoreRec>;

/// The byte budget the store was created with.
pub uninterp spec fn cache_budget(c: multicache::MultiCache<CacheKey, CacheEntry>) -> nat;

/// Total accounted cost of a sequence of records.
pub open spec fn store_total(s: Seq<StoreRec>) -> nat
    decreases s.len(),
{
    if s.len() == 0 {
        0
    } else {
        s[0].cost + store_total(s.drop_first())
    }
}

/// The sequence with every record under `k` removed.
pub open spec fn store_drop_key(s: Seq<StoreRec>, k: KeyView) -> Seq<StoreRec>
    decreases s.len(),
{
    if s.len() == 0 {
        Seq::empty()
    } else if s[0].key == k {
        store_drop_key(s.drop_first(), k)
    } else {
        seq![s[0]] + store_drop_key(s.drop_first(), k)
    }
}

/// The first record under `k`, if any.
pub open spec fn store_find(s: Seq<StoreRec>, k: KeyView) -> Option<StoreRec>
    decreases s.len(),
{
    if s.len() == 0 {
        None
    } else if s[0].key == k {
        Some(s[0])
    } else {
        store_find(s.drop_first(), k)
    }
}

/// Whether some record under `k` is present.
pub open spec fn store_has(s: Seq<StoreRec>, k: KeyView) -> bool {
    store_find(s, k) is Some
}

/// Records evicted from the front until an incoming cost fits the budget;
/// eviction stops as soon as it fits, or when nothing is left.
pub open spec fn store_evict(s: Seq<StoreRec>, budget: nat, incoming: nat) -> Seq<StoreRec>
    decreases s.len(),
{
    if s.len() == 0 || store_total(s) + incoming <= budget {
        s
    } else {
        store_evict(s.drop_first(), budget, incoming)
    }
}

/// The sequence after a `put`: the key's old record dropped, the front
/// evicted until the new cost fits, the new record appended.
pub open spec fn store_put_seq(
    s: Seq<StoreRec>,
    budget: nat,
    k: KeyView,
    e: EntryView,
    cost: nat,
) -> Seq<StoreRec> {
    store_evict(store_drop_key(s, k), budget, cost).push(StoreRec { key: k, entry: e, cost })
}

/// The sequence after a `get`: the found record moved to the back.
pub open spec fn store_refresh(s: Seq<StoreRec>, k: KeyView) -> Seq<StoreRec> {
    match store_find(s, k) {
        Some(rec) => store_drop_key(s, k).push(rec),
        None => s,
    }
}

/// No two records share a key.
pub open spec fn store_unique(s: Seq<StoreRec>) -> bool {
    forall|i: int, j: int| 0 <= i < j < s.len() ==> s[i].key != s[j].key
}

pub proof fn lemma_total_push(s: Seq<StoreRec>, r: StoreRec)
    ensures
        store_total(s.push(r)) == store_total(s) + r.cost,
    decreases s.len(),
{
    if s.len() == 0 {
        assert(s.push(r)[0] == r);
        assert(s.push(r).drop_first() =~= Seq::<StoreRec>::empty());
        assert(store_total(Seq::<StoreRec>::empty()) == 0);
        assert(store_total(s.push(r)) == s.push(r)[0].cost + store_total(
            s.push(r).drop_first(),
        ));
    } else {
        assert(s.push(r)[0] == s[0]);
        assert(s.push(r).drop_first() =~= s.drop_first().push(r));
        lemma_total_push(s.drop_first(), r);
    }
}

pub proof fn lemma_total_cons(x: StoreRec, t: Seq<StoreRec>)
    ensures
        store_total(seq![x] + t) == x.cost + store_total(t),
{
    assert((seq![x] + t).drop_first() =~= t);
}

pub proof fn lemma_find_cons(x: StoreRec, t: Seq<StoreRec>, k: KeyView)
    ensures
        store_find(seq![x] + t, k) == if x.key == k {
            Some(x)
        } else {
            store_find(t, k)
        },
{
    assert((seq![x] + t).drop_first() =~= t);
}

/// A found record is an element of the sequence, under the key it was
/// looked up by.
pub proof fn lemma_find_is_element(s: Seq<StoreRec>, k: KeyView)
    ensures
        store_find(s, k) matches Some(rec) ==> s.contains(rec) && rec.key == k,
    decreases s.len(),
{
    if s.len() > 0 && s[0].key != k {
        lemma_find_is_element(s.drop_first(), k);
        if store_find(s.drop_first(), k) is Some {
            let rec = store_find(s.drop_first(), k)->Some_0;
            let i = choose|i: int| 0 <= i < s.drop_first().len() && s.drop_first()[i] == rec;
            assert(s[i + 1] == rec);
        }
    }
}

/// A key is present exactly when some record carries it.
pub proof fn lemma_has_index(s: Seq<StoreRec>, k: KeyView)
    ensures
        store_has(s, k) <==> exists|i: int| 0 <= i < s.len() && s[i].key == k,
    decreases s.len(),
{
    if s.len() > 0 {
        lemma_has_index(s.drop_first(), k);
        if s[0].key != k {
            if store_has(s.drop_first(), k) {
                let i = choose|i: int|
                    0 <= i < s.drop_first().len() && s.drop_first()[i].key == k;
                assert(s[i + 1].key == k);
            }
            if exists|i: int| 0 <= i < s.len() && s[i].key == k {
                let i = choose|i: int| 0 <= i < s.len() && s[i].key == k;
                assert(s.drop_first()[i - 1].key == k);
            }
        }
    }
}

/// Dropping a key removes every record under it and keeps the rest.
pub proof fn lemma_drop_key_find(s: Seq<StoreRec>, k: KeyView, k2: KeyView)
    ensures
        store_find(store_drop_key(s, k), k2) == if k2 == k {
            None::<StoreRec>
        } else {
            store_find(s, k2)
        },
    decreases s.len(),
{
    if s.len() > 0 {
        lemma_drop_key_find(s.drop_first(), k, k2);
        if s[0].key != k {
            lemma_find_cons(s[0], store_drop_key(s.drop_first(), k), k2);
        }
    }
}

/// Dropping a key never increases the total cost.
pub proof fn lemma_drop_key_total(s: Seq<StoreRec>, k: KeyView)
    ensures
        store_total(store_drop_key(s, k)) <= store_total(s),
    decreases s.len(),
{
    if s.len() > 0 {
        lemma_drop_key_total(s.drop_first(), k);
        if s[0].key != k {
            lemma_total_cons(s[0], store_drop_key(s.drop_first(), k));
        }
    }
}

/// Dropping an absent key changes nothing.
pub proof fn lemma_drop_key_absent(s: Seq<StoreRec>, k: KeyView)
    requires
        !store_has(s, k),
    ensures
        store_drop_key(s, k) == s,
    decreases s.len(),
{
    if s.len() > 0 {
        lemma_drop_key_absent(s.drop_first(), k);
        assert(store_drop_key(s, k) =~= s);
    }
}

/// With unique keys, dropping a present key removes exactly its record
/// from the total.
pub proof fn lemma_drop_key_total_exact(s: Seq<StoreRec>, k: KeyView)
    requires
        store_unique(s),
        store_has(s, k),
    ensures
        store_find(s, k) matches Some(rec) && store_total(store_drop_key(s, k)) + rec.cost
            == store_total(s),
    decreases s.len(),
{
    assert(s.len() > 0);
    assert(forall|i: int, j: int|
        0 <= i < j < s.drop_first().len() ==> s.drop_first()[i].key != s.drop_first()[j].key)
        by {
        assert(forall|i: int| 0 <= i < s.drop_first().len() ==> s.drop_first()[i] == s[i + 1]);
    }
    if s[0].key == k {
        assert(!store_has(s.drop_first(), k)) by {
            lemma_has_index(s.drop_first(), k);
            if exists|i: int| 0 <= i < s.drop_first().len() && s.drop_first()[i].key == k {
                let i = choose|i: int|
                    0 <= i < s.drop_first().len() && s.drop_first()[i].key == k;
                assert(s[i + 1].key == s[0].key);
            }
        }
        lemma_drop_key_absent(s.drop_first(), k);
    } else {
        lemma_drop_key_total_exact(s.drop_first(), k);
        lemma_total_cons(s[0], store_drop_key(s.drop_first(), k));
    }
}

/// Every record of the dropped sequence is a record of the original under
/// a different key.
pub proof fn lemma_drop_key_contains(s: Seq<StoreRec>, k: KeyView, r: StoreRec)
    requires
        store_drop_key(s, k).contains(r),
    ensures
        s.contains(r),
        r.key != k,
    decreases s.len(),
{
    if s.len() > 0 {
        let d = store_drop_key(s.drop_first(), k);
        if s[0].key == k {
            lemma_drop_key_contains(s.drop_first(), k, r);
        } else {
            if r == s[0] {
                assert(s.contains(r)) by { assert(s[0] == r) }
            } else {
                assert(d.contains(r)) by {
                    let i = choose|i: int|
                        0 <= i < (seq![s[0]] + d).len() && (seq![s[0]] + d)[i] == r;
                    assert(d[i - 1] == r);
                }
                lemma_drop_key_contains(s.drop_first(), k, r);
            }
        }
        if s.drop_first().contains(r) {
            let i = choose|i: int| 0 <= i < s.drop_first().len() && s.drop_first()[i] == r;
            assert(s[i + 1] == r);
        }
    }
}

/// Dropping a key preserves key uniqueness.
pub proof fn lemma_drop_key_unique(s: Seq<StoreRec>, k: KeyView)
    requires
        store_unique(s),
    ensures
        store_unique(store_drop_key(s, k)),
    decreases s.len(),
{
    if s.len() > 0 {
        assert(forall|i: int, j: int|
            0 <= i < j < s.drop_first().len() ==> s.drop_first()[i].key != s.drop_first()[j].key)
            by {
            assert(forall|i: int|
                0 <= i < s.drop_first().len() ==> s.drop_first()[i] == s[i + 1]);
        }
        lemma_drop_key_unique(s.drop_first(), k);
        if s[0].key != k {
            let d = store_drop_key(s.drop_first(), k);
            let c = seq![s[0]] + d;
            assert forall|i: int, j: int| 0 <= i < j < c.len() implies c[i].key != c[j].key by {
                if i == 0 {
                    assert(c[j] == d[j - 1]);
                    lemma_drop_key_contains(s.drop_first(), k, d[j - 1]);
                    let m = choose|m: int|
                        0 <= m < s.drop_first().len() && s.drop_first()[m] == d[j - 1];
                    assert(s[m + 1] == d[j - 1]);
                } else {
                    assert(c[i] == d[i - 1] && c[j] == d[j - 1]);
                }
            }
        }
    }
}

/// Eviction keeps a suffix: every surviving record was present before.
pub proof fn lemma_evict_contains(s: Seq<StoreRec>, budget: nat, incoming: nat, r: StoreRec)
    requires
        store_evict(s, budget, incoming).contains(r),
    ensures
        s.contains(r),
    decreases s.len(),
{
    if !(s.len() == 0 || store_total(s) + incoming <= budget) {
        lemma_evict_contains(s.drop_first(), budget, incoming, r);
        let i = choose|i: int| 0 <= i < s.drop_first().len() && s.drop_first()[i] == r;
        assert(s[i + 1] == r);
    }
}

/// Eviction cannot introduce a key that was absent.
pub proof fn lemma_evict_not_has(s: Seq<StoreRec>, budget: nat, incoming: nat, k: KeyView)
    requires
        !store_has(s, k),
    ensures
        !store_has(store_evict(s, budget, incoming), k),
{
    let e = store_evict(s, budget, incoming);
    if store_has(e, k) {
        lemma_find_is_element(e, k);
        let rec = store_find(e, k)->Some_0;
        lemma_evict_contains(s, budget, incoming, rec);
        lemma_has_index(s, k);
        let i = choose|i: int| 0 <= i < s.len() && s[i] == rec;
        assert(s[i].key == k);
    }
}

/// Eviction preserves key uniqueness.
pub proof fn lemma_evict_unique(s: Seq<StoreRec>, budget: nat, incoming: nat)
    requires
        store_unique(s),
    ensures
        store_unique(store_evict(s, budget, incoming)),
    decreases s.len(),
{
    if !(s.len() == 0 || store_total(s) + incoming <= budget) {
        assert(forall|i: int, j: int|
            0 <= i < j < s.drop_first().len() ==> s.drop_first()[i].key != s.drop_first()[j].key)
            by {
            assert(forall|i: int|
                0 <= i < s.drop_first().len() ==> s.drop_first()[i] == s[i + 1]);
        }
        lemma_evict_unique(s.drop_first(), budget, incoming);
    }
}

/// Eviction makes room: once the incoming cost fits the budget at all,
/// what survives plus the incoming cost fits the budget.
pub proof fn lemma_evict_total(s: Seq<StoreRec>, budget: nat, incoming: nat)
    requires
        incoming <= budget,
    ensures
        store_total(store_evict(s, budget, incoming)) + incoming <= budget,
    decreases s.len(),
{
    if !(s.len() == 0 || store_total(s) + incoming <= budget) {
        lemma_evict_total(s.drop_first(), budget, incoming);
    }
}

/// A `put` whose cost fits the budget leaves the total within the budget.
pub proof fn lemma_put_total(s: Seq<StoreRec>, budget: nat, k: KeyView, e: EntryView, cost: nat)
    requires
        cost <= budget,
    ensures
        store_total(store_put_seq(s, budget, k, e, cost)) <= budget,
{
    lemma_evict_total(store_drop_key(s, k), budget, cost);
    lemma_total_push(
        store_evict(store_drop_key(s, k), budget, cost),
        StoreRec { key: k, entry: e, cost },
    );
}

/// Appending a record under a fresh key preserves key uniqueness.
pub proof fn lemma_push_unique(s: Seq<StoreRec>, r: StoreRec)
    requires
        store_unique(s),
        !store_has(s, r.key),
    ensures
        store_unique(s.push(r)),
{
    lemma_has_index(s, r.key);
    assert forall|i: int, j: int| 0 <= i < j < s.push(r).len() implies s.push(r)[i].key
        != s.push(r)[j].key by {
        if j == s.len() {
            assert(s.push(r)[i] == s[i]);
        }
    }
}

/// A `put` preserves key uniqueness.
pub proof fn lemma_put_unique(s: Seq<StoreRec>, budget: nat, k: KeyView, e: EntryView, cost: nat)
    requires
        store_unique(s),
    ensures
        store_unique(store_put_seq(s, budget, k, e, cost)),
{
    lemma_drop_key_unique(s, k);
    lemma_evict_unique(store_drop_key(s, k), budget, cost);
    lemma_drop_key_find(s, k, k);
    lemma_evict_not_has(store_drop_key(s, k), budget, cost, k);
    lemma_push_unique(
        store_evict(store_drop_key(s, k), budget, cost),
        StoreRec { key: k, entry: e, cost },
    );
}

/// After a `put`, the new record is the one found under its key.
pub proof fn lemma_put_find_same(s: Seq<StoreRec>, budget: nat, k: KeyView, e: EntryView, cost: nat)
    ensures
        store_find(store_put_seq(s, budget, k, e, cost), k) == Some(
            StoreRec { key: k, entry: e, cost },
        ),
{
    lemma_drop_key_find(s, k, k);
    lemma_evict_not_has(store_drop_key(s, k), budget, cost, k);
    lemma_find_push(store_evict(store_drop_key(s, k), budget, cost), StoreRec { key: k, entry: e, cost }, k);
}

/// Finding in a sequence with a record appended.
pub proof fn lemma_find_push(s: Seq<StoreRec>, r: StoreRec, k: KeyView)
    ensures
        store_find(s.push(r), k) == if store_has(s, k) {
            store_find(s, k)
        } else if r.key == k {
            Some(r)
        } else {
            None::<StoreRec>
        },
    decreases s.len(),
{
    if s.len() == 0 {
        assert(s.push(r).drop_first() =~= Seq::<StoreRec>::empty());
    } else {
        assert(s.push(r).drop_first() =~= s.drop_first().push(r));
        lemma_find_push(s.drop_first(), r, k);
    }
}

/// Dropping a key commutes with appending a record under another key.
pub proof fn lemma_drop_key_push(s: Seq<StoreRec>, r: StoreRec, k: KeyView)
    requires
        r.key != k,
    ensures
        store_drop_key(s.push(r), k) == store_drop_key(s, k).push(r),
    decreases s.len(),
{
    if s.len() == 0 {
        assert(s.push(r)[0] == r);
        assert(s.push(r).drop_first() =~= Seq::<StoreRec>::empty());
        assert(store_drop_key(s.push(r), k) == seq![r] + store_drop_key(
            Seq::<StoreRec>::empty(),
            k,
        ));
        assert(store_drop_key(s.push(r), k) =~= store_drop_key(s, k).push(r));
    } else {
        assert(s.push(r).drop_first() =~= s.drop_first().push(r));
        lemma_drop_key_push(s.drop_first(), r, k);
        if s[0].key != k {
            assert(seq![s[0]] + store_drop_key(s.drop_first(), k).push(r) =~= (seq![s[0]]
                + store_drop_key(s.drop_first(), k)).push(r));
        }
    }
}

/// Eviction keeps the most recently used record whenever that record and
/// the incoming cost fit the budget together.
pub proof fn lemma_evict_keeps_last(s: Seq<StoreRec>, budget: nat, incoming: nat)
    requires
        s.len() > 0,
        s.last().cost + incoming <= budget,
    ensures
        store_evict(s, budget, incoming).contains(s.last()),
    decreases s.len(),
{
    if store_total(s) + incoming <= budget {
        assert(s[s.len() - 1] == s.last());
    } else {
        assert(s.len() > 1) by {
            if s.len() == 1 {
                assert(s.drop_first() =~= Seq::<StoreRec>::empty());
                assert(store_total(Seq::<StoreRec>::empty()) == 0);
                assert(store_total(s) == s[0].cost);
            }
        }
        assert(s.drop_first().last() == s.last());
        lemma_evict_keeps_last(s.drop_first(), budget, incoming);
    }
}

/// With unique keys, a record of the sequence is what its key finds.
pub proof fn lemma_find_unique_element(s: Seq<StoreRec>, rec: StoreRec)
    requires
        store_unique(s),
        s.contains(rec),
    ensures
        store_find(s, rec.key) == Some(rec),
    decreases s.len(),
{
    let i = choose|i: int| 0 <= i < s.len() && s[i] == rec;
    if s[0].key == rec.key {
        assert(s[0] == rec) by {
            if i != 0 {
                assert(s[0].key != s[i].key);
            }
        }
    } else {
        assert(forall|m: int, n: int|
            0 <= m < n < s.drop_first().len() ==> s.drop_first()[m].key != s.drop_first()[n].key)
            by {
            assert(forall|m: int|
                0 <= m < s.drop_first().len() ==> s.drop_first()[m] == s[m + 1]);
        }
        assert(s.drop_first().contains(rec)) by {
            assert(s.drop_first()[i - 1] == rec);
        }
        lemma_find_unique_element(s.drop_first(), rec);
    }
}

/// A refresh preserves key uniqueness and the total cost.
pub proof fn lemma_refresh_wf(s: Seq<StoreRec>, k: KeyView)
    requires
        store_unique(s),
    ensures
        store_unique(store_refresh(s, k)),
        store_total(store_refresh(s, k)) == store_total(s),
{
    if store_has(s, k) {
        let rec = store_find(s, k)->Some_0;
        lemma_find_is_element(s, k);
        lemma_drop_key_total_exact(s, k);
        lemma_drop_key_unique(s, k);
        lemma_drop_key_find(s, k, k);
        lemma_push_unique(store_drop_key(s, k), rec);
        lemma_total_push(store_drop_key(s, k), rec);
    }
}

/// A refresh relocates the found record and touches nothing else.
pub proof fn lemma_refresh_find(s: Seq<StoreRec>, k: KeyView, k2: KeyView)
    ensures
        store_find(store_refresh(s, k), k2) == store_find(s, k2),
{
    if store_has(s, k) {
        let rec = store_find(s, k)->Some_0;
        lemma_find_is_element(s, k);
        lemma_drop_key_find(s, k, k2);
        lemma_drop_key_find(s, k, k);
        lemma_find_push(store_drop_key(s, k), rec, k2);
    }
}

/// Relies on `multicache::MultiCache::new`: a fresh store with the given
/// byte budget holds nothing.
#[verifier::external_body]
pub(crate) fn store_new(budget: usize) -> (c: multicache::MultiCache<CacheKey, CacheEntry>)
    ensures
        cache_seq(c) == Seq::<StoreRec>::empty(),
        cache_budget(c) == budget as nat,
{
    multicache::MultiCache::new(budget)
}

/// Relies on `multicache::MultiCache::get`: returns the entry stored under
/// the key, making that record the most recently used; an absent key
/// returns nothing and leaves the store unchanged.
#[verifier::external_body]
pub(crate) fn store_get(
    c: &mut multicache::MultiCache<CacheKey, CacheEntry>,
    key: &CacheKey,
) -> (r: Option<CacheEntry>)
    ensures
        cache_budget(*final(c)) == cache_budget(*old(c)),
        cache_seq(*final(c)) == store_refresh(cache_seq(*old(c)), key@),
        match r {
            Some(e) => store_find(cache_seq(*old(c)), key@) matches Some(rec) && rec.entry == e@,
            None => store_find(cache_seq(*old(c)), key@) is None,
        },
{
    match c.get(key) {
        Some(e) => Some((*e).clone()),
        None => None,
    }
}

/// Relies on `multicache::MultiCache::put`: drops any record under the
/// key, evicts from the front until the new cost fits the budget, then
/// appends the new record.
#[verifier::external_body]
pub(crate) fn store_put(
    c: &mut multicache::MultiCache<CacheKey, CacheEntry>,
    key: CacheKey,
    entry: CacheEntry,
    bytes: usize,
)
    requires
        store_total(store_drop_key(cache_seq(*old(c)), key@)) + bytes <= usize::MAX,
    ensures
        cache_budget(*final(c)) == cache_budget(*old(c)),
        cache_seq(*final(c)) == store_put_seq(
            cache_seq(*old(c)),
            cache_budget(*old(c)),
            key@,
            entry@,
            bytes as nat,
        ),
{
    c.put(key, entry, bytes)
}

} // verus!
