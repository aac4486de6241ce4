//! Orchestration over the catalog sequence.
//!
//! The catalog is an ordered list of item descriptors; an item's ordinal
//! is its position in that order. A run reads the resume offset from the
//! checkpoint store, dispatches exactly the items at ordinals from the
//! offset to the end, and, for each item whose two resources were
//! fetched, persists them and advances the progress tracker. The network
//! and clock live outside; the decisions and the store writes are here.

use crate::models::MovieCreditsResponse;
use crate::models::MovieDetailsResponse;
use crate::models::MovieIdEntry;
use crate::progress::ProgressTracker;
use crate::store::credits_payloads;
use crate::store::has_movie;
use crate::store::ingest_people;
use crate::store::lemma_upsert_preserves_keys;
use crate::store::persisted_movie_id;
use crate::store::upsert_movie;
use crate::store::DurableStore;
use vstd::prelude::*;

verus! {

/// The remote ids of the catalog entries, in catalog order: entry at
/// ordinal `i` contributes `ids[i]`.
pub fn catalog_ids(entries: &Vec<MovieIdEntry>) -> (ids: Vec<u32>)
    ensures
        ids@.len() == entries@.len(),
        forall|i: int| 0 <= i < entries@.len() ==> ids@[i] == entries@[i].id,
{
    let mut ids: Vec<u32> = Vec::new();
    let mut i: usize = 0;
    while i < entries.len()
        invariant
            i <= entries@.len(),
            ids@.len() == i,
            forall|j: int| 0 <= j < i ==> ids@[j] == entries@[j].id,
        decreases entries@.len() - i,
    {
        ids.push(entries[i].id);
        i = i + 1;
    }
    ids
}

/// Truncate the catalog by the resume offset: the items this run
/// dispatches are exactly the catalog entries from ordinal `start_index`
/// to the end, in catalog order.
pub fn remaining_items(catalog: &Vec<u32>, start_index: usize) -> (rest: Vec<u32>)
    requires
        start_index <= catalog@.len(),
    ensures
        rest@ == catalog@.skip(start_index as int),
{
    let mut rest: Vec<u32> = Vec::new();
    let mut i: usize = start_index;
    while i < catalog.len()
        invariant
            start_index <= i <= catalog@.len(),
            rest@ == catalog@.subrange(start_index as int, i as int),
        decreases catalog@.len() - i,
    {
        rest.push(catalog[i]);
        proof {
            assert(rest@ =~= catalog@.subrange(start_index as int, i + 1));
        }
        i = i + 1;
    }
    proof {
        assert(rest@ =~= catalog@.skip(start_index as int));
    }
    rest
}

/// Resumability law: given a prior checkpoint `k`, a new run dispatches
/// exactly the items with ordinal in `[k, N)` — the item dispatched at
/// position `i` is the catalog item of ordinal `k + i` — and no item with
/// ordinal below `k` is dispatched.
pub proof fn lemma_resumability(catalog: Seq<u32>, k: int, rest: Seq<u32>)
    requires
        0 <= k <= catalog.len(),
        rest == catalog.skip(k),
    ensures
        rest.len() == catalog.len() - k,
        forall|i: int| 0 <= i < rest.len() ==> rest[i] == catalog[k + i],
{
}

/// One item's completion step, run after both of its resources were
/// fetched and parsed: upsert the item, persist its credited people and
/// their role links, and only then count the item as completed. No gate
/// permit is held here: the task returned its slot when fetching finished,
/// so storage writes proceed while other items' fetches are admitted.
pub fn process_item(
    store: &mut DurableStore,
    tracker: &mut ProgressTracker,
    details: MovieDetailsResponse,
    credits: MovieCreditsResponse,
)
    requires
        old(store).wf(),
        old(tracker).wf(),
        old(store).movies@.len() < u64::MAX,
        old(store).people@.len() + credits.cast@.len() + credits.crew@.len() < u64::MAX,
        old(store).roles@.len() + credits.cast@.len() + credits.crew@.len() < u64::MAX,
        old(tracker).start_index + old(tracker).completed + 1 <= u64::MAX,
    ensures
        final(store).wf(),
        final(tracker).wf(),
        final(tracker).start_index == old(tracker).start_index,
        final(tracker).completed == old(tracker).completed + 1,
        final(store).movies@ == upsert_movie(old(store).movies@, details),
        has_movie(final(store).movies@, details.id),
        final(store).people@ == ingest_people(
            old(store).people@,
            old(store).roles@,
            persisted_movie_id(old(store).movies@, details) as u64,
            credits_payloads(credits),
        ).0,
        final(store).roles@ == ingest_people(
            old(store).people@,
            old(store).roles@,
            persisted_movie_id(old(store).movies@, details) as u64,
            credits_payloads(credits),
        ).1,
        final(store).checkpoint == old(store).checkpoint,
        final(store).people@.len() <= old(store).people@.len() + credits.cast@.len()
            + credits.crew@.len(),
        final(store).roles@.len() == old(store).roles@.len() + credits.cast@.len()
            + credits.crew@.len(),
        forall|k: int|
            0 <= k < old(store).roles@.len() ==> final(store).roles@[k] == old(store).roles@[k],
{
    let ghost d = details;
    let movie_row_id = store.write_movie(details);
    store.write_people(movie_row_id, credits);
    tracker.record_completion();
    proof {
        assert(movie_row_id as int == persisted_movie_id(old(store).movies@, d));
        assert(store.movies@[movie_row_id as int].tmdb_id == d.id);
        assert(has_movie(store.movies@, d.id));
    }
}

/// Both of one item's resources, fetched and parsed, ready to persist.
pub struct FetchedItem {
    pub details: MovieDetailsResponse,
    pub credits: MovieCreditsResponse,
}

/// How many people are credited across the items' secondary payloads.
pub open spec fn total_credited(items: Seq<FetchedItem>) -> int
    decreases items.len(),
{
    if items.len() == 0 {
        0
    } else {
        total_credited(items.drop_last()) + items.last().credits.cast@.len()
            + items.last().credits.crew@.len()
    }
}

/// The three tables after persisting one fetched item: the item is
/// upserted, and its credited people are ingested against the item's
/// durable id.
pub open spec fn apply_item(
    movies: Seq<crate::store::MovieRecord>,
    people: Seq<crate::store::PersonRecord>,
    roles: Seq<crate::store::RoleRecord>,
    it: FetchedItem,
) -> (Seq<crate::store::MovieRecord>, Seq<crate::store::PersonRecord>, Seq<
    crate::store::RoleRecord,
>) {
    let pr = ingest_people(
        people,
        roles,
        persisted_movie_id(movies, it.details) as u64,
        credits_payloads(it.credits),
    );
    (upsert_movie(movies, it.details), pr.0, pr.1)
}

/// The three tables after persisting the fetched items in order.
pub open spec fn apply_items(
    movies: Seq<crate::store::MovieRecord>,
    people: Seq<crate::store::PersonRecord>,
    roles: Seq<crate::store::RoleRecord>,
    items: Seq<FetchedItem>,
) -> (Seq<crate::store::MovieRecord>, Seq<crate::store::PersonRecord>, Seq<
    crate::store::RoleRecord,
>)
    decreases items.len(),
{
    if items.len() == 0 {
        (movies, people, roles)
    } else {
        let mid = apply_items(movies, people, roles, items.drop_last());
        apply_item(mid.0, mid.1, mid.2, items.last())
    }
}

/// A prefix credits no more people than the whole sequence, and extending
/// it by one item adds exactly that item's credited people.
proof fn lemma_total_credited_prefix(items: Seq<FetchedItem>, n: int)
    requires
        0 <= n <= items.len(),
    ensures
        total_credited(items.take(n)) <= total_credited(items),
        n < items.len() ==> total_credited(items.take(n + 1)) == total_credited(items.take(n))
            + items[n].credits.cast@.len() + items[n].credits.crew@.len(),
    decreases items.len() - n,
{
    if n < items.len() {
        assert(items.take(n + 1).drop_last() =~= items.take(n));
        assert(items.take(n + 1).last() == items[n]);
        lemma_total_credited_prefix(items, n + 1);
    } else {
        assert(items.take(n) =~= items);
    }
}

/// The run's dispatch loop over the fetched items: every item is
/// persisted and counted, in order, and each item's record is present in
/// the store when the run ends. The real process resolves the fetches
/// concurrently; what is persisted and counted per item is exactly this.
pub fn run_catalog(store: &mut DurableStore, tracker: &mut ProgressTracker, items: Vec<FetchedItem>)
    requires
        old(store).wf(),
        old(tracker).wf(),
        old(store).movies@.len() + items@.len() < u64::MAX,
        old(store).people@.len() + total_credited(items@) < u64::MAX,
        old(store).roles@.len() + total_credited(items@) < u64::MAX,
        old(tracker).start_index + old(tracker).completed + items@.len() <= u64::MAX,
    ensures
        final(store).wf(),
        final(tracker).wf(),
        final(tracker).start_index == old(tracker).start_index,
        final(tracker).completed == old(tracker).completed + items@.len(),
        final(store).checkpoint == old(store).checkpoint,
        final(store).movies@ == apply_items(
            old(store).movies@,
            old(store).people@,
            old(store).roles@,
            items@,
        ).0,
        final(store).people@ == apply_items(
            old(store).movies@,
            old(store).people@,
            old(store).roles@,
            items@,
        ).1,
        final(store).roles@ == apply_items(
            old(store).movies@,
            old(store).people@,
            old(store).roles@,
            items@,
        ).2,
        forall|j: int|
            0 <= j < items@.len() ==> has_movie(final(store).movies@, items@[j].details.id),
{
    let ghost its = items@;
    let mut rest = items;
    let total = rest.len();
    let mut i: usize = 0;
    while i < total
        invariant
            total == its.len(),
            i <= total,
            i + rest@.len() == its.len(),
            rest@ == its.skip(i as int),
            store.wf(),
            tracker.wf(),
            tracker.start_index == old(tracker).start_index,
            tracker.completed == old(tracker).completed + i,
            store.checkpoint == old(store).checkpoint,
            store.movies@.len() <= old(store).movies@.len() + i,
            store.people@.len() <= old(store).people@.len() + total_credited(its.take(i as int)),
            store.roles@.len() <= old(store).roles@.len() + total_credited(its.take(i as int)),
            store.movies@ == apply_items(
                old(store).movies@,
                old(store).people@,
                old(store).roles@,
                its.take(i as int),
            ).0,
            store.people@ == apply_items(
                old(store).movies@,
                old(store).people@,
                old(store).roles@,
                its.take(i as int),
            ).1,
            store.roles@ == apply_items(
                old(store).movies@,
                old(store).people@,
                old(store).roles@,
                its.take(i as int),
            ).2,
            old(store).movies@.len() + its.len() < u64::MAX,
            old(store).people@.len() + total_credited(its) < u64::MAX,
            old(store).roles@.len() + total_credited(its) < u64::MAX,
            old(tracker).start_index + old(tracker).completed + its.len() <= u64::MAX,
            forall|j: int| 0 <= j < i ==> has_movie(store.movies@, its[j].details.id),
        decreases total - i,
    {
        let item = rest.remove(0);
        proof {
            assert(item == its[i as int]);
            assert(its.skip(i as int).remove(0) =~= its.skip(i as int + 1));
            lemma_total_credited_prefix(its, i as int);
            lemma_total_credited_prefix(its, i as int + 1);
        }
        let ghost prev_movies = store.movies@;
        let ghost d = item.details;
        process_item(store, tracker, item.details, item.credits);
        proof {
            assert(its.take(i as int + 1).drop_last() =~= its.take(i as int));
            assert(its.take(i as int + 1).last() == its[i as int]);
            assert forall|j: int| 0 <= j < i + 1 implies has_movie(
                store.movies@,
                its[j].details.id,
            ) by {
                if j < i {
                    lemma_upsert_preserves_keys(prev_movies, d, its[j].details.id);
                }
            }
        }
        i = i + 1;
    }
    proof {
        assert(its.take(its.len() as int) =~= its);
    }
}

} // verus!
