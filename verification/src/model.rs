//! Mathematical model of the feed store.
//!
//! The executable types in the crate root are abstracted here as ghost
//! records over `Seq<char>` strings, and the store's operations are given
//! exact functional descriptions: what a freshly created feed looks like,
//! how a sync rewrites a feed's metadata, and how a batch of remote posts
//! is merged into the stored posts with deduplication by guid.

use vstd::prelude::*;

verus! {

/// Abstraction of a tracked feed row.
pub ghost struct FeedView {
    pub id: Seq<char>,
    pub url: Seq<char>,
    pub title: Option<Seq<char>>,
    pub description: Option<Seq<char>>,
    pub last_synced_at: Option<u64>,
    pub created_at: u64,
    pub updated_at: u64,
}

/// Abstraction of a stored post row.
pub ghost struct EntryView {
    pub id: Seq<char>,
    pub feed_id: Seq<char>,
    pub title: Seq<char>,
    pub description: Seq<char>,
    pub guid: Seq<char>,
    pub link: Seq<char>,
    pub created_at: u64,
    pub publish_time: Option<u64>,
}

/// Abstraction of a remote document's feed-level fields.
pub ghost struct RemoteFeedView {
    pub url: Seq<char>,
    pub title: Seq<char>,
    pub description: Seq<char>,
}

/// Abstraction of one remote post as the fetcher hands it over.
pub ghost struct RemoteEntryView {
    pub title: Seq<char>,
    pub description: Seq<char>,
    pub guid: Seq<char>,
    pub link: Seq<char>,
    pub publish_time_unix_secs: Option<u64>,
}

/// The whole store: the two durable relations.
pub ghost struct StoreView {
    pub feeds: Seq<FeedView>,
    pub entries: Seq<EntryView>,
}

pub open spec fn feed_url_taken(feeds: Seq<FeedView>, url: Seq<char>) -> bool {
    exists|i: int| 0 <= i < feeds.len() && feeds[i].url == url
}

pub open spec fn feed_id_taken(feeds: Seq<FeedView>, id: Seq<char>) -> bool {
    exists|i: int| 0 <= i < feeds.len() && feeds[i].id == id
}

pub open spec fn guid_known(entries: Seq<EntryView>, guid: Seq<char>) -> bool {
    exists|i: int| 0 <= i < entries.len() && entries[i].guid == guid
}

pub open spec fn entry_id_taken(entries: Seq<EntryView>, id: Seq<char>) -> bool {
    exists|i: int| 0 <= i < entries.len() && entries[i].id == id
}

/// Feed rows never share an id or a url.
pub open spec fn feeds_wf(feeds: Seq<FeedView>) -> bool {
    forall|i: int, j: int|
        0 <= i < j < feeds.len() ==> feeds[i].id != feeds[j].id && feeds[i].url != feeds[j].url
}

/// Post rows never share an id or a guid; guid uniqueness is global,
/// across all feeds.
pub open spec fn entries_wf(entries: Seq<EntryView>) -> bool {
    forall|i: int, j: int|
        0 <= i < j < entries.len() ==> entries[i].id != entries[j].id && entries[i].guid
            != entries[j].guid
}

pub open spec fn store_wf(s: StoreView) -> bool {
    feeds_wf(s.feeds) && entries_wf(s.entries)
}

/// A feed row as it is created: no metadata yet, never synced, both
/// lifecycle timestamps set to the creation instant.
pub open spec fn new_feed(id: Seq<char>, url: Seq<char>, t: u64) -> FeedView {
    FeedView {
        id: id,
        url: url,
        title: None,
        description: None,
        last_synced_at: None,
        created_at: t,
        updated_at: t,
    }
}

/// A feed row after a successful sync at time `t`: title and description
/// are taken from the remote document, `last_synced_at` and `updated_at`
/// move to `t`, identity and creation time stay.
pub open spec fn synced_feed(f: FeedView, remote: RemoteFeedView, t: u64) -> FeedView {
    FeedView {
        id: f.id,
        url: f.url,
        title: Some(remote.title),
        description: Some(remote.description),
        last_synced_at: Some(t),
        created_at: f.created_at,
        updated_at: t,
    }
}

/// The post row stored for a remote post: descriptive fields are copied
/// verbatim, the id is the storage-generated one, `created_at` is the
/// merge instant, and the publish time is whatever the fetcher parsed.
pub open spec fn entry_of(r: RemoteEntryView, id: Seq<char>, feed_id: Seq<char>, t: u64) -> EntryView {
    EntryView {
        id: id,
        feed_id: feed_id,
        title: r.title,
        description: r.description,
        guid: r.guid,
        link: r.link,
        created_at: t,
        publish_time: r.publish_time_unix_secs,
    }
}

/// Merging a batch of remote posts into the stored posts, left to right.
/// A post is inserted only if its guid is not already stored (the dedup
/// rule) and the id generated for it (`ids` runs parallel to `batch`) is
/// itself unused; otherwise the post is dropped without error.
pub open spec fn merge_entries(
    entries: Seq<EntryView>,
    feed_id: Seq<char>,
    batch: Seq<RemoteEntryView>,
    ids: Seq<Seq<char>>,
    t: u64,
) -> Seq<EntryView>
    decreases batch.len(),
{
    if batch.len() == 0 {
        entries
    } else {
        let stored = if !guid_known(entries, batch[0].guid) && !entry_id_taken(
            entries,
            ids[0],
        ) {
            entries.push(entry_of(batch[0], ids[0], feed_id, t))
        } else {
            entries
        };
        merge_entries(stored, feed_id, batch.drop_first(), ids.drop_first(), t)
    }
}

/// The feed relation after the feed with id `feed_id` (if any) has been
/// synced against `remote` at time `t`. Other feeds are untouched.
pub open spec fn feeds_after_sync(
    feeds: Seq<FeedView>,
    feed_id: Seq<char>,
    remote: RemoteFeedView,
    t: u64,
) -> Seq<FeedView> {
    feeds.map(
        |i: int, f: FeedView|
            if f.id == feed_id {
                synced_feed(f, remote, t)
            } else {
                f
            },
    )
}

/// Sort key for the post listing: a post with no parsed publish time
/// sorts below every post that has one.
pub open spec fn pt_key(e: EntryView) -> int {
    match e.publish_time {
        Some(t) => t as int,
        None => -1,
    }
}

/// `a` may stand at or before `b` in a post listing: publish time
/// descending, ties broken by creation time descending.
pub open spec fn entry_ge(a: EntryView, b: EntryView) -> bool {
    pt_key(a) > pt_key(b) || (pt_key(a) == pt_key(b) && a.created_at >= b.created_at)
}

pub open spec fn sorted_desc(s: Seq<EntryView>) -> bool {
    forall|i: int, j: int| 0 <= i < j < s.len() ==> entry_ge(s[i], s[j])
}

/// The stored posts that belong to one feed, in storage order.
pub open spec fn entries_for(entries: Seq<EntryView>, feed_id: Seq<char>) -> Seq<EntryView>
    decreases entries.len(),
{
    if entries.len() == 0 {
        Seq::empty()
    } else {
        let rest = entries_for(entries.drop_last(), feed_id);
        if entries.last().feed_id == feed_id {
            rest.push(entries.last())
        } else {
            rest
        }
    }
}

/// One whole merge step: the feed's metadata is refreshed and the batch
/// of remote posts is folded into the post relation.
pub open spec fn merged_store(
    s: StoreView,
    feed_id: Seq<char>,
    remote: RemoteFeedView,
    batch: Seq<RemoteEntryView>,
    ids: Seq<Seq<char>>,
    t: u64,
) -> StoreView {
    StoreView {
        feeds: feeds_after_sync(s.feeds, feed_id, remote, t),
        entries: merge_entries(s.entries, feed_id, batch, ids, t),
    }
}

/// The store `to` is what `from` becomes after the first `k` feeds of
/// `feeds` have each gone through one merge step, in order, against some
/// fetched content.
pub open spec fn synced_upto(from: StoreView, to: StoreView, feeds: Seq<FeedView>, k: int) -> bool
    decreases k,
{
    if k <= 0 {
        to == from
    } else {
        exists|
            mid: StoreView,
            rf: RemoteFeedView,
            batch: Seq<RemoteEntryView>,
            ids: Seq<Seq<char>>,
            t: u64,
        |
            {
                &&& synced_upto(from, mid, feeds, k - 1)
                &&& ids.len() == batch.len()
                &&& fresh_ids(mid.entries, ids)
                &&& to == #[trigger] merged_store(mid, feeds[k - 1].id, rf, batch, ids, t)
            }
    }
}

/// The ids a merge draws are admissible when they are pairwise distinct
/// and none is already used by a stored post: what a fresh-id generator
/// delivers.
pub open spec fn fresh_ids(entries: Seq<EntryView>, ids: Seq<Seq<char>>) -> bool {
    &&& (forall|p: int, q: int| 0 <= p < q < ids.len() ==> ids[p] != ids[q])
    &&& (forall|k: int| 0 <= k < ids.len() ==> !entry_id_taken(entries, ids[k]))
}

/// A merge only appends: every stored post stays where it was.
pub proof fn lemma_merge_extends(
    entries: Seq<EntryView>,
    feed_id: Seq<char>,
    batch: Seq<RemoteEntryView>,
    ids: Seq<Seq<char>>,
    t: u64,
)
    ensures
        entries.len() <= merge_entries(entries, feed_id, batch, ids, t).len(),
        forall|i: int|
            0 <= i < entries.len() ==> merge_entries(entries, feed_id, batch, ids, t)[i]
                == entries[i],
    decreases batch.len(),
{
    if batch.len() > 0 {
        let stored = if !guid_known(entries, batch[0].guid) && !entry_id_taken(entries, ids[0]) {
            entries.push(entry_of(batch[0], ids[0], feed_id, t))
        } else {
            entries
        };
        lemma_merge_extends(stored, feed_id, batch.drop_first(), ids.drop_first(), t);
        assert(merge_entries(entries, feed_id, batch, ids, t) == merge_entries(
            stored,
            feed_id,
            batch.drop_first(),
            ids.drop_first(),
            t,
        ));
        assert forall|i: int|
            0 <= i < entries.len() implies merge_entries(entries, feed_id, batch, ids, t)[i]
            == entries[i] by {
            assert(stored[i] == entries[i]);
            assert(merge_entries(stored, feed_id, batch.drop_first(), ids.drop_first(), t)[i]
                == stored[i]);
        }
    }
}

/// After a merge under fresh ids, every guid of the batch is stored:
/// either it was known before, or the merge inserted it.
pub proof fn lemma_merge_covers(
    entries: Seq<EntryView>,
    feed_id: Seq<char>,
    batch: Seq<RemoteEntryView>,
    ids: Seq<Seq<char>>,
    t: u64,
)
    requires
        ids.len() == batch.len(),
        fresh_ids(entries, ids),
    ensures
        forall|j: int|
            0 <= j < batch.len() ==> #[trigger] guid_known(
                merge_entries(entries, feed_id, batch, ids, t),
                batch[j].guid,
            ),
    decreases batch.len(),
{
    if batch.len() > 0 {
        let stored = if !guid_known(entries, batch[0].guid) && !entry_id_taken(entries, ids[0]) {
            entries.push(entry_of(batch[0], ids[0], feed_id, t))
        } else {
            entries
        };
        let merged = merge_entries(stored, feed_id, batch.drop_first(), ids.drop_first(), t);
        assert forall|k: int|
            0 <= k < ids.drop_first().len() implies !entry_id_taken(
            stored,
            ids.drop_first()[k],
        ) by {
            assert(ids.drop_first()[k] == ids[k + 1]);
            if entry_id_taken(stored, ids[k + 1]) {
                let w = choose|w: int|
                    0 <= w < stored.len() && stored[w].id == ids[k + 1];
                if w < entries.len() {
                    assert(entry_id_taken(entries, ids[k + 1]));
                } else {
                    assert(stored[w].id == ids[0]);
                }
            }
        }
        lemma_merge_covers(stored, feed_id, batch.drop_first(), ids.drop_first(), t);
        lemma_merge_extends(stored, feed_id, batch.drop_first(), ids.drop_first(), t);
        // the head guid is stored one way or the other, and stays stored
        if guid_known(entries, batch[0].guid) {
            let w = choose|w: int| 0 <= w < entries.len() && entries[w].guid == batch[0].guid;
            assert(stored[w] == entries[w]);
            assert(merged[w] == stored[w]);
        } else {
            assert(stored[entries.len() as int].guid == batch[0].guid);
            assert(merged[entries.len() as int] == stored[entries.len() as int]);
        }
        assert(guid_known(merged, batch[0].guid));
        assert forall|j: int| 0 <= j < batch.len() implies #[trigger] guid_known(
            merged,
            batch[j].guid,
        ) by {
            if j > 0 {
                assert(batch.drop_first()[j - 1] == batch[j]);
                assert(guid_known(merged, batch.drop_first()[j - 1].guid));
            }
        }
    }
}

/// Merging a batch whose guids are all stored already changes nothing.
pub proof fn lemma_merge_noop(
    entries: Seq<EntryView>,
    feed_id: Seq<char>,
    batch: Seq<RemoteEntryView>,
    ids: Seq<Seq<char>>,
    t: u64,
)
    requires
        forall|j: int| 0 <= j < batch.len() ==> #[trigger] guid_known(entries, batch[j].guid),
    ensures
        merge_entries(entries, feed_id, batch, ids, t) == entries,
    decreases batch.len(),
{
    if batch.len() > 0 {
        assert(guid_known(entries, batch[0].guid));
        assert forall|j: int|
            0 <= j < batch.drop_first().len() implies #[trigger] guid_known(
            entries,
            batch.drop_first()[j].guid,
        ) by {
            assert(batch.drop_first()[j] == batch[j + 1]);
        }
        lemma_merge_noop(entries, feed_id, batch.drop_first(), ids.drop_first(), t);
    }
}

/// Dedup idempotence: merging the same batch of remote posts twice leaves
/// exactly the post rows of the first merge — for any feed, any batch,
/// any second round of generated ids and any later merge instant —
/// provided the first merge drew fresh ids, as the store's generator does.
pub proof fn lemma_merge_idempotent(
    entries: Seq<EntryView>,
    feed_id: Seq<char>,
    batch: Seq<RemoteEntryView>,
    ids1: Seq<Seq<char>>,
    t1: u64,
    ids2: Seq<Seq<char>>,
    t2: u64,
)
    requires
        ids1.len() == batch.len(),
        fresh_ids(entries, ids1),
    ensures
        merge_entries(
            merge_entries(entries, feed_id, batch, ids1, t1),
            feed_id,
            batch,
            ids2,
            t2,
        ) == merge_entries(entries, feed_id, batch, ids1, t1),
{
    lemma_merge_covers(entries, feed_id, batch, ids1, t1);
    lemma_merge_noop(merge_entries(entries, feed_id, batch, ids1, t1), feed_id, batch, ids2, t2);
}

/// Dedup idempotence at the store level: after one merge of a batch under
/// fresh ids, merging the identical batch again — at any later instant,
/// under any second round of ids — leaves the post relation exactly as
/// the first merge left it.
pub proof fn lemma_merged_store_idempotent(
    s: StoreView,
    feed_id: Seq<char>,
    remote1: RemoteFeedView,
    remote2: RemoteFeedView,
    batch: Seq<RemoteEntryView>,
    ids1: Seq<Seq<char>>,
    t1: u64,
    ids2: Seq<Seq<char>>,
    t2: u64,
)
    requires
        ids1.len() == batch.len(),
        fresh_ids(s.entries, ids1),
    ensures
        merged_store(
            merged_store(s, feed_id, remote1, batch, ids1, t1),
            feed_id,
            remote2,
            batch,
            ids2,
            t2,
        ).entries == merged_store(s, feed_id, remote1, batch, ids1, t1).entries,
{
    lemma_merge_idempotent(s.entries, feed_id, batch, ids1, t1, ids2, t2);
}

/// Guid uniqueness survives every merge: a batch item whose guid is
/// already stored — even by another feed's post — is dropped, never
/// inserted beside or over the stored row.
pub proof fn lemma_merge_preserves_guid_uniqueness(
    entries: Seq<EntryView>,
    feed_id: Seq<char>,
    batch: Seq<RemoteEntryView>,
    ids: Seq<Seq<char>>,
    t: u64,
)
    requires
        entries_wf(entries),
    ensures
        entries_wf(merge_entries(entries, feed_id, batch, ids, t)),
    decreases batch.len(),
{
    if batch.len() > 0 {
        let stored = if !guid_known(entries, batch[0].guid) && !entry_id_taken(entries, ids[0]) {
            entries.push(entry_of(batch[0], ids[0], feed_id, t))
        } else {
            entries
        };
        lemma_merge_preserves_guid_uniqueness(
            stored,
            feed_id,
            batch.drop_first(),
            ids.drop_first(),
            t,
        );
    }
}

/// `to` is `from` after merge steps for some leading stretch of `feeds`:
/// what a bulk sync leaves behind when it may have stopped early.
pub open spec fn synced_prefix(from: StoreView, to: StoreView, feeds: Seq<FeedView>) -> bool {
    exists|k: int| 0 <= k <= feeds.len() && #[trigger] synced_upto(from, to, feeds, k)
}

pub proof fn lemma_synced_refl(s: StoreView, feeds: Seq<FeedView>)
    ensures
        synced_upto(s, s, feeds, 0),
{
}

/// Extends a sync chain by one merge step.
pub proof fn lemma_synced_step(
    from: StoreView,
    mid: StoreView,
    to: StoreView,
    feeds: Seq<FeedView>,
    k: int,
    rf: RemoteFeedView,
    batch: Seq<RemoteEntryView>,
    ids: Seq<Seq<char>>,
    t: u64,
)
    requires
        0 <= k < feeds.len(),
        synced_upto(from, mid, feeds, k),
        ids.len() == batch.len(),
        fresh_ids(mid.entries, ids),
        to == merged_store(mid, feeds[k].id, rf, batch, ids, t),
    ensures
        synced_upto(from, to, feeds, k + 1),
{
    assert(synced_upto(from, mid, feeds, (k + 1) - 1));
    assert(to == merged_store(mid, feeds[(k + 1) - 1].id, rf, batch, ids, t));
}

} // verus!
