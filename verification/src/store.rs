//! The verified in-memory store.
//!
//! `Store` keeps the two relations of the system — feeds and their posts —
//! in plain vectors and implements [`Storage`] against the ghost model:
//! feed urls and ids are unique, post guids and ids are globally unique,
//! a merge inserts a post only when its guid is new, and the post listing
//! comes out ordered by publish time. Row ids are drawn from a generator
//! and checked — and, on a clash, extended — until provably fresh, so no
//! row is ever lost to an id collision; the `*_with_ids` entry points
//! take the ids as arguments and carry the exact contracts, so that
//! everything past the draw is deterministic.

use vstd::prelude::*;

use crate::model::{
    entries_for, entries_wf, entry_ge, entry_id_taken, entry_of, feed_id_taken, feed_url_taken,
    feeds_after_sync, feeds_wf, fresh_ids, guid_known, merge_entries, merged_store, new_feed,
    sorted_desc, store_wf, EntryView, FeedView, StoreView,
};
use crate::{Error, Feed, FeedEntry, RemoteEntry, RemoteFeed, Storage};

verus! {

broadcast use vstd::seq_lib::group_to_multiset_ensures, vstd::multiset::group_multiset_axioms;

/// Relies on `uuid::Uuid::new_v4` and its `Display` form: a freshly drawn
/// random identifier, rendered as the usual hyphenated text. Nothing is
/// assumed of the value; callers check it against the rows they hold.
#[verifier::external_body]
fn fresh_id() -> String {
    uuid::Uuid::new_v4().to_string()
}

/// One of `texts` is exactly `s`.
spec fn text_in(texts: Seq<Seq<char>>, s: Seq<char>) -> bool {
    exists|k: int| 0 <= k < texts.len() && texts[k] == s
}

/// Length of the longest of `texts` (zero when there are none): the bound
/// that makes extending a clashing id terminate.
spec fn max_text_len(texts: Seq<Seq<char>>) -> int
    decreases texts.len(),
{
    if texts.len() == 0 {
        0
    } else {
        let rest = max_text_len(texts.drop_last());
        if texts.last().len() > rest {
            texts.last().len() as int
        } else {
            rest
        }
    }
}

proof fn lemma_max_text_len(texts: Seq<Seq<char>>)
    ensures
        max_text_len(texts) >= 0,
        forall|k: int| 0 <= k < texts.len() ==> #[trigger] texts[k].len() <= max_text_len(texts),
    decreases texts.len(),
{
    if texts.len() > 0 {
        lemma_max_text_len(texts.drop_last());
        assert forall|k: int|
            0 <= k < texts.len() implies #[trigger] texts[k].len() <= max_text_len(texts) by {
            if k < texts.len() - 1 {
                assert(texts.drop_last()[k] == texts[k]);
            }
        }
    }
}

fn vec_contains_text(texts: &Vec<String>, s: &String) -> (r: bool)
    ensures
        r == text_in(texts.deep_view(), s@),
{
    let n = texts.len();
    for i in 0..n
        invariant
            n == texts.len(),
            forall|y: int| 0 <= y < i ==> texts.deep_view()[y] != s@,
    {
        if texts[i] == *s {
            proof {
                assert(texts.deep_view()[i as int] == s@);
            }
            return true;
        }
    }
    false
}

/// Draws a feed id and, should the draw clash with a stored feed id,
/// extends it until it is longer than every one of them, hence fresh.
fn fresh_feed_id(feeds: &Vec<Feed>) -> (r: String)
    ensures
        !feed_id_taken(feeds.deep_view(), r@),
{
    let ghost stored: Seq<Seq<char>> = feeds.deep_view().map_values(|f: FeedView| f.id);
    let mut id = fresh_id();
    while vec_has_feed_id(feeds, &id)
        invariant
            stored == feeds.deep_view().map_values(|f: FeedView| f.id),
        decreases max_text_len(stored) + 1 - id@.len(),
    {
        proof {
            lemma_max_text_len(stored);
            let w = choose|w: int|
                0 <= w < feeds.deep_view().len() && feeds.deep_view()[w].id == id@;
            assert(stored[w] == id@);
            reveal_strlit("x");
        }
        id.append("x");
    }
    id
}

fn vec_has_feed_id(feeds: &Vec<Feed>, id: &String) -> (r: bool)
    ensures
        r == feed_id_taken(feeds.deep_view(), id@),
{
    let n = feeds.len();
    for i in 0..n
        invariant
            n == feeds.len(),
            forall|y: int| 0 <= y < i ==> feeds.deep_view()[y].id != id@,
    {
        if feeds[i].id == *id {
            proof {
                assert(feeds.deep_view()[i as int].id == id@);
            }
            return true;
        }
    }
    false
}

/// Draws a post id and, should the draw clash with a stored post id or
/// one already drawn for this batch, extends it until it is longer than
/// all of them, hence fresh: a merge never loses a post to an id clash.
fn fresh_entry_id(entries: &Vec<FeedEntry>, drawn: &Vec<String>) -> (r: String)
    ensures
        !entry_id_taken(entries.deep_view(), r@),
        !text_in(drawn.deep_view(), r@),
{
    let ghost stored: Seq<Seq<char>> = entries.deep_view().map_values(|e: EntryView| e.id);
    let mut id = fresh_id();
    while vec_has_entry_id(entries, &id) || vec_contains_text(drawn, &id)
        invariant
            stored == entries.deep_view().map_values(|e: EntryView| e.id),
        decreases max_text_len(stored) + max_text_len(drawn.deep_view()) + 2 - id@.len(),
    {
        proof {
            lemma_max_text_len(stored);
            lemma_max_text_len(drawn.deep_view());
            if entry_id_taken(entries.deep_view(), id@) {
                let w = choose|w: int|
                    0 <= w < entries.deep_view().len() && entries.deep_view()[w].id == id@;
                assert(stored[w] == id@);
            } else {
                let w = choose|w: int|
                    0 <= w < drawn.deep_view().len() && drawn.deep_view()[w] == id@;
            }
            reveal_strlit("x");
        }
        id.append("x");
    }
    id
}

fn vec_has_feed_url(feeds: &Vec<Feed>, url: &String) -> (r: bool)
    ensures
        r == feed_url_taken(feeds.deep_view(), url@),
{
    let n = feeds.len();
    for i in 0..n
        invariant
            n == feeds.len(),
            forall|y: int| 0 <= y < i ==> feeds.deep_view()[y].url != url@,
    {
        if feeds[i].url == *url {
            proof {
                assert(feeds.deep_view()[i as int].url == url@);
            }
            return true;
        }
    }
    false
}

fn find_feed_index(feeds: &Vec<Feed>, id: &String) -> (r: Option<usize>)
    ensures
        match r {
            Some(i) => i < feeds@.len() && feeds.deep_view()[i as int].id == id@,
            None => !feed_id_taken(feeds.deep_view(), id@),
        },
{
    let n = feeds.len();
    for i in 0..n
        invariant
            n == feeds.len(),
            forall|y: int| 0 <= y < i ==> feeds.deep_view()[y].id != id@,
    {
        if feeds[i].id == *id {
            return Some(i);
        }
    }
    None
}

fn vec_has_guid(entries: &Vec<FeedEntry>, guid: &String) -> (r: bool)
    ensures
        r == guid_known(entries.deep_view(), guid@),
{
    let n = entries.len();
    for i in 0..n
        invariant
            n == entries.len(),
            forall|y: int| 0 <= y < i ==> entries.deep_view()[y].guid != guid@,
    {
        if entries[i].guid == *guid {
            proof {
                assert(entries.deep_view()[i as int].guid == guid@);
            }
            return true;
        }
    }
    false
}

fn vec_has_entry_id(entries: &Vec<FeedEntry>, id: &String) -> (r: bool)
    ensures
        r == entry_id_taken(entries.deep_view(), id@),
{
    let n = entries.len();
    for i in 0..n
        invariant
            n == entries.len(),
            forall|y: int| 0 <= y < i ==> entries.deep_view()[y].id != id@,
    {
        if entries[i].id == *id {
            proof {
                assert(entries.deep_view()[i as int].id == id@);
            }
            return true;
        }
    }
    false
}

/// `a` may stand at or before `b` in the post listing.
fn entry_ge_exec(a: &FeedEntry, b: &FeedEntry) -> (r: bool)
    ensures
        r == entry_ge(a@, b@),
{
    match (a.publish_time, b.publish_time) {
        (Some(x), Some(y)) => x > y || (x == y && a.created_at >= b.created_at),
        (Some(_), None) => true,
        (None, Some(_)) => false,
        (None, None) => a.created_at >= b.created_at,
    }
}

/// Selection sort for the post listing: publish time descending, creation
/// time descending as tiebreak; the result is a permutation of the input.
fn sort_entries(v: Vec<FeedEntry>) -> (r: Vec<FeedEntry>)
    ensures
        sorted_desc(r.deep_view()),
        r.deep_view().to_multiset() == v.deep_view().to_multiset(),
{
    let mut src = v;
    let mut out: Vec<FeedEntry> = Vec::new();
    proof {
        assert(out.deep_view() =~= Seq::<EntryView>::empty());
        assert(out.deep_view().to_multiset().add(src.deep_view().to_multiset())
            =~= v.deep_view().to_multiset());
    }
    while src.len() > 0
        invariant
            sorted_desc(out.deep_view()),
            forall|x: int, y: int|
                0 <= x < out.deep_view().len() && 0 <= y < src.deep_view().len() ==> entry_ge(
                    out.deep_view()[x],
                    src.deep_view()[y],
                ),
            out.deep_view().to_multiset().add(src.deep_view().to_multiset()) == v.deep_view()
                .to_multiset(),
        decreases src.len(),
    {
        let m = max_entry_index(&src);
        let ghost pre = src.deep_view();
        let ghost out_pre = out.deep_view();
        let item = src.remove(m);
        let ghost x = item@;
        out.push(item);
        proof {
            assert(x == pre[m as int]);
            assert(src.deep_view() =~= pre.remove(m as int));
            assert(out.deep_view() =~= out_pre.push(x));
            // item dominates everything still waiting in src
            assert forall|y: int| 0 <= y < src.deep_view().len() implies entry_ge(
                x,
                src.deep_view()[y],
            ) by {
                if y < m as int {
                    assert(src.deep_view()[y] == pre[y]);
                } else {
                    assert(src.deep_view()[y] == pre[y + 1]);
                }
            }
            // the listing stays sorted with item appended
            assert forall|p: int, q: int|
                0 <= p < q < out.deep_view().len() implies entry_ge(
                out.deep_view()[p],
                out.deep_view()[q],
            ) by {
                if q == out.deep_view().len() - 1 {
                    assert(out.deep_view()[p] == out_pre[p]);
                    assert(entry_ge(out_pre[p], pre[m as int]));
                }
            }
            // multiset bookkeeping: moving one element keeps the union
            assert(pre.to_multiset().count(x) > 0);
            assert(out.deep_view().to_multiset().add(src.deep_view().to_multiset())
                =~= out_pre.to_multiset().add(pre.to_multiset()));
        }
    }
    proof {
        assert(src.deep_view() =~= Seq::<EntryView>::empty());
        assert(out.deep_view().to_multiset().add(Seq::<EntryView>::empty().to_multiset())
            =~= out.deep_view().to_multiset());
    }
    out
}

/// Index of a greatest element under the listing order.
fn max_entry_index(src: &Vec<FeedEntry>) -> (m: usize)
    requires
        src@.len() > 0,
    ensures
        m < src@.len(),
        forall|y: int| 0 <= y < src.deep_view().len() ==> entry_ge(src.deep_view()[m as int], src.deep_view()[y]),
{
    let mut m: usize = 0;
    let n = src.len();
    for k in 1..n
        invariant
            n == src.len(),
            m < k,
            forall|y: int| 0 <= y < k ==> entry_ge(src.deep_view()[m as int], src.deep_view()[y]),
    {
        if !entry_ge_exec(&src[m], &src[k]) {
            m = k;
        }
    }
    m
}

/// The in-memory store. The clock it stamps rows with is explicit: callers
/// move it with [`Store::set_time`].
pub struct Store {
    feeds: Vec<Feed>,
    entries: Vec<FeedEntry>,
    now: u64,
}

impl Store {
    /// The instant the store stamps on rows it creates or updates.
    pub closed spec fn now_time(&self) -> u64 {
        self.now
    }

    pub fn new_in_memory() -> (r: Store)
        ensures
            r.state() == (StoreView { feeds: Seq::<FeedView>::empty(), entries: Seq::<EntryView>::empty() }),
            store_wf(r.state()),
            r.now_time() == 0,
    {
        let s = Store { feeds: Vec::new(), entries: Vec::new(), now: 0 };
        proof {
            assert(s.feeds.deep_view() =~= Seq::<FeedView>::empty());
            assert(s.entries.deep_view() =~= Seq::<EntryView>::empty());
        }
        s
    }

    /// Moves the store's clock; later creations and syncs are stamped with
    /// `t`.
    pub fn set_time(&mut self, t: u64)
        ensures
            final(self).state() == old(self).state(),
            final(self).now_time() == t,
    {
        self.now = t;
    }

    /// Inserts a feed row under a caller-chosen id: succeeds exactly when
    /// neither the url nor the id is already taken.
    pub fn add_feed_with_id(&mut self, url: String, id: String) -> (r: Result<Feed, Error>)
        requires
            store_wf(old(self).state()),
        ensures
            store_wf(final(self).state()),
            final(self).now_time() == old(self).now_time(),
            r is Ok <==> !feed_url_taken(old(self).state().feeds, url@) && !feed_id_taken(
                old(self).state().feeds,
                id@,
            ),
            r matches Ok(f) ==> {
                &&& f@ == new_feed(id@, url@, old(self).now_time())
                &&& final(self).state().feeds == old(self).state().feeds.push(f@)
                &&& final(self).state().entries == old(self).state().entries
            },
            r matches Err(e) ==> final(self).state() == old(self).state() && e is Internal,
    {
        let url_dup = vec_has_feed_url(&self.feeds, &url);
        let id_dup = find_feed_index(&self.feeds, &id).is_some();
        if url_dup || id_dup {
            return Err(Error::Internal("feed url or id already tracked".to_string()));
        }
        let f = Feed {
            id,
            url,
            title: None,
            description: None,
            last_synced_at: None,
            created_at: self.now,
            updated_at: self.now,
        };
        let out = f.clone();
        let ghost pre = self.feeds.deep_view();
        self.feeds.push(f);
        proof {
            assert(self.feeds.deep_view() =~= pre.push(out@));
            assert(feeds_wf(self.feeds.deep_view()));
        }
        Ok(out)
    }

    /// One merge step under caller-chosen post ids (`ids` runs parallel to
    /// `entries`): refreshes the feed's metadata and folds the batch into
    /// the post relation, exactly as [`merged_store`] describes.
    pub fn merge_with_ids(
        &mut self,
        feed_id: &str,
        remote: &RemoteFeed,
        entries: &[RemoteEntry],
        ids: &Vec<String>,
    )
        requires
            store_wf(old(self).state()),
            ids@.len() == entries@.len(),
        ensures
            store_wf(final(self).state()),
            final(self).now_time() == old(self).now_time(),
            final(self).state() == merged_store(
                old(self).state(),
                feed_id@,
                remote@,
                entries.deep_view(),
                ids.deep_view(),
                old(self).now_time(),
            ),
    {
        let ghost now0: u64 = self.now;
        let ghost feeds0: Seq<FeedView> = self.feeds.deep_view();
        let key: String = feed_id.to_owned();

        // Refresh the feed's metadata, if the feed is tracked.
        match find_feed_index(&self.feeds, &key) {
            Some(i) => {
                let f = self.feeds.remove(i);
                let updated = Feed {
                    id: f.id,
                    url: f.url,
                    title: Some(remote.title.clone()),
                    description: Some(remote.description.clone()),
                    last_synced_at: Some(self.now),
                    created_at: f.created_at,
                    updated_at: self.now,
                };
                self.feeds.insert(i, updated);
                proof {
                    assert forall|j: int|
                        0 <= j < feeds0.len() implies self.feeds.deep_view()[j]
                        == feeds_after_sync(feeds0, feed_id@, remote@, now0)[j] by {
                        if j != i as int {
                            assert(feeds0[j].id != feed_id@);
                        }
                    }
                    assert(self.feeds.deep_view() =~= feeds_after_sync(
                        feeds0,
                        feed_id@,
                        remote@,
                        now0,
                    ));
                    assert(feeds_wf(self.feeds.deep_view()));
                }
            },
            None => {
                proof {
                    assert(self.feeds.deep_view() =~= feeds_after_sync(
                        feeds0,
                        feed_id@,
                        remote@,
                        now0,
                    ));
                }
            },
        }

        // Fold the batch into the post relation, deduplicating by guid.
        let ghost feeds1: Seq<FeedView> = self.feeds.deep_view();
        let ghost base: Seq<EntryView> = self.entries.deep_view();
        let ghost bview: Seq<crate::model::RemoteEntryView> = entries.deep_view();
        let ghost iview: Seq<Seq<char>> = ids.deep_view();
        proof {
            assert(bview.skip(0) =~= bview);
            assert(iview.skip(0) =~= iview);
        }
        let n = entries.len();
        for j in 0..n
            invariant
                n == entries@.len(),
                ids@.len() == entries@.len(),
                bview == entries.deep_view(),
                iview == ids.deep_view(),
                key@ == feed_id@,
                self.now == now0,
                self.feeds.deep_view() == feeds1,
                entries_wf(self.entries.deep_view()),
                merge_entries(
                    self.entries.deep_view(),
                    feed_id@,
                    bview.skip(j as int),
                    iview.skip(j as int),
                    now0,
                ) == merge_entries(base, feed_id@, bview, iview, now0),
        {
            let ghost pre = self.entries.deep_view();
            let dup_guid = vec_has_guid(&self.entries, &entries[j].guid);
            let dup_id = vec_has_entry_id(&self.entries, &ids[j]);
            if !dup_guid && !dup_id {
                let e = FeedEntry {
                    id: ids[j].clone(),
                    feed_id: key.clone(),
                    title: entries[j].title.clone(),
                    description: entries[j].description.clone(),
                    guid: entries[j].guid.clone(),
                    link: entries[j].link.clone(),
                    created_at: self.now,
                    publish_time: entries[j].publish_time_unix_secs,
                };
                proof {
                    assert(e@ == entry_of(bview[j as int], iview[j as int], feed_id@, now0));
                }
                self.entries.push(e);
                proof {
                    assert(self.entries.deep_view() =~= pre.push(
                        entry_of(bview[j as int], iview[j as int], feed_id@, now0),
                    ));
                    assert(entries_wf(self.entries.deep_view()));
                }
            }
            proof {
                assert(bview.skip(j as int)[0] == bview[j as int]);
                assert(iview.skip(j as int)[0] == iview[j as int]);
                assert(bview.skip(j as int).drop_first() =~= bview.skip(j as int + 1));
                assert(iview.skip(j as int).drop_first() =~= iview.skip(j as int + 1));
                assert(merge_entries(
                    pre,
                    feed_id@,
                    bview.skip(j as int),
                    iview.skip(j as int),
                    now0,
                ) == merge_entries(
                    self.entries.deep_view(),
                    feed_id@,
                    bview.skip(j as int + 1),
                    iview.skip(j as int + 1),
                    now0,
                ));
            }
        }
        proof {
            assert(bview.skip(n as int) =~= Seq::<crate::model::RemoteEntryView>::empty());
            assert(iview.skip(n as int) =~= Seq::<Seq<char>>::empty());
            assert(merge_entries(
                self.entries.deep_view(),
                feed_id@,
                bview.skip(n as int),
                iview.skip(n as int),
                now0,
            ) == self.entries.deep_view());
        }
    }
}

impl Storage for Store {
    closed spec fn state(&self) -> StoreView {
        StoreView { feeds: self.feeds.deep_view(), entries: self.entries.deep_view() }
    }

    fn list_feeds(&self) -> (r: Result<Vec<Feed>, Error>) {
        let copy = self.feeds.clone();
        proof {
            assert forall|i: int| 0 <= i < self.feeds@.len() implies copy@[i]
                == self.feeds@[i] by {
                assert(cloned::<Feed>(self.feeds@[i], copy@[i]));
            }
            assert(copy@ =~= self.feeds@);
        }
        Ok(copy)
    }

    fn add_feed(&mut self, url: String) -> (r: Result<Feed, Error>) {
        let id = fresh_feed_id(&self.feeds);
        self.add_feed_with_id(url, id)
    }

    fn get_feed(&self, id: &str) -> (r: Result<Feed, Error>) {
        let key: String = id.to_owned();
        let n = self.feeds.len();
        for i in 0..n
            invariant
                n == self.feeds.len(),
                key@ == id@,
                forall|y: int| 0 <= y < i ==> self.feeds.deep_view()[y].id != id@,
        {
            if self.feeds[i].id == key {
                let f = self.feeds[i].clone();
                proof {
                    assert(f@ == self.feeds.deep_view()[i as int]);
                    assert(self.state().feeds.contains(f@));
                }
                return Ok(f);
            }
        }
        Err(Error::NotFound)
    }

    fn list_entries(&self, feed_id: &str) -> (r: Result<Vec<FeedEntry>, Error>) {
        let key: String = feed_id.to_owned();
        let mut picked: Vec<FeedEntry> = Vec::new();
        let ghost all: Seq<EntryView> = self.entries.deep_view();
        proof {
            assert(picked.deep_view() =~= Seq::<EntryView>::empty());
            assert(all.take(0) =~= Seq::<EntryView>::empty());
        }
        let n = self.entries.len();
        for i in 0..n
            invariant
                n == self.entries.len(),
                key@ == feed_id@,
                all == self.entries.deep_view(),
                picked.deep_view() == entries_for(all.take(i as int), feed_id@),
        {
            proof {
                assert(all.take(i as int + 1).drop_last() =~= all.take(i as int));
                assert(all.take(i as int + 1).last() == all[i as int]);
            }
            if self.entries[i].feed_id == key {
                let ghost pre = picked.deep_view();
                picked.push(self.entries[i].clone());
                proof {
                    assert(picked.deep_view() =~= pre.push(all[i as int]));
                }
            }
        }
        proof {
            assert(all.take(n as int) =~= all);
        }
        let sorted = sort_entries(picked);
        Ok(sorted)
    }

    fn update_feed(&mut self, feed_id: &str, remote: &RemoteFeed, entries: &[RemoteEntry]) -> (r:
        Result<(), Error>) {
        let n = entries.len();
        let mut ids: Vec<String> = Vec::new();
        for j in 0..n
            invariant
                ids@.len() == j,
                fresh_ids(self.entries.deep_view(), ids.deep_view()),
        {
            let id = fresh_entry_id(&self.entries, &ids);
            let ghost idv: Seq<char> = id@;
            let ghost pre: Seq<Seq<char>> = ids.deep_view();
            ids.push(id);
            proof {
                assert(ids.deep_view() =~= pre.push(idv));
                assert forall|p: int, q: int|
                    0 <= p < q < ids.deep_view().len() implies ids.deep_view()[p]
                    != ids.deep_view()[q] by {
                    if q == pre.len() as int {
                        assert(ids.deep_view()[p] == pre[p]);
                    }
                }
                assert forall|k: int|
                    0 <= k < ids.deep_view().len() implies !entry_id_taken(
                    self.entries.deep_view(),
                    ids.deep_view()[k],
                ) by {
                    if k < pre.len() as int {
                        assert(ids.deep_view()[k] == pre[k]);
                    }
                }
            }
        }
        self.merge_with_ids(feed_id, remote, entries, &ids);
        proof {
            assert(ids.deep_view().len() == entries.deep_view().len());
        }
        Ok(())
    }
}

} // verus!
