//! Core of a web-feed subscription tracker.
//!
//! The crate models three cooperating parts: a store that keeps feeds and
//! their posts under uniqueness and ordering invariants, a fetcher surface
//! that turns a remote document into plain records, and a coordinator
//! (`Core`) that sequences fetching and merging. The store's behaviour is
//! specified against the ghost model in [`model`].

use vstd::prelude::*;

pub mod http;
pub mod model;
pub mod store;

use crate::model::{
    entries_for, feed_id_taken, feed_url_taken, fresh_ids, lemma_synced_refl, lemma_synced_step,
    merged_store, new_feed, sorted_desc, store_wf, synced_prefix, synced_upto, EntryView, FeedView,
    RemoteEntryView, RemoteFeedView, StoreView,
};

verus! {

/// A tracked subscription.
pub struct Feed {
    pub id: String,
    pub url: String,
    pub title: Option<String>,
    pub description: Option<String>,
    pub last_synced_at: Option<u64>,
    pub created_at: u64,
    pub updated_at: u64,
}

impl View for Feed {
    type V = FeedView;

    open spec fn view(&self) -> FeedView {
        FeedView {
            id: self.id@,
            url: self.url@,
            title: match self.title {
                Some(t) => Some(t@),
                None => None,
            },
            description: match self.description {
                Some(d) => Some(d@),
                None => None,
            },
            last_synced_at: self.last_synced_at,
            created_at: self.created_at,
            updated_at: self.updated_at,
        }
    }
}

impl DeepView for Feed {
    type V = FeedView;

    open spec fn deep_view(&self) -> FeedView {
        self.view()
    }
}

impl Clone for Feed {
    fn clone(&self) -> (r: Self)
        ensures
            r == *self,
    {
        Feed {
            id: self.id.clone(),
            url: self.url.clone(),
            title: match &self.title {
                Some(t) => Some(t.clone()),
                None => None,
            },
            description: match &self.description {
                Some(d) => Some(d.clone()),
                None => None,
            },
            last_synced_at: self.last_synced_at,
            created_at: self.created_at,
            updated_at: self.updated_at,
        }
    }
}

/// One discovered item belonging to a feed, deduplicated by its remote
/// guid.
pub struct FeedEntry {
    pub id: String,
    pub feed_id: String,
    pub title: String,
    pub description: String,
    pub guid: String,
    pub link: String,
    pub created_at: u64,
    pub publish_time: Option<u64>,
}

impl View for FeedEntry {
    type V = EntryView;

    open spec fn view(&self) -> EntryView {
        EntryView {
            id: self.id@,
            feed_id: self.feed_id@,
            title: self.title@,
            description: self.description@,
            guid: self.guid@,
            link: self.link@,
            created_at: self.created_at,
            publish_time: self.publish_time,
        }
    }
}

impl DeepView for FeedEntry {
    type V = EntryView;

    open spec fn deep_view(&self) -> EntryView {
        self.view()
    }
}

impl Clone for FeedEntry {
    fn clone(&self) -> (r: Self)
        ensures
            r == *self,
    {
        FeedEntry {
            id: self.id.clone(),
            feed_id: self.feed_id.clone(),
            title: self.title.clone(),
            description: self.description.clone(),
            guid: self.guid.clone(),
            link: self.link.clone(),
            created_at: self.created_at,
            publish_time: self.publish_time,
        }
    }
}

/// The feed-level fields extracted from a remote document.
pub struct RemoteFeed {
    pub url: String,
    pub title: String,
    pub description: String,
}

impl View for RemoteFeed {
    type V = RemoteFeedView;

    open spec fn view(&self) -> RemoteFeedView {
        RemoteFeedView { url: self.url@, title: self.title@, description: self.description@ }
    }
}

impl DeepView for RemoteFeed {
    type V = RemoteFeedView;

    open spec fn deep_view(&self) -> RemoteFeedView {
        self.view()
    }
}

/// One item extracted from a remote document: descriptive content plus
/// the remote guid used for dedup. It carries no local identifiers.
pub struct RemoteEntry {
    pub title: String,
    pub description: String,
    pub guid: String,
    pub link: String,
    pub publish_time_unix_secs: Option<u64>,
}

impl View for RemoteEntry {
    type V = RemoteEntryView;

    open spec fn view(&self) -> RemoteEntryView {
        RemoteEntryView {
            title: self.title@,
            description: self.description@,
            guid: self.guid@,
            link: self.link@,
            publish_time_unix_secs: self.publish_time_unix_secs,
        }
    }
}

impl DeepView for RemoteEntry {
    type V = RemoteEntryView;

    open spec fn deep_view(&self) -> RemoteEntryView {
        self.view()
    }
}

impl Clone for RemoteEntry {
    fn clone(&self) -> (r: Self)
        ensures
            r == *self,
    {
        RemoteEntry {
            title: self.title.clone(),
            description: self.description.clone(),
            guid: self.guid.clone(),
            link: self.link.clone(),
            publish_time_unix_secs: self.publish_time_unix_secs,
        }
    }
}

/// `std::io::Error`, declared so that `Error` can carry it through.
#[verifier::external_type_specification]
#[verifier::external_body]
pub struct ExIoError(std::io::Error);

/// The error taxonomy of the whole core.
#[derive(Debug)]
pub enum Error {
    /// A lookup missed, or the remote side answered with a client-error
    /// status.
    NotFound,
    /// A local filesystem or initialization failure.
    Io(std::io::Error),
    /// A remote server fault, a malformed remote document, or an
    /// underlying storage failure; carries a diagnostic message.
    Internal(String),
}

/// Durable, keyed storage for feeds and their posts. The contract fixes
/// the store's observable behaviour against the ghost model: uniqueness
/// of urls and guids, the listing order, and the dedup rule of a merge.
pub trait Storage: Sized {
    /// The two relations the store holds. Implementations outside the
    /// verifier's reach may keep the default, vacuous abstraction.
    open spec fn state(&self) -> StoreView {
        StoreView { feeds: Seq::empty(), entries: Seq::empty() }
    }

    /// All tracked feeds, in storage order.
    fn list_feeds(&self) -> (r: Result<Vec<Feed>, Error>)
        requires
            store_wf(self.state()),
        ensures
            r matches Ok(feeds) && feeds.deep_view() == self.state().feeds,
    ;

    /// Inserts a new feed row for `url` with generated id and current
    /// timestamps. Succeeds exactly when the url is not already tracked;
    /// a duplicate url fails and leaves the store unchanged.
    fn add_feed(&mut self, url: String) -> (r: Result<Feed, Error>)
        requires
            store_wf(old(self).state()),
        ensures
            store_wf(final(self).state()),
            r is Ok <==> !feed_url_taken(old(self).state().feeds, url@),
            r matches Ok(f) ==> {
                &&& !feed_url_taken(old(self).state().feeds, url@)
                &&& !feed_id_taken(old(self).state().feeds, f@.id)
                &&& f@ == new_feed(f@.id, url@, f@.created_at)
                &&& final(self).state().feeds == old(self).state().feeds.push(f@)
                &&& final(self).state().entries == old(self).state().entries
            },
            r matches Err(e) ==> final(self).state() == old(self).state() && e is Internal,
    ;

    /// Point lookup by feed id; `NotFound` exactly when no row matches.
    fn get_feed(&self, id: &str) -> (r: Result<Feed, Error>)
        requires
            store_wf(self.state()),
        ensures
            r matches Ok(f) ==> self.state().feeds.contains(f@) && f@.id == id@,
            r matches Err(e) ==> e is NotFound && !feed_id_taken(self.state().feeds, id@),
    ;

    /// All posts of one feed, ordered by publish time descending with
    /// creation time descending as tiebreak; posts with no parsed publish
    /// time come last.
    fn list_entries(&self, feed_id: &str) -> (r: Result<Vec<FeedEntry>, Error>)
        requires
            store_wf(self.state()),
        ensures
            r matches Ok(es) && sorted_desc(es.deep_view()) && es.deep_view().to_multiset()
                == entries_for(self.state().entries, feed_id@).to_multiset(),
    ;

    /// One merge step: refreshes the feed's metadata and inserts each
    /// remote post whose guid is not yet stored; posts with known guids
    /// are dropped silently.
    fn update_feed(&mut self, feed_id: &str, remote: &RemoteFeed, entries: &[RemoteEntry]) -> (r:
        Result<(), Error>)
        requires
            store_wf(old(self).state()),
        ensures
            r is Ok,
            store_wf(final(self).state()),
            exists|ids: Seq<Seq<char>>, t: u64|
                ids.len() == entries.deep_view().len() && fresh_ids(
                    old(self).state().entries,
                    ids,
                ) && final(self).state() == merged_store(
                    old(self).state(),
                    feed_id@,
                    remote@,
                    entries.deep_view(),
                    ids,
                    t,
                ),
    ;
}

/// Takes a url and fetches the remote feed and its items. Implementations
/// live at the edge of the system; nothing is assumed of what they return.
pub trait Fetcher {
    fn fetch(&self, url: &str) -> (r: Result<(RemoteFeed, Vec<RemoteEntry>), Error>);
}

/// The top-level service object: sequences fetching and merging over a
/// storage and a fetcher implementation.
pub struct Core<S, F> {
    store: S,
    fetcher: F,
}

impl<S: Storage, F: Fetcher> Core<S, F> {
    /// The store's relations, as the coordinator sees them.
    pub closed spec fn state(&self) -> StoreView {
        self.store.state()
    }

    pub open spec fn wf(&self) -> bool {
        store_wf(self.state())
    }

    pub fn new(store: S, fetcher: F) -> (r: Self)
        ensures
            r.state() == store.state(),
    {
        Core { store, fetcher }
    }

    pub fn list_feeds(&self) -> (r: Result<Vec<Feed>, Error>)
        requires
            self.wf(),
        ensures
            r matches Ok(feeds) && feeds.deep_view() == self.state().feeds,
    {
        self.store.list_feeds()
    }

    /// Fetches `url` first; only if the fetch succeeds is the feed row
    /// created and the fetched content merged into it. A failed fetch, a
    /// duplicate url, or a storage failure leaves the store exactly as it
    /// was.
    pub fn add_feed(&mut self, url: String) -> (r: Result<Feed, Error>)
        requires
            old(self).wf(),
        ensures
            final(self).wf(),
            r is Err ==> final(self).state() == old(self).state(),
            feed_url_taken(old(self).state().feeds, url@) ==> r is Err,
            r matches Ok(f) ==> {
                &&& !feed_url_taken(old(self).state().feeds, url@)
                &&& f@ == new_feed(f@.id, url@, f@.created_at)
                &&& exists|
                    rf: RemoteFeedView,
                    batch: Seq<RemoteEntryView>,
                    ids: Seq<Seq<char>>,
                    t: u64,
                |
                    ids.len() == batch.len() && fresh_ids(old(self).state().entries, ids)
                        && final(self).state() == merged_store(
                        StoreView {
                            feeds: old(self).state().feeds.push(f@),
                            entries: old(self).state().entries,
                        },
                        f@.id,
                        rf,
                        batch,
                        ids,
                        t,
                    )
            },
    {
        let fetched = self.fetcher.fetch(url.as_str());
        let (remote_feed, remote_entries) = match fetched {
            Ok(p) => p,
            Err(e) => {
                return Err(e);
            },
        };
        let feed = match self.store.add_feed(url) {
            Ok(f) => f,
            Err(e) => {
                return Err(e);
            },
        };
        let ghost mid: StoreView = self.store.state();
        let slice = remote_entries.as_slice();
        let r = self.store.update_feed(feed.id.as_str(), &remote_feed, slice);
        match r {
            Ok(_) => {
                proof {
                    let (ids, t) = choose|ids: Seq<Seq<char>>, t: u64|
                        ids.len() == slice.deep_view().len() && fresh_ids(mid.entries, ids)
                            && self.store.state() == merged_store(
                            mid,
                            feed@.id,
                            remote_feed@,
                            slice.deep_view(),
                            ids,
                            t,
                        );
                    assert(ids.len() == slice.deep_view().len());
                }
                Ok(feed)
            },
            Err(e) => Err(e),
        }
    }

    /// Lists all feeds, then fetches and merges each in turn. A fetch
    /// failure aborts the remaining sequence and surfaces the error;
    /// merges that completed before the failure stay committed.
    pub fn sync_all(&mut self) -> (r: Result<(), Error>)
        requires
            old(self).wf(),
        ensures
            final(self).wf(),
            old(self).state().feeds.len() == 0 ==> r is Ok,
            synced_prefix(old(self).state(), final(self).state(), old(self).state().feeds),
            r is Ok ==> synced_upto(
                old(self).state(),
                final(self).state(),
                old(self).state().feeds,
                old(self).state().feeds.len() as int,
            ),
    {
        let ghost from: StoreView = self.store.state();
        let feeds = match self.store.list_feeds() {
            Ok(f) => f,
            Err(e) => {
                return Err(e);
            },
        };
        proof {
            lemma_synced_refl(from, from.feeds);
        }
        let n = feeds.len();
        for i in 0..n
            invariant
                from == old(self).state(),
                n == feeds.len(),
                feeds.deep_view() == from.feeds,
                store_wf(self.store.state()),
                synced_upto(from, self.store.state(), from.feeds, i as int),
        {
            let (remote_feed, remote_entries) = match self.fetcher.fetch(feeds[i].url.as_str()) {
                Ok(p) => p,
                Err(e) => {
                    proof {
                        assert(0 <= i as int <= from.feeds.len());
                        assert(synced_prefix(from, self.store.state(), from.feeds));
                    }
                    return Err(e);
                },
            };
            let ghost mid: StoreView = self.store.state();
            let slice = remote_entries.as_slice();
            let r = self.store.update_feed(feeds[i].id.as_str(), &remote_feed, slice);
            match r {
                Ok(_) => (),
                Err(e) => {
                    return Err(e);
                },
            }
            proof {
                let (ids, t) = choose|ids: Seq<Seq<char>>, t: u64|
                    ids.len() == slice.deep_view().len() && fresh_ids(mid.entries, ids)
                        && self.store.state() == merged_store(
                        mid,
                        feeds[i as int]@.id,
                        remote_feed@,
                        slice.deep_view(),
                        ids,
                        t,
                    );
                lemma_synced_step(
                    from,
                    mid,
                    self.store.state(),
                    from.feeds,
                    i as int,
                    remote_feed@,
                    slice.deep_view(),
                    ids,
                    t,
                );
            }
        }
        proof {
            assert(n as int == old(self).state().feeds.len());
            assert(synced_upto(
                old(self).state(),
                self.store.state(),
                old(self).state().feeds,
                old(self).state().feeds.len() as int,
            ));
            assert(synced_prefix(from, self.store.state(), from.feeds));
        }
        Ok(())
    }

    pub fn get_feed(&self, id: &str) -> (r: Result<Feed, Error>)
        requires
            self.wf(),
        ensures
            r matches Ok(f) ==> self.state().feeds.contains(f@) && f@.id == id@,
            r matches Err(e) ==> e is NotFound && !feed_id_taken(self.state().feeds, id@),
    {
        self.store.get_feed(id)
    }

    pub fn list_entries(&self, feed_id: &str) -> (r: Result<Vec<FeedEntry>, Error>)
        requires
            self.wf(),
        ensures
            r matches Ok(es) && sorted_desc(es.deep_view()) && es.deep_view().to_multiset()
                == entries_for(self.state().entries, feed_id@).to_multiset(),
    {
        self.store.list_entries(feed_id)
    }
}

} // verus!
