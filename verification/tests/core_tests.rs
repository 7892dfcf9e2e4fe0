use seycore::http::{Channel, FeedFetcher, Item};
use seycore::store::Store;
use seycore::{Core, Error, Fetcher, RemoteEntry, RemoteFeed, Storage};

/// A fetcher whose every fetch fails, as a dead remote would.
struct FailingFetcher {}

impl Fetcher for FailingFetcher {
    fn fetch(&self, _url: &str) -> Result<(RemoteFeed, Vec<RemoteEntry>), Error> {
        Err(Error::NotFound)
    }
}

/// A fetcher that always serves the same two-item document, run through
/// the real document mapping.
struct TwoItemFetcher {}

impl Fetcher for TwoItemFetcher {
    fn fetch(&self, _url: &str) -> Result<(RemoteFeed, Vec<RemoteEntry>), Error> {
        let channel = Channel {
            title: "A Feed".to_string(),
            description: "About things".to_string(),
            link: "https://a.example/".to_string(),
            items: vec![
                Item {
                    title: "older".to_string(),
                    link: "https://a.example/1".to_string(),
                    guid: "g1".to_string(),
                    description: "first".to_string(),
                    pub_time: "Fri, 11 Jul 2025 12:00:00 +0000".to_string(),
                },
                Item {
                    title: "newer".to_string(),
                    link: "https://a.example/2".to_string(),
                    guid: "g2".to_string(),
                    description: "second".to_string(),
                    pub_time: "Thu, 20 Nov 2025 14:19:14 +0000".to_string(),
                },
            ],
        };
        Ok(FeedFetcher::build_remote(channel))
    }
}

/// A fetcher that serves an empty document.
struct EmptyFetcher {}

impl Fetcher for EmptyFetcher {
    fn fetch(&self, _url: &str) -> Result<(RemoteFeed, Vec<RemoteEntry>), Error> {
        Ok((
            RemoteFeed {
                url: "https://a.example/".to_string(),
                title: "A Feed".to_string(),
                description: "About things".to_string(),
            },
            vec![],
        ))
    }
}

#[test]
fn failed_fetch_creates_no_feed() {
    let mut core = Core::new(Store::new_in_memory(), FailingFetcher {});
    let result = core.add_feed("https://a.example/rss".to_string());
    assert!(matches!(result, Err(Error::NotFound)));
    assert!(core.list_feeds().unwrap().is_empty());
}

#[test]
fn successful_add_creates_and_merges() {
    let mut core = Core::new(Store::new_in_memory(), TwoItemFetcher {});
    let feed = core.add_feed("https://a.example/rss".to_string()).unwrap();
    assert_eq!(feed.url, "https://a.example/rss");
    let listed = core.list_feeds().unwrap();
    assert_eq!(listed.len(), 1);
    // the fetched document was merged into the new feed
    let posts = core.list_entries(&feed.id).unwrap();
    assert_eq!(posts.len(), 2);
    let synced = core.get_feed(&feed.id).unwrap();
    assert_eq!(synced.title.as_deref(), Some("A Feed"));
}

#[test]
fn duplicate_url_add_fails_and_keeps_one_row() {
    let mut core = Core::new(Store::new_in_memory(), EmptyFetcher {});
    core.add_feed("https://a.example/rss".to_string()).unwrap();
    let second = core.add_feed("https://a.example/rss".to_string());
    assert!(matches!(second, Err(Error::Internal(_))));
    assert_eq!(core.list_feeds().unwrap().len(), 1);
}

#[test]
fn get_feed_misses_with_not_found() {
    let core = Core::new(Store::new_in_memory(), EmptyFetcher {});
    assert!(matches!(core.get_feed("missing"), Err(Error::NotFound)));
}

#[test]
fn sync_all_merges_and_stays_idempotent() {
    // store has feed F1 before the sync
    let mut store = Store::new_in_memory();
    store.set_time(1000);
    let f1 = store
        .add_feed_with_id("https://a.example/rss".to_string(), "F1".to_string())
        .unwrap();
    let mut core = Core::new(store, TwoItemFetcher {});

    core.sync_all().unwrap();

    let posts = core.list_entries(&f1.id).unwrap();
    assert_eq!(posts.len(), 2);
    // newest publish time first
    assert_eq!(posts[0].guid, "g2");
    assert_eq!(posts[1].guid, "g1");
    assert_eq!(posts[0].publish_time, Some(1763648354));
    assert_eq!(posts[1].publish_time, Some(1752235200));

    let synced = core.get_feed(&f1.id).unwrap();
    assert!(synced.last_synced_at.is_some());

    // the identical remote content a second time: still exactly 2 posts
    core.sync_all().unwrap();
    assert_eq!(core.list_entries(&f1.id).unwrap().len(), 2);
}

#[test]
fn sync_all_with_dead_remote_fails_but_keeps_feeds() {
    let mut store = Store::new_in_memory();
    store
        .add_feed_with_id("https://a.example/rss".to_string(), "F1".to_string())
        .unwrap();
    let mut core = Core::new(store, FailingFetcher {});
    let result = core.sync_all();
    assert!(matches!(result, Err(Error::NotFound)));
    assert_eq!(core.list_feeds().unwrap().len(), 1);
}

#[test]
fn sync_all_on_empty_store_is_a_no_op() {
    let mut core = Core::new(Store::new_in_memory(), FailingFetcher {});
    assert!(core.sync_all().is_ok());
}
