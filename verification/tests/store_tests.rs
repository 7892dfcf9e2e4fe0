use seycore::store::Store;
use seycore::{Error, RemoteEntry, RemoteFeed, Storage};

fn remote_feed() -> RemoteFeed {
    RemoteFeed {
        url: "https://example.com/rss".to_string(),
        title: "Example Blog".to_string(),
        description: "A blog about things".to_string(),
    }
}

fn entry(guid: &str, publish: Option<u64>) -> RemoteEntry {
    RemoteEntry {
        title: format!("title of {guid}"),
        description: format!("description of {guid}"),
        guid: guid.to_string(),
        link: format!("https://example.com/{guid}"),
        publish_time_unix_secs: publish,
    }
}

#[test]
fn list_feeds_returns_empty_list() {
    let store = Store::new_in_memory();
    let feeds = store.list_feeds().unwrap();
    assert!(feeds.is_empty());
}

#[test]
fn get_feed_returns_not_found() {
    let store = Store::new_in_memory();
    let result = store.get_feed("nonexistent-id");
    assert!(matches!(result, Err(Error::NotFound)));
}

#[test]
fn get_feed_returns_inserted_feed() {
    let mut store = Store::new_in_memory();
    let added = store.add_feed("https://example.com/rss".to_string()).unwrap();
    let fetched = store.get_feed(&added.id).unwrap();
    assert_eq!(fetched.id, added.id);
    assert_eq!(fetched.url, "https://example.com/rss");
}

#[test]
fn list_entries_returns_empty_for_unknown_feed() {
    let store = Store::new_in_memory();
    let entries = store.list_entries("nonexistent-feed-id").unwrap();
    assert!(entries.is_empty());
}

#[test]
fn list_entries_returns_inserted_entries() {
    let mut store = Store::new_in_memory();
    let feed = store.add_feed("https://example.com/rss".to_string()).unwrap();
    let batch = vec![
        RemoteEntry {
            title: "First Post".to_string(),
            description: "Description 1".to_string(),
            guid: "guid-1".to_string(),
            link: "https://example.com/1".to_string(),
            publish_time_unix_secs: Some(1767312000),
        },
        RemoteEntry {
            title: "Second Post".to_string(),
            description: "Description 2".to_string(),
            guid: "guid-2".to_string(),
            link: "https://example.com/2".to_string(),
            publish_time_unix_secs: Some(1767398400),
        },
    ];
    store.update_feed(&feed.id, &remote_feed(), &batch).unwrap();

    let entries = store.list_entries(&feed.id).unwrap();
    assert_eq!(entries.len(), 2);
    // Ordered by publish time descending
    assert_eq!(entries[0].title, "Second Post");
    assert_eq!(entries[1].title, "First Post");
}

#[test]
fn new_feed_row_has_no_metadata() {
    let mut store = Store::new_in_memory();
    store.set_time(42);
    let feed = store.add_feed("https://example.com/rss".to_string()).unwrap();
    assert!(feed.title.is_none());
    assert!(feed.description.is_none());
    assert!(feed.last_synced_at.is_none());
    assert_eq!(feed.created_at, 42);
    assert_eq!(feed.updated_at, 42);
}

#[test]
fn duplicate_url_is_rejected_by_store() {
    let mut store = Store::new_in_memory();
    store.add_feed("https://example.com/rss".to_string()).unwrap();
    let second = store.add_feed("https://example.com/rss".to_string());
    assert!(matches!(second, Err(Error::Internal(_))));
    assert_eq!(store.list_feeds().unwrap().len(), 1);
}

#[test]
fn duplicate_id_is_rejected_by_store() {
    let mut store = Store::new_in_memory();
    store
        .add_feed_with_id("https://a.example/rss".to_string(), "feed-1".to_string())
        .unwrap();
    let second =
        store.add_feed_with_id("https://b.example/rss".to_string(), "feed-1".to_string());
    assert!(matches!(second, Err(Error::Internal(_))));
    assert_eq!(store.list_feeds().unwrap().len(), 1);
}

#[test]
fn merge_updates_feed_metadata() {
    let mut store = Store::new_in_memory();
    store.set_time(10);
    let feed = store.add_feed("https://example.com/rss".to_string()).unwrap();
    store.set_time(20);
    store.update_feed(&feed.id, &remote_feed(), &[]).unwrap();
    let after = store.get_feed(&feed.id).unwrap();
    assert_eq!(after.title.as_deref(), Some("Example Blog"));
    assert_eq!(after.description.as_deref(), Some("A blog about things"));
    assert_eq!(after.last_synced_at, Some(20));
    assert_eq!(after.created_at, 10);
    assert_eq!(after.updated_at, 20);
}

#[test]
fn merge_is_idempotent_per_guid() {
    let mut store = Store::new_in_memory();
    let feed = store.add_feed("https://example.com/rss".to_string()).unwrap();
    let batch = vec![entry("g1", Some(100)), entry("g2", Some(200))];
    store.update_feed(&feed.id, &remote_feed(), &batch).unwrap();
    assert_eq!(store.list_entries(&feed.id).unwrap().len(), 2);
    store.update_feed(&feed.id, &remote_feed(), &batch).unwrap();
    assert_eq!(store.list_entries(&feed.id).unwrap().len(), 2);
}

#[test]
fn guid_is_unique_across_feeds() {
    let mut store = Store::new_in_memory();
    let first = store.add_feed("https://a.example/rss".to_string()).unwrap();
    let second = store.add_feed("https://b.example/rss".to_string()).unwrap();
    let batch = vec![entry("shared-guid", Some(100))];
    store.update_feed(&first.id, &remote_feed(), &batch).unwrap();
    store.update_feed(&second.id, &remote_feed(), &batch).unwrap();
    // the second insert of the shared guid is dropped, not overwritten
    let first_posts = store.list_entries(&first.id).unwrap();
    let second_posts = store.list_entries(&second.id).unwrap();
    assert_eq!(first_posts.len(), 1);
    assert_eq!(second_posts.len(), 0);
    assert_eq!(first_posts[0].feed_id, first.id);
}

#[test]
fn entries_are_ordered_by_publish_then_created() {
    let mut store = Store::new_in_memory();
    store.set_time(100);
    let feed = store.add_feed("https://example.com/rss".to_string()).unwrap();
    store
        .update_feed(
            &feed.id,
            &remote_feed(),
            &[entry("g1", Some(50)), entry("g2", Some(90)), entry("g3", None)],
        )
        .unwrap();
    store.set_time(200);
    store
        .update_feed(&feed.id, &remote_feed(), &[entry("g4", Some(50)), entry("g5", None)])
        .unwrap();

    let posts = store.list_entries(&feed.id).unwrap();
    let guids: Vec<&str> = posts.iter().map(|p| p.guid.as_str()).collect();
    // publish time descending; the tie at 50 and the tie among absent
    // publish times break by created_at descending; absent sorts last
    assert_eq!(guids, vec!["g2", "g4", "g1", "g5", "g3"]);
}

#[test]
fn merge_with_empty_batch_inserts_nothing() {
    let mut store = Store::new_in_memory();
    let feed = store.add_feed("https://example.com/rss".to_string()).unwrap();
    store.update_feed(&feed.id, &remote_feed(), &[]).unwrap();
    assert!(store.list_entries(&feed.id).unwrap().is_empty());
}

#[test]
fn merge_for_unknown_feed_touches_no_feed_row() {
    let mut store = Store::new_in_memory();
    let feed = store.add_feed("https://example.com/rss".to_string()).unwrap();
    store.update_feed("no-such-feed", &remote_feed(), &[]).unwrap();
    let unchanged = store.get_feed(&feed.id).unwrap();
    assert!(unchanged.title.is_none());
    assert!(unchanged.last_synced_at.is_none());
}

#[test]
fn merge_with_ids_drops_duplicate_ids_in_batch() {
    let mut store = Store::new_in_memory();
    let feed = store
        .add_feed_with_id("https://example.com/rss".to_string(), "feed-1".to_string())
        .unwrap();
    let batch = vec![entry("g1", Some(1)), entry("g2", Some(2))];
    let ids = vec!["post-1".to_string(), "post-1".to_string()];
    store.merge_with_ids(&feed.id, &remote_feed(), &batch, &ids);
    // the second item would reuse the first item's id and is dropped
    assert_eq!(store.list_entries(&feed.id).unwrap().len(), 1);
}

#[test]
fn first_write_wins_for_post_content() {
    let mut store = Store::new_in_memory();
    let feed = store.add_feed("https://example.com/rss".to_string()).unwrap();
    store.update_feed(&feed.id, &remote_feed(), &[entry("g1", Some(5))]).unwrap();
    let changed = RemoteEntry {
        title: "changed title".to_string(),
        ..entry("g1", Some(5))
    };
    store.update_feed(&feed.id, &remote_feed(), &[changed]).unwrap();
    let posts = store.list_entries(&feed.id).unwrap();
    assert_eq!(posts.len(), 1);
    assert_eq!(posts[0].title, "title of g1");
}
