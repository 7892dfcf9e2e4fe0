//! The compute side of remote fetching.
//!
//! Retrieving a document is network work and stays outside the library;
//! what is verified here is everything the fetcher decides: the triage of
//! the HTTP status code, and the fixed field mapping from the parsed
//! document to [`RemoteFeed`] and [`RemoteEntry`] records — including the
//! rule that an item whose publish date does not parse is still returned,
//! with its timestamp absent.

use vstd::prelude::*;

use crate::{Error, RemoteEntry, RemoteFeed};

verus! {

/// What chrono's RFC 2822 parser yields on a date string, as an absolute
/// epoch-seconds value: the result is a function of the text alone.
pub uninterp spec fn rfc2822_epoch(s: Seq<char>) -> Option<u64>;

/// Relies on `chrono::DateTime::parse_from_rfc2822` and `timestamp`, both
/// functions of the text alone; the composite result is named
/// [`rfc2822_epoch`]. Text that does not parse as an RFC 2822 date, or
/// whose instant lies before the epoch, yields `None`.
#[verifier::external_body]
fn parse_rfc2822_epoch(s: &str) -> (r: Option<u64>)
    ensures
        r == rfc2822_epoch(s@),
{
    chrono::DateTime::parse_from_rfc2822(s)
        .ok()
        .and_then(|dt| u64::try_from(dt.timestamp()).ok())
}

/// One item of the remote document, as plain text fields; `pub_time` is
/// the raw date string.
pub struct Item {
    pub title: String,
    pub link: String,
    pub guid: String,
    pub description: String,
    pub pub_time: String,
}

/// Ghost record of an [`Item`].
pub ghost struct ItemView {
    pub title: Seq<char>,
    pub link: Seq<char>,
    pub guid: Seq<char>,
    pub description: Seq<char>,
    pub pub_time: Seq<char>,
}

impl View for Item {
    type V = ItemView;

    open spec fn view(&self) -> ItemView {
        ItemView {
            title: self.title@,
            link: self.link@,
            guid: self.guid@,
            description: self.description@,
            pub_time: self.pub_time@,
        }
    }
}

impl DeepView for Item {
    type V = ItemView;

    open spec fn deep_view(&self) -> ItemView {
        self.view()
    }
}

/// The feed-level fields and the items of the remote document.
pub struct Channel {
    pub title: String,
    pub description: String,
    pub link: String,
    pub items: Vec<Item>,
}

/// The record stored for one remote item: descriptive fields map 1:1 and
/// the date string becomes its parsed epoch value, absent when the text
/// does not parse.
pub open spec fn mapped_item(it: ItemView) -> crate::model::RemoteEntryView {
    crate::model::RemoteEntryView {
        title: it.title,
        description: it.description,
        guid: it.guid,
        link: it.link,
        publish_time_unix_secs: rfc2822_epoch(it.pub_time),
    }
}

/// The fetcher over the one supported document family.
pub struct FeedFetcher {}

impl FeedFetcher {
    /// Status triage: a client-error status refuses the feed as missing, a
    /// server-error status surfaces as a remote fault, and every other
    /// status proceeds to parsing.
    pub fn classify_status(status: u16) -> (r: Option<Error>)
        ensures
            400 <= status <= 499 ==> (r matches Some(e) && e is NotFound),
            500 <= status <= 599 ==> (r matches Some(e) && e matches Error::Internal(m) && m@
                == "error received from the remote server"@),
            !(400 <= status <= 599) ==> r is None,
    {
        if 400 <= status && status <= 499 {
            Some(Error::NotFound)
        } else if 500 <= status && status <= 599 {
            Some(Error::Internal("error received from the remote server".to_string()))
        } else {
            None
        }
    }

    /// The fixed field mapping from a parsed document: feed-level link,
    /// title and description map 1:1, and every item is returned — an
    /// unparseable per-item date never drops content, it only leaves that
    /// item's publish time absent.
    pub fn build_remote(channel: Channel) -> (r: (RemoteFeed, Vec<RemoteEntry>))
        ensures
            r.0@.url == channel.link@,
            r.0@.title == channel.title@,
            r.0@.description == channel.description@,
            r.1.deep_view().len() == channel.items@.len(),
            forall|i: int|
                0 <= i < channel.items@.len() ==> r.1.deep_view()[i] == mapped_item(
                    channel.items.deep_view()[i],
                ),
    {
        let Channel { title, description, link, items } = channel;
        let feed = RemoteFeed { url: link, title, description };
        let mut entries: Vec<RemoteEntry> = Vec::new();
        let ghost all = items.deep_view();
        let n = items.len();
        for i in 0..n
            invariant
                n == items@.len(),
                all == items.deep_view(),
                entries.deep_view().len() == i,
                forall|y: int| 0 <= y < i ==> entries.deep_view()[y] == mapped_item(all[y]),
        {
            let publish_time_unix_secs = parse_rfc2822_epoch(items[i].pub_time.as_str());
            let e = RemoteEntry {
                title: items[i].title.clone(),
                description: items[i].description.clone(),
                guid: items[i].guid.clone(),
                link: items[i].link.clone(),
                publish_time_unix_secs,
            };
            proof {
                assert(e@ == mapped_item(all[i as int]));
            }
            let ghost pre = entries.deep_view();
            entries.push(e);
            proof {
                assert(entries.deep_view() =~= pre.push(e@));
            }
        }
        (feed, entries)
    }
}

} // verus!
