//! The remote endpoint: the addresses of the listing and of each item,
//! formed from the configured base URL by the `url` crate.

use crate::item_id::{file_name_of, ItemId};
use crate::report::{Failure, FailureKind, FailureView};
use crate::text::{lemma_split_spelled_len, spelled_len, split, split_on};
use vstd::prelude::*;
use vstd::string::*;

verus! {

/// The number of entries that one listing request asks for.
pub const PAGE_SIZE: u32 = 500;

/// The longest URL, and the longest file name, in characters, that is
/// extended by path segments. Longer ones are refused.
pub const MAX_URL_CHARS: usize = 1_048_576;

/// Why a base URL cannot be used.
#[derive(Clone, Copy, Debug, PartialEq, Eq, Structural)]
pub enum ConfigError {
    /// The text is no URL, or a URL that cannot serve as a base.
    Unsupported,
    /// The URL has no path segment that names the feed.
    MissingFeed,
    /// The URL, or the URL above it, is longer than `MAX_URL_CHARS`.
    TooLong,
}

/// The URL `text` without one trailing slash of its path, as
/// `PathSegmentsMut::pop_if_empty` leaves it; `None` where `text` is no URL
/// or cannot be a base.
pub uninterp spec fn trimmed_url(text: Seq<char>) -> Option<Seq<char>>;

/// The path segments of the URL `text`, as `Url::path_segments` yields them;
/// `None` where `text` is no URL or cannot be a base.
pub uninterp spec fn segments_of_url(text: Seq<char>) -> Option<Seq<Seq<char>>>;

/// The URL `text` without the last segment of its path, as
/// `PathSegmentsMut::pop` leaves it; `None` where `text` is no URL or cannot
/// be a base.
pub uninterp spec fn parent_url(text: Seq<char>) -> Option<Seq<char>>;

/// The URL `text` with `segments` appended to its path, as
/// `PathSegmentsMut::extend` leaves it; `None` where `text` is no URL or
/// cannot be a base.
pub uninterp spec fn extended_url(text: Seq<char>, segments: Seq<Seq<char>>) -> Option<Seq<char>>;

/// Parses `text` with `url::Url::parse`, calls
/// `PathSegmentsMut::pop_if_empty` on its path and gives the URL's text.
/// Trusted: the result is a function of `text` alone, and the calls do not
/// panic on a text far below the 4 GiB that the crate can hold.
#[verifier::external_body]
fn url_trimmed(text: &str) -> (out: Option<String>)
    requires
        text@.len() <= MAX_URL_CHARS,
    ensures
        out.deep_view() == trimmed_url(text@),
{
    let mut url = url::Url::parse(text).ok()?;
    url.path_segments_mut().ok()?.pop_if_empty();
    Some(url.into())
}

/// Parses `text` with `url::Url::parse` and collects what
/// `Url::path_segments` yields. Trusted: the result is a function of `text`
/// alone.
#[verifier::external_body]
fn url_segments(text: &str) -> (out: Option<Vec<String>>)
    requires
        text@.len() <= MAX_URL_CHARS,
    ensures
        out.deep_view() == segments_of_url(text@),
{
    let url = url::Url::parse(text).ok()?;
    Some(url.path_segments()?.map(|segment| segment.to_owned()).collect())
}

/// Parses `text` with `url::Url::parse`, calls `PathSegmentsMut::pop` on its
/// path and gives the URL's text. Trusted: the result is a function of
/// `text` alone, and the calls do not panic on a text far below the 4 GiB
/// that the crate can hold.
#[verifier::external_body]
fn url_parent(text: &str) -> (out: Option<String>)
    requires
        text@.len() <= MAX_URL_CHARS,
    ensures
        out.deep_view() == parent_url(text@),
{
    let mut url = url::Url::parse(text).ok()?;
    url.path_segments_mut().ok()?.pop();
    Some(url.into())
}

/// Parses `text` with `url::Url::parse`, calls `PathSegmentsMut::extend`
/// with `segments` on its path and gives the URL's text. Trusted: the result
/// is a function of `text` and `segments` alone, and the call does not panic
/// while the URL stays far below the 4 GiB that the crate can hold.
#[verifier::external_body]
fn url_extended(text: &str, segments: &Vec<String>) -> (out: Option<String>)
    requires
        text@.len() <= MAX_URL_CHARS,
        spelled_len(segments.deep_view()) <= MAX_URL_CHARS + 1,
    ensures
        out.deep_view() == extended_url(text@, segments.deep_view()),
{
    let mut url = url::Url::parse(text).ok()?;
    url.path_segments_mut().ok()?.extend(segments);
    Some(url.into())
}

/// The path segments of the listing endpoint below the parent of the base
/// URL: `include`, `list.php`.
pub open spec fn listing_segments() -> Seq<Seq<char>> {
    seq![
        seq!['i', 'n', 'c', 'l', 'u', 'd', 'e'],
        seq!['l', 'i', 's', 't', '.', 'p', 'h', 'p'],
    ]
}

/// An [`Endpoint`] as a mathematical value.
pub struct EndpointView {
    /// The base URL without a trailing slash.
    pub base: Seq<char>,
    /// The name of the feed: the last path segment of the base URL.
    pub feed: Seq<char>,
    /// The URL of the listing endpoint.
    pub listing: Seq<char>,
}

/// The endpoint that a configured URL stands for, or the reason why it
/// stands for none.
pub open spec fn endpoint_of(url: Seq<char>) -> Result<EndpointView, ConfigError> {
    if url.len() > MAX_URL_CHARS {
        Err(ConfigError::TooLong)
    } else {
        match trimmed_url(url) {
            None => Err(ConfigError::Unsupported),
            Some(base) => if base.len() > MAX_URL_CHARS {
                Err(ConfigError::TooLong)
            } else {
                endpoint_from(base, segments_of_url(base), parent_url(base))
            },
        }
    }
}

/// The endpoint with the base URL `base`, given the path segments of `base`
/// and the URL one segment above it.
pub open spec fn endpoint_from(
    base: Seq<char>,
    segments: Option<Seq<Seq<char>>>,
    parent: Option<Seq<char>>,
) -> Result<EndpointView, ConfigError> {
    match (segments, parent) {
        (None, _) => Err(ConfigError::MissingFeed),
        (Some(segments), _) if segments.len() == 0 => Err(ConfigError::MissingFeed),
        (Some(_), None) => Err(ConfigError::Unsupported),
        (Some(_), Some(parent)) if parent.len() > MAX_URL_CHARS => Err(ConfigError::TooLong),
        (Some(segments), Some(parent)) => match extended_url(parent, listing_segments()) {
            None => Err(ConfigError::Unsupported),
            Some(listing) => Ok(EndpointView { base, feed: segments.last(), listing }),
        },
    }
}

/// The URL of the item `id` below `base`: the base URL extended by the
/// pieces of the item's file name between slashes. `None` where the name is
/// too long or `base` cannot be extended.
pub open spec fn item_url_of(base: Seq<char>, id: Seq<char>) -> Option<Seq<char>> {
    if file_name_of(id).len() > MAX_URL_CHARS {
        None
    } else {
        extended_url(base, split_on(file_name_of(id), '/'))
    }
}

/// One listing request: `GET url?wc=..&thumbs=..&img=..`.
#[derive(Debug, PartialEq, Eq)]
pub struct ListingRequest {
    /// The URL of the listing endpoint.
    pub url: String,
    /// Query parameter `wc`: the name of the feed.
    pub wc: String,
    /// Query parameter `thumbs`: the page size.
    pub thumbs: u32,
    /// Query parameter `img`: the cursor; items older than it are asked for.
    pub img: String,
}

/// One item to fetch: where it is found and under which name it is stored.
#[derive(Debug, PartialEq, Eq)]
pub struct DownloadTask {
    /// The item.
    pub id: ItemId,
    /// The file name, relative to the download directory. It may hold
    /// slashes, which name directories.
    pub file_name: String,
    /// The URL to fetch.
    pub url: String,
}

/// The remote endpoint of one feed.
#[derive(Debug, PartialEq, Eq)]
pub struct Endpoint {
    base: String,
    feed: String,
    listing: String,
}

impl View for Endpoint {
    type V = EndpointView;

    closed spec fn view(&self) -> EndpointView {
        EndpointView { base: self.base@, feed: self.feed@, listing: self.listing@ }
    }
}

impl Endpoint {
    /// The base URL is short enough to be extended.
    pub open spec fn wf(&self) -> bool {
        self@.base.len() <= MAX_URL_CHARS
    }

    /// The endpoint that the base URL `url` stands for.
    pub fn new(url: &str) -> (out: Result<Endpoint, ConfigError>)
        ensures
            match out {
                Ok(endpoint) => endpoint.wf() && endpoint_of(url@) == Ok::<
                    EndpointView,
                    ConfigError,
                >(endpoint@),
                Err(e) => endpoint_of(url@) == Err::<EndpointView, ConfigError>(e),
            },
    {
        if url.unicode_len() > MAX_URL_CHARS {
            return Err(ConfigError::TooLong);
        }
        match url_trimmed(url) {
            None => Err(ConfigError::Unsupported),
            Some(base) => {
                if base.as_str().unicode_len() > MAX_URL_CHARS {
                    Err(ConfigError::TooLong)
                } else {
                    let segments = url_segments(base.as_str());
                    let parent = url_parent(base.as_str());
                    Endpoint::assemble(base, segments, parent)
                }
            },
        }
    }

    /// The endpoint with the base URL `base`, given the path segments of
    /// `base` and the URL one segment above it.
    pub fn assemble(base: String, segments: Option<Vec<String>>, parent: Option<String>) -> (out:
        Result<Endpoint, ConfigError>)
        requires
            base@.len() <= MAX_URL_CHARS,
        ensures
            match out {
                Ok(endpoint) => endpoint.wf() && endpoint_from(
                    base@,
                    segments.deep_view(),
                    parent.deep_view(),
                ) == Ok::<EndpointView, ConfigError>(endpoint@),
                Err(e) => endpoint_from(base@, segments.deep_view(), parent.deep_view()) == Err::<
                    EndpointView,
                    ConfigError,
                >(e),
            },
    {
        let segments: Vec<String> = match segments {
            None => { return Err(ConfigError::MissingFeed); },
            Some(segments) => segments,
        };
        if segments.len() == 0 {
            return Err(ConfigError::MissingFeed);
        }
        let parent: String = match parent {
            None => { return Err(ConfigError::Unsupported); },
            Some(parent) => parent,
        };
        if parent.as_str().unicode_len() > MAX_URL_CHARS {
            return Err(ConfigError::TooLong);
        }
        let mut below: Vec<String> = Vec::new();
        below.push("include".to_owned());
        below.push("list.php".to_owned());
        proof {
            reveal_strlit("include");
            reveal_strlit("list.php");
            assert("include"@ =~= listing_segments()[0]);
            assert("list.php"@ =~= listing_segments()[1]);
            assert(below.deep_view() =~= listing_segments());
            let one = listing_segments().drop_last();
            assert(spelled_len(one.drop_last()) == 0);
            assert(spelled_len(one) == 8);
        }
        match url_extended(parent.as_str(), &below) {
            None => Err(ConfigError::Unsupported),
            Some(listing) => {
                let feed: String = segments[segments.len() - 1].clone();
                Ok(Endpoint { base, feed, listing })
            },
        }
    }

    /// The base URL, without a trailing slash.
    pub fn base(&self) -> (s: &str)
        ensures
            s@ == self@.base,
    {
        self.base.as_str()
    }

    /// The name of the feed.
    pub fn feed(&self) -> (s: &str)
        ensures
            s@ == self@.feed,
    {
        self.feed.as_str()
    }

    /// The URL of the listing endpoint.
    pub fn listing_url(&self) -> (s: &str)
        ensures
            s@ == self@.listing,
    {
        self.listing.as_str()
    }

    /// The request for the page of items older than `cursor`.
    pub fn listing_request(&self, cursor: &ItemId) -> (request: ListingRequest)
        ensures
            request.url@ == self@.listing,
            request.wc@ == self@.feed,
            request.thumbs == PAGE_SIZE,
            request.img@ == cursor@,
    {
        ListingRequest {
            url: self.listing.clone(),
            wc: self.feed.clone(),
            thumbs: PAGE_SIZE,
            img: cursor.as_str().to_owned(),
        }
    }

    /// The task of fetching `id`. An item has no task where its name is
    /// longer than `MAX_URL_CHARS` or the base URL cannot be extended by it:
    /// that is a failure of the item, of the kind `Url`.
    pub fn task(&self, id: &ItemId) -> (task: Result<DownloadTask, Failure>)
        requires
            self.wf(),
        ensures
            task is Ok <==> item_url_of(self@.base, id@) is Some,
            task matches Ok(t) ==> t.id@ == id@ && t.file_name@ == file_name_of(id@) && Some(t.url@)
                == item_url_of(self@.base, id@),
            task matches Err(failure) ==> failure@ == (FailureView {
                kind: FailureKind::Url,
                detail: file_name_of(id@),
            }),
    {
        let file_name: String = id.file_name();
        if file_name.as_str().unicode_len() > MAX_URL_CHARS {
            return Err(Failure { kind: FailureKind::Url, detail: file_name });
        }
        let segments: Vec<String> = split(file_name.as_str(), '/');
        proof {
            lemma_split_spelled_len(file_name@, '/');
        }
        match url_extended(self.base.as_str(), &segments) {
            None => Err(Failure { kind: FailureKind::Url, detail: file_name }),
            Some(url) => Ok(DownloadTask { id: id.clone(), file_name, url }),
        }
    }
}

} // verus!
