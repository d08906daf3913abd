//! The stored shapes of feeds and items.

use vstd::prelude::*;

verus! {

/// A subscribed feed as stored.
#[derive(Debug, Clone)]
pub struct Feed {
    pub id: i64,
    pub url: String,
    pub title: String,
    pub site_url: Option<String>,
    pub description: Option<String>,
    pub etag: Option<String>,
    pub last_modified: Option<String>,
    pub last_polled_at: Option<i64>,
    pub last_status: Option<String>,
    pub added_at: i64,
    pub unread_count: u32,
}

/// A stored item.
#[derive(Debug, Clone)]
pub struct Item {
    pub id: i64,
    pub feed_id: i64,
    pub guid: String,
    pub title: String,
    pub link: Option<String>,
    pub author: Option<String>,
    pub published_at: Option<i64>,
    pub fetched_at: i64,
    pub content_html: Option<String>,
    pub is_read: bool,
}

/// Item without `content_html`, for cheap list views.
#[derive(Debug, Clone)]
pub struct ItemSummary {
    pub id: i64,
    pub feed_id: i64,
    pub title: String,
    pub link: Option<String>,
    pub author: Option<String>,
    pub published_at: Option<i64>,
    pub fetched_at: i64,
    pub is_read: bool,
}

/// A parsed feed item that has not been stored yet.
#[derive(Debug, Clone)]
pub struct NewItem {
    pub guid: String,
    pub title: String,
    pub link: Option<String>,
    pub author: Option<String>,
    pub published_at: Option<i64>,
    pub content_html: Option<String>,
}

/// The failures of the storage, fetch and parse layers, each with its message.
#[derive(Debug)]
pub enum Error {
    /// The database refused an operation.
    Db(String),
    /// The feed could not be fetched.
    Http(String),
    /// The document is not a feed.
    Parse(String),
    /// A file operation failed.
    Io(String),
}

/// The text shown for an [`Error`].
pub open spec fn error_text(e: Error) -> Seq<char> {
    match e {
        Error::Db(m) => "database error: "@ + m@,
        Error::Http(m) => "http error: "@ + m@,
        Error::Parse(m) => "feed parse error: "@ + m@,
        Error::Io(m) => "io error: "@ + m@,
    }
}

/// The same failure with the same message.
pub open spec fn same_error(a: Error, b: Error) -> bool {
    match (a, b) {
        (Error::Db(x), Error::Db(y)) => x@ == y@,
        (Error::Http(x), Error::Http(y)) => x@ == y@,
        (Error::Parse(x), Error::Parse(y)) => x@ == y@,
        (Error::Io(x), Error::Io(y)) => x@ == y@,
        _ => false,
    }
}

impl Clone for Error {
    fn clone(&self) -> (r: Error)
        ensures
            same_error(r, *self),
    {
        match self {
            Error::Db(m) => Error::Db(m.clone()),
            Error::Http(m) => Error::Http(m.clone()),
            Error::Parse(m) => Error::Parse(m.clone()),
            Error::Io(m) => Error::Io(m.clone()),
        }
    }
}

impl Error {
    /// The text shown for this error, e.g. `"feed parse error: ..."`.
    pub fn message(&self) -> (s: String)
        ensures
            s@ == error_text(*self),
    {
        let (prefix, m) = match self {
            Error::Db(m) => ("database error: ", m),
            Error::Http(m) => ("http error: ", m),
            Error::Parse(m) => ("feed parse error: ", m),
            Error::Io(m) => ("io error: ", m),
        };
        let mut s = String::new();
        crate::text::push_str(&mut s, prefix);
        crate::text::push_str(&mut s, m.as_str());
        assert(s@ =~= error_text(*self));
        s
    }
}

} // verus!
