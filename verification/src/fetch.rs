//! Fetching a feed with conditional GET, following redirects by hand so that
//! permanent moves are noticed. The requests themselves are made by the
//! caller; this module decides what each answer means.

use vstd::prelude::*;

use crate::models::Error;
use crate::text::{decimal, push_decimal, push_str};
use crate::web::{join_url, joined_url};

verus! {

/// How many redirects are followed before giving up.
pub const MAX_REDIRECTS: usize = 5;

/// The most bytes of a body that are read.
pub const MAX_BODY_BYTES: u64 = 10485760;

/// A fetched feed body and its validators.
#[derive(Debug)]
pub struct FetchedFeed {
    pub body: Vec<u8>,
    pub etag: Option<String>,
    pub last_modified: Option<String>,
    /// Set when the feed moved through permanent (301/308) redirects only;
    /// the subscription URL should be updated to this.
    pub permanent_url: Option<String>,
}

/// What fetching a feed gave.
#[derive(Debug)]
pub enum FetchOutcome {
    /// Server answered 304: cached content is still current.
    NotModified,
    Fetched(FetchedFeed),
}

/// Where a fetch stands between requests.
pub struct Redirects {
    /// The URL the fetch started from.
    pub origin: String,
    /// The URL to request next.
    pub current: String,
    /// Whether every redirect so far was permanent (301 or 308).
    pub all_permanent: bool,
    /// How many redirects have been followed.
    pub followed: usize,
    /// The statuses of the redirects followed so far.
    pub statuses: Ghost<Seq<u16>>,
}

/// What to do with an answer.
#[derive(Debug)]
pub enum Answer {
    /// 2xx: read the body (at most [`MAX_BODY_BYTES`]) and finish with it.
    ReadBody { permanent_url: Option<String> },
    /// 304: the cached copy is current.
    NotModified,
    /// A redirect: request [`Redirects::current`] next.
    Follow,
    /// The fetch failed.
    Fail(Error),
}

/// A redirect status.
pub open spec fn is_redirect(status: u16) -> bool {
    status == 301 || status == 302 || status == 303 || status == 307 || status == 308
}

/// A permanent redirect status.
pub open spec fn is_permanent(status: u16) -> bool {
    status == 301 || status == 308
}

/// `e` is the HTTP error with text `m`.
pub open spec fn is_http_error(e: Error, m: Seq<char>) -> bool {
    e matches Error::Http(s) && s@ == m
}

impl Redirects {
    /// The bookkeeping agrees with the redirects followed: their count, and
    /// whether all of them were permanent.
    pub open spec fn inv(self) -> bool {
        &&& self.followed == self.statuses@.len()
        &&& self.all_permanent == (forall|i: int| 0 <= i < self.statuses@.len() ==> is_permanent(#[trigger] self.statuses@[i]))
        &&& self.followed == 0 ==> self.current@ == self.origin@
    }

    /// The state before the first request.
    pub fn new(url: &str) -> (r: Redirects)
        ensures
            r.origin@ == url@,
            r.current@ == url@,
            r.all_permanent,
            r.followed == 0,
            r.inv(),
    {
        Redirects {
            origin: String::from_str(url),
            current: String::from_str(url),
            all_permanent: true,
            followed: 0,
            statuses: Ghost(Seq::empty()),
        }
    }

    /// What an answer with `status` (and the `Location` header, if any)
    /// means, and the state for the next request.
    pub fn on_answer(&mut self, status: u16, location: Option<&str>) -> (a: Answer)
        requires
            old(self).followed <= MAX_REDIRECTS,
        ensures
            old(self).inv() ==> final(self).inv(),
            old(self).inv() && (a matches Answer::ReadBody { permanent_url } && permanent_url is Some) ==> {
                &&& old(self).statuses@.len() > 0
                &&& forall|i: int| 0 <= i < old(self).statuses@.len() ==> is_permanent(#[trigger] old(self).statuses@[i])
            },
            200 <= status <= 299 ==> (*final(self) == *old(self) && (a matches Answer::ReadBody { permanent_url }
                && match permanent_url {
                    Some(u) => old(self).all_permanent && old(self).current@ != old(self).origin@
                        && u@ == old(self).current@,
                    None => !(old(self).all_permanent && old(self).current@ != old(self).origin@),
                })),
            status == 304 ==> (*final(self) == *old(self) && a is NotModified),
            is_redirect(status) ==> match location {
                None => (a matches Answer::Fail(e) && is_http_error(e, decimal(status as nat) + " without Location"@)),
                Some(loc) => match joined_url(old(self).current@, loc@) {
                    Err(m) => (a matches Answer::Fail(e) && is_http_error(e, "bad redirect target: "@ + m)),
                    Ok(next) => {
                        &&& final(self).origin@ == old(self).origin@
                        &&& final(self).current@ == next
                        &&& final(self).all_permanent == (old(self).all_permanent && is_permanent(status))
                        &&& final(self).followed == old(self).followed + 1
                        &&& if final(self).followed > MAX_REDIRECTS {
                            (a matches Answer::Fail(e) && is_http_error(e, "too many redirects"@))
                        } else {
                            a is Follow
                        }
                    },
                },
            },
            !(200 <= status <= 299 || status == 304 || is_redirect(status)) ==> (a matches Answer::Fail(e)
                && is_http_error(e, "unexpected status "@ + decimal(status as nat))),
    {
        if 200 <= status && status <= 299 {
            let moved = self.all_permanent && !crate::text::same_text(self.current.as_str(), self.origin.as_str());
            let permanent_url = if moved { Some(self.current.clone()) } else { None };
            return Answer::ReadBody { permanent_url };
        }
        if status == 304 {
            return Answer::NotModified;
        }
        if status == 301 || status == 302 || status == 303 || status == 307 || status == 308 {
            let loc = match location {
                Some(l) => l,
                None => {
                    let mut m = String::new();
                    push_decimal(&mut m, status as u64);
                    push_str(&mut m, " without Location");
                    return Answer::Fail(Error::Http(m));
                },
            };
            match join_url(self.current.as_str(), loc) {
                Err(e) => {
                    let mut m = String::new();
                    push_str(&mut m, "bad redirect target: ");
                    push_str(&mut m, e.as_str());
                    return Answer::Fail(Error::Http(m));
                },
                Ok(next) => {
                    proof {
                        self.statuses@ = self.statuses@.push(status);
                    }
                    self.current = next;
                    self.all_permanent = self.all_permanent && (status == 301 || status == 308);
                    self.followed = self.followed + 1;
                    proof {
                        let before = old(self).statuses@;
                        let after = self.statuses@;
                        assert(after == before.push(status));
                        if old(self).inv() {
                            if self.all_permanent {
                                assert forall|i: int| 0 <= i < after.len() implies is_permanent(#[trigger] after[i]) by {
                                    if i < before.len() {
                                        assert(after[i] == before[i]);
                                    }
                                }
                            } else {
                                if !is_permanent(status) {
                                    assert(!is_permanent(after[after.len() - 1]));
                                } else {
                                    let k = choose|k: int| 0 <= k < before.len() && !is_permanent(#[trigger] before[k]);
                                    assert(after[k] == before[k]);
                                }
                            }
                        }
                    }
                    if self.followed > MAX_REDIRECTS {
                        return Answer::Fail(Error::Http(String::from_str("too many redirects")));
                    }
                    return Answer::Follow;
                },
            }
        }
        let mut m = String::new();
        push_str(&mut m, "unexpected status ");
        push_decimal(&mut m, status as u64);
        Answer::Fail(Error::Http(m))
    }
}

} // verus!
