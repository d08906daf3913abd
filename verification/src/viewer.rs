//! The viewer's command line: where to navigate on start, as the daemon
//! passes it when it spawns the viewer.

use vstd::prelude::*;

use crate::ipc::OpenRequest;
use crate::text::{parse_i64, push_i64, same_text, signed_decimal, spec_parse_i64};

verus! {

/// Where the viewer opens.
#[derive(Debug, Clone, Copy, PartialEq, Eq, Structural)]
pub struct Target {
    pub feed: Option<i64>,
    pub article: Option<i64>,
    pub webkit: bool,
}

impl Default for Target {
    fn default() -> (t: Target)
        ensures
            t == (Target { feed: None, article: None, webkit: false }),
    {
        Target { feed: None, article: None, webkit: false }
    }
}

/// The number that the argument after position `i` holds, if any.
pub open spec fn number_after(args: Seq<Seq<char>>, i: int) -> Option<i64> {
    if i + 1 < args.len() { spec_parse_i64(args[i + 1]) } else { None }
}

/// Two positions on from `i`, but not past the end.
pub open spec fn skip_value(args: Seq<Seq<char>>, i: int) -> int {
    if i + 2 <= args.len() { i + 2 } else { args.len() as int }
}

/// The target after reading the arguments from position `i` on: `--feed`
/// and `--article` take the next argument as a number (or nothing, when it
/// is missing or is not one), `--webkit` sets the web view, anything else
/// is skipped.
pub open spec fn parse_from(args: Seq<Seq<char>>, i: int, t: Target) -> Target
    decreases args.len() - i,
{
    if i < 0 || i >= args.len() {
        t
    } else if args[i] == "--feed"@ {
        parse_from(args, skip_value(args, i), Target { feed: number_after(args, i), ..t })
    } else if args[i] == "--article"@ {
        parse_from(args, skip_value(args, i), Target { article: number_after(args, i), ..t })
    } else if args[i] == "--webkit"@ {
        parse_from(args, i + 1, Target { webkit: true, ..t })
    } else {
        parse_from(args, i + 1, t)
    }
}

/// The views of the arguments.
pub open spec fn args_view(args: Seq<String>) -> Seq<Seq<char>> {
    args.map_values(|a: String| a@)
}

/// Parse `--feed <id>` / `--article <id>` / `--webkit` from the arguments
/// (without the program name).
pub fn parse_target(args: &Vec<String>) -> (t: Target)
    ensures
        t == parse_from(args_view(args@), 0, Target { feed: None, article: None, webkit: false }),
{
    let ghost view = args_view(args@);
    let mut target = Target::default();
    let n = args.len();
    let mut i: usize = 0;
    while i < n
        invariant
            n == args@.len(),
            i <= n,
            view == args_view(args@),
            parse_from(view, 0, Target { feed: None, article: None, webkit: false }) == parse_from(view, i as int, target),
        decreases n - i,
    {
        let arg = args[i].as_str();
        assert(view[i as int] == arg@);
        proof {
            reveal_strlit("--feed");
            reveal_strlit("--article");
            reveal_strlit("--webkit");
        }
        if same_text(arg, "--feed") || same_text(arg, "--article") {
            let value = if i + 1 < n {
                assert(view[i + 1] == args@[i + 1]@);
                parse_i64(args[i + 1].as_str())
            } else {
                None
            };
            if same_text(arg, "--feed") {
                target.feed = value;
            } else {
                target.article = value;
            }
            i = if n - i >= 2 { i + 2 } else { n };
        } else {
            if same_text(arg, "--webkit") {
                target.webkit = true;
            }
            i = i + 1;
        }
    }
    target
}

/// The arguments that make a spawned viewer navigate for a request.
pub open spec fn spec_viewer_args(req: OpenRequest) -> Seq<Seq<char>> {
    match req {
        OpenRequest::Show => Seq::empty(),
        OpenRequest::At { feed_id, article_id } => {
            let feed = seq!["--feed"@, signed_decimal(feed_id as int)];
            match article_id {
                Some(a) => feed + seq!["--article"@, signed_decimal(a as int)],
                None => feed,
            }
        },
    }
}

/// The decimal text of a number.
fn number_text(n: i64) -> (s: String)
    ensures
        s@ == signed_decimal(n as int),
{
    let mut s = String::new();
    push_i64(&mut s, n);
    assert(s@ =~= signed_decimal(n as int));
    s
}

/// The arguments that make a spawned viewer navigate for a request.
pub fn viewer_args(req: &OpenRequest) -> (args: Vec<String>)
    ensures
        args_view(args@) == spec_viewer_args(*req),
{
    let mut args: Vec<String> = Vec::new();
    match req {
        OpenRequest::Show => {},
        OpenRequest::At { feed_id, article_id } => {
            args.push(String::from_str("--feed"));
            args.push(number_text(*feed_id));
            match article_id {
                Some(a) => {
                    args.push(String::from_str("--article"));
                    args.push(number_text(*a));
                },
                None => {},
            }
        },
    }
    assert(args_view(args@) =~= spec_viewer_args(*req));
    args
}

/// The arguments a spawned viewer gets take it where the request points:
/// reading them back gives the request's feed and article, and no web view.
pub proof fn lemma_viewer_args_roundtrip(req: OpenRequest)
    ensures
        parse_from(spec_viewer_args(req), 0, Target { feed: None, article: None, webkit: false }) == match req {
            OpenRequest::Show => Target { feed: None, article: None, webkit: false },
            OpenRequest::At { feed_id, article_id } => Target { feed: Some(feed_id), article: article_id, webkit: false },
        },
{
    reveal_strlit("--feed");
    reveal_strlit("--article");
    reveal_strlit("--webkit");
    reveal_with_fuel(parse_from, 4);
    assert("--article"@ != "--feed"@) by {
        assert("--article"@[2] != "--feed"@[2]);
    }
    match req {
        OpenRequest::Show => {},
        OpenRequest::At { feed_id, article_id } => {
            crate::text::lemma_parse_signed_decimal(feed_id);
            match article_id {
                Some(a) => crate::text::lemma_parse_signed_decimal(a),
                None => {},
            }
        },
    }
}

} // verus!
