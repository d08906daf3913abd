//! The texts of the desktop notifications: one per feed with new articles,
//! and the daily reading reminder.

use vstd::prelude::*;

use crate::text::{decimal, push_decimal, push_i64, push_str, signed_decimal};

verus! {

/// A minimal view of a freshly inserted article for the notification body.
#[derive(Debug, Clone)]
pub struct NotifyItem {
    pub id: i64,
    pub title: String,
}

/// How many article titles a feed notification lists.
pub const BODY_TITLES: usize = 4;

/// The summary line of a feed notification: the feed's title for one
/// article, else the title and the count.
pub open spec fn spec_feed_summary(feed_title: Seq<char>, count: nat) -> Seq<char> {
    if count == 1 {
        feed_title
    } else {
        feed_title + " — "@ + decimal(count) + " new articles"@
    }
}

/// The summary line of a feed notification (see [`spec_feed_summary`]).
pub fn feed_summary(feed_title: &str, count: usize) -> (s: String)
    ensures
        s@ == spec_feed_summary(feed_title@, count as nat),
{
    let mut s = String::new();
    push_str(&mut s, feed_title);
    if count != 1 {
        push_str(&mut s, " — ");
        push_decimal(&mut s, count as u64);
        push_str(&mut s, " new articles");
    }
    assert(s@ =~= spec_feed_summary(feed_title@, count as nat));
    s
}

/// The bullet lines for the first `n` items, joined by newlines.
pub open spec fn bullet_lines(items: Seq<NotifyItem>, n: nat) -> Seq<char>
    decreases n,
{
    if n == 0 || items.len() == 0 {
        Seq::empty()
    } else if n == 1 || items.len() == 1 {
        "• "@ + items[0].title@
    } else {
        bullet_lines(items, (n - 1) as nat) + "\n"@ + "• "@ + items[n - 1].title@
    }
}

/// The body of a feed notification: a bullet line for each of the first
/// [`BODY_TITLES`] items, joined by newlines.
pub open spec fn spec_feed_body(items: Seq<NotifyItem>) -> Seq<char> {
    bullet_lines(items, if items.len() < BODY_TITLES { items.len() } else { BODY_TITLES as nat })
}

/// The body of a feed notification (see [`spec_feed_body`]).
pub fn feed_body(items: &Vec<NotifyItem>) -> (s: String)
    ensures
        s@ == spec_feed_body(items@),
{
    let n: usize = if items.len() < BODY_TITLES { items.len() } else { BODY_TITLES };
    let mut s = String::new();
    let mut i: usize = 0;
    while i < n
        invariant
            n <= items@.len(),
            n <= BODY_TITLES,
            i <= n,
            s@ == bullet_lines(items@, i as nat),
        decreases n - i,
    {
        if i > 0 {
            push_str(&mut s, "\n");
        }
        push_str(&mut s, "• ");
        push_str(&mut s, items[i].title.as_str());
        proof {
            if i == 0 {
                assert(s@ =~= bullet_lines(items@, 1));
            } else {
                assert(s@ =~= bullet_lines(items@, (i + 1) as nat));
            }
        }
        i = i + 1;
    }
    s
}

/// The body of the daily reminder.
pub open spec fn spec_reminder_body(unread: i64) -> Seq<char> {
    if unread == 1 {
        "You have 1 unread article."@
    } else {
        "You have "@ + signed_decimal(unread as int) + " unread articles."@
    }
}

/// The body of the daily reminder (see [`spec_reminder_body`]).
pub fn reminder_body(unread: i64) -> (s: String)
    ensures
        s@ == spec_reminder_body(unread),
{
    let mut s = String::new();
    if unread == 1 {
        push_str(&mut s, "You have 1 unread article.");
    } else {
        push_str(&mut s, "You have ");
        push_i64(&mut s, unread);
        push_str(&mut s, " unread articles.");
    }
    assert(s@ =~= spec_reminder_body(unread));
    s
}

/// Whether the daily reminder is sent when it comes due: notifications and
/// the reminder are on, the viewer is not open, and something is unread.
pub open spec fn spec_should_remind(notifications_enabled: bool, reminder_enabled: bool, viewer_open: bool, unread: i64) -> bool {
    notifications_enabled && reminder_enabled && !viewer_open && unread > 0
}

/// Whether to send the daily reminder now (see [`spec_should_remind`]).
pub fn should_remind(notifications_enabled: bool, reminder_enabled: bool, viewer_open: bool, unread: i64) -> (b: bool)
    ensures
        b == spec_should_remind(notifications_enabled, reminder_enabled, viewer_open, unread),
{
    notifications_enabled && reminder_enabled && !viewer_open && unread > 0
}

/// Ids in descending order: newest (highest id) first.
pub open spec fn newest_first(items: Seq<NotifyItem>) -> bool {
    forall|i: int, j: int| 0 <= i < j < items.len() ==> items[i].id >= items[j].id
}

/// The items of `s` whose id is `id`, in order.
pub open spec fn with_id(s: Seq<NotifyItem>, id: i64) -> Seq<NotifyItem>
    decreases s.len(),
{
    if s.len() == 0 {
        Seq::empty()
    } else if s.last().id == id {
        with_id(s.drop_last(), id).push(s.last())
    } else {
        with_id(s.drop_last(), id)
    }
}

/// Picking the items of one id out of a concatenation picks them out of each
/// part.
proof fn lemma_with_id_add(a: Seq<NotifyItem>, b: Seq<NotifyItem>, id: i64)
    ensures
        with_id(a + b, id) == with_id(a, id) + with_id(b, id),
    decreases b.len(),
{
    if b.len() == 0 {
        assert(a + b =~= a);
        assert(with_id(a, id) + with_id(b, id) =~= with_id(a, id));
    } else {
        lemma_with_id_add(a, b.drop_last(), id);
        assert((a + b).drop_last() =~= a + b.drop_last());
        if b.last().id == id {
            assert(with_id(a + b, id) =~= (with_id(a, id) + with_id(b.drop_last(), id)).push(b.last()));
            assert(with_id(a, id) + with_id(b, id) =~= (with_id(a, id) + with_id(b.drop_last(), id)).push(b.last()));
        }
    }
}

/// A run of items whose ids all differ from `id` holds none of that id.
proof fn lemma_with_id_none(s: Seq<NotifyItem>, id: i64)
    requires
        forall|i: int| 0 <= i < s.len() ==> (#[trigger] s[i]).id != id,
    ensures
        with_id(s, id) == Seq::<NotifyItem>::empty(),
    decreases s.len(),
{
    if s.len() > 0 {
        lemma_with_id_none(s.drop_last(), id);
    }
}

/// Sorts the items newest (highest id) first; items of equal id keep their
/// order (a stable sort).
pub fn sort_newest_first(items: Vec<NotifyItem>) -> (out: Vec<NotifyItem>)
    ensures
        newest_first(out@),
        out@.to_multiset() == items@.to_multiset(),
        forall|id: i64| #[trigger] with_id(out@, id) == with_id(items@, id),
{
    broadcast use vstd::seq_lib::group_to_multiset_ensures, vstd::multiset::group_multiset_axioms;

    let mut out: Vec<NotifyItem> = Vec::new();
    let mut rest = items;
    let ghost items_at_start = rest@;
    let ghost mut m: int = 0;
    assert(out@.to_multiset().add(rest@.to_multiset()) =~= items_at_start.to_multiset());
    assert(rest@ =~= items_at_start.skip(0));
    while rest.len() > 0
        invariant
            newest_first(out@),
            out@.to_multiset().add(rest@.to_multiset()) == items_at_start.to_multiset(),
            0 <= m <= items_at_start.len(),
            rest@ == items_at_start.skip(m),
            forall|id: i64| #[trigger] with_id(out@, id) == with_id(items_at_start.take(m), id),
        decreases rest@.len(),
    {
        let ghost rest_before = rest@;
        let item = rest.remove(0);
        assert(rest@ == rest_before.remove(0));
        let ghost before = out@;
        let mut k: usize = 0;
        while k < out.len() && out[k].id >= item.id
            invariant
                out@ == before,
                k <= out@.len(),
                forall|m: int| 0 <= m < k ==> out@[m].id >= item.id,
            decreases out@.len() - k,
        {
            k = k + 1;
        }
        out.insert(k, item);
        proof {
            assert(out@ == before.insert(k as int, item));
            assert forall|i: int, j: int| 0 <= i < j < out@.len() implies out@[i].id >= out@[j].id by {
                if j < k {
                    assert(out@[i] == before[i] && out@[j] == before[j]);
                } else if j == k {
                    assert(out@[i] == before[i]);
                } else if i < k {
                    assert(out@[i] == before[i] && out@[j] == before[j - 1]);
                    if k < before.len() {
                        assert(before[k as int].id < item.id);
                        assert(before[j - 1].id <= before[k as int].id);
                    }
                } else if i == k {
                    assert(out@[j] == before[j - 1]);
                    assert(before[k as int].id < item.id);
                    assert(before[j - 1].id <= before[k as int].id);
                } else {
                    assert(out@[i] == before[i - 1] && out@[j] == before[j - 1]);
                }
            }
            vstd::seq_lib::to_multiset_insert(before, k as int, item);
            vstd::seq_lib::to_multiset_remove(rest_before, 0);
            assert(rest_before[0] == item);
            assert(rest_before.contains(item)) by {
                assert(rest_before[0] == item);
            }
            vstd::seq_lib::to_multiset_contains(rest_before, item);
            assert(rest_before.to_multiset().count(item) > 0);
            assert(out@.to_multiset().add(rest@.to_multiset()) =~= before.to_multiset().add(rest_before.to_multiset()));

            assert(item == items_at_start[m]);
            let head = before.take(k as int);
            let tail = before.skip(k as int);
            assert(before =~= head + tail);
            assert(out@ =~= head + seq![item] + tail);
            assert forall|i: int| 0 <= i < tail.len() implies (#[trigger] tail[i]).id < item.id by {
                assert(tail[i] == before[k + i]);
                assert(before[k as int].id < item.id);
                if i > 0 {
                    assert(before[k + i].id <= before[k as int].id);
                }
            }
            assert(items_at_start.take(m + 1).drop_last() =~= items_at_start.take(m));
            assert(items_at_start.take(m + 1).last() == item);
            assert forall|id: i64| #[trigger] with_id(out@, id) == with_id(items_at_start.take(m + 1), id) by {
                lemma_with_id_add(head + seq![item], tail, id);
                lemma_with_id_add(head, seq![item], id);
                lemma_with_id_add(head, tail, id);
                let one = seq![item];
                assert(one.len() == 1 && one.last() == item);
                assert(one.drop_last() =~= Seq::<NotifyItem>::empty());
                assert(with_id(one.drop_last(), id) =~= Seq::<NotifyItem>::empty());
                if id == item.id {
                    lemma_with_id_none(tail, id);
                    assert(with_id(one, id) =~= one);
                    assert(with_id(out@, id) =~= with_id(before, id).push(item));
                } else {
                    assert(with_id(one, id) =~= Seq::<NotifyItem>::empty());
                    assert(with_id(out@, id) =~= with_id(before, id));
                }
            }
            m = m + 1;
            assert(rest@ =~= items_at_start.skip(m));
        }
    }
    assert(rest@.to_multiset() =~= vstd::multiset::Multiset::empty());
    assert(out@.to_multiset() =~= out@.to_multiset().add(rest@.to_multiset()));
    assert(items_at_start.take(m) =~= items_at_start);
    out
}

} // verus!
