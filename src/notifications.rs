//! Notifications for admins: records, their public form, filters, and the
//! newest-first paging of a listing.

use vstd::prelude::*;
use crate::documents::{entry, opt_bool, FieldValue, Fields, ValueView};
use crate::errors::{fails_with, ApiError, ErrorKind};
use crate::ids::{hex_text, DocumentId};
use vstd::multiset::Multiset;
use vstd::seq_lib::lemma_multiset_commutative;

verus! {

/// A stored notification. `created_at` is in milliseconds.
#[derive(Debug)]
pub struct Notification {
    pub id: Option<DocumentId>,
    pub user_id: DocumentId,
    pub notification_type: String,
    pub title: String,
    pub body: String,
    pub related_id: Option<DocumentId>,
    pub is_read: bool,
    pub created_at: i64,
}

/// Request to notify one recipient.
#[derive(Debug)]
pub struct CreateNotificationDto {
    pub user_id: DocumentId,
    pub notification_type: String,
    pub title: String,
    pub body: String,
    pub related_id: Option<DocumentId>,
}

/// Public form of a notification.
#[derive(Debug)]
pub struct NotificationResponse {
    pub id: String,
    pub user_id: String,
    pub notification_type: String,
    pub title: String,
    pub body: String,
    pub related_id: Option<String>,
    pub is_read: bool,
    pub created_at: i64,
}

/// A new, unread notification created at `now`.
pub fn new_notification(dto: CreateNotificationDto, now: i64) -> (r: Notification)
    ensures
        r.id is None,
        r.user_id@ == dto.user_id@,
        r.notification_type@ == dto.notification_type@,
        r.title@ == dto.title@,
        r.body@ == dto.body@,
        (match r.related_id {
            Some(i) => Some(i@),
            None => None,
        }) == (match dto.related_id {
            Some(i) => Some(i@),
            None => None,
        }),
        !r.is_read,
        r.created_at == now,
{
    Notification {
        id: None,
        user_id: dto.user_id,
        notification_type: dto.notification_type,
        title: dto.title,
        body: dto.body,
        related_id: dto.related_id,
        is_read: false,
        created_at: now,
    }
}

impl NotificationResponse {
    /// Public form of `n`; a notification not yet stored is shown under
    /// `fresh_id`.
    pub fn from_notification(n: Notification, fresh_id: &DocumentId) -> (r: NotificationResponse)
        ensures
            r.id@ == hex_text(
                match n.id {
                    Some(i) => i@,
                    None => fresh_id@,
                },
            ),
            r.user_id@ == hex_text(n.user_id@),
            r.notification_type@ == n.notification_type@,
            r.title@ == n.title@,
            r.body@ == n.body@,
            (match r.related_id {
                Some(s) => Some(s@),
                None => None,
            }) == (match n.related_id {
                Some(i) => Some(hex_text(i@)),
                None => None,
            }),
            r.is_read == n.is_read,
            r.created_at == n.created_at,
    {
        let id = match &n.id {
            Some(i) => i.to_hex(),
            None => fresh_id.to_hex(),
        };
        let related_id = match &n.related_id {
            Some(i) => Some(i.to_hex()),
            None => None,
        };
        NotificationResponse {
            id,
            user_id: n.user_id.to_hex(),
            notification_type: n.notification_type,
            title: n.title,
            body: n.body,
            related_id,
            is_read: n.is_read,
            created_at: n.created_at,
        }
    }
}

/// Filter of a notification listing: on the read flag, if given.
pub fn read_filter(is_read: Option<bool>) -> (r: Fields)
    ensures
        r@ == entry("is_read"@, opt_bool(is_read)),
{
    let mut f = Fields::new();
    f.set_opt_bool("is_read", is_read);
    assert(f@ =~= entry("is_read"@, opt_bool(is_read)));
    f
}

/// The `$set` that marks notifications read.
pub fn mark_read_update() -> (r: Fields)
    ensures
        r@ == seq![("is_read"@, ValueView::Bool(true))],
{
    let mut f = Fields::new();
    f.set("is_read", FieldValue::Bool(true));
    assert(f@ =~= seq![("is_read"@, ValueView::Bool(true))]);
    f
}

/// Outcome of an update or removal aimed at one notification, from the
/// number of notifications it touched.
pub fn single_outcome(touched: u64) -> (r: Result<(), ApiError>)
    ensures
        touched == 0 ==> fails_with(r, ErrorKind::NotFound, "Notification not found"@),
        touched > 0 ==> r is Ok,
{
    if touched == 0 {
        Err(ApiError::not_found("Notification not found"))
    } else {
        Ok(())
    }
}

/// `s` runs from newest to oldest.
pub open spec fn newest_first(s: Seq<NotificationResponse>) -> bool {
    forall|i: int, j: int| 0 <= i < j < s.len() ==> (#[trigger] s[i]).created_at >= (#[trigger] s[j]).created_at
}

/// Created at time `k`.
pub open spec fn time_is(k: i64) -> spec_fn(NotificationResponse) -> bool {
    |n: NotificationResponse| n.created_at == k
}

/// The notifications of `s` created at time `k`, in their order in `s`.
pub open spec fn at_time(s: Seq<NotificationResponse>, k: i64) -> Seq<NotificationResponse> {
    s.filter(time_is(k))
}

/// The notifications newest first; those created at the same time keep
/// their order.
pub fn sort_newest_first(items: Vec<NotificationResponse>) -> (r: Vec<NotificationResponse>)
    ensures
        newest_first(r@),
        r@.to_multiset() == items@.to_multiset(),
        forall|k: i64| #[trigger] at_time(r@, k) == at_time(items@, k),
{
    let ghost input = items@;
    let mut rest = items;
    let mut out: Vec<NotificationResponse> = Vec::new();
    broadcast use vstd::seq_lib::group_to_multiset_ensures, vstd::multiset::group_multiset_axioms;
    proof {
        assert(out@ =~= Seq::<NotificationResponse>::empty());
        assert(out@.to_multiset() =~= Multiset::empty());
        assert(out@.to_multiset().add(rest@.to_multiset()) =~= input.to_multiset());
    }
    proof {
        assert(rest@ =~= input.subrange(0, rest@.len() as int));
        assert forall|k: i64| #[trigger] at_time(out@, k) == at_time(input.subrange(rest@.len() as int, input.len() as int), k) by {
            assert(input.subrange(rest@.len() as int, input.len() as int) =~= Seq::<NotificationResponse>::empty());
            reveal(Seq::filter);
        }
    }
    while rest.len() > 0
        invariant
            newest_first(out@),
            out@.to_multiset().add(rest@.to_multiset()) == input.to_multiset(),
            rest@.len() <= input.len(),
            rest@ == input.subrange(0, rest@.len() as int),
            forall|k: i64| #[trigger] at_time(out@, k) == at_time(input.subrange(rest@.len() as int, input.len() as int), k),
        decreases rest@.len(),
    {
        let ghost before = rest@;
        let x = rest.pop().unwrap();
        let mut p: usize = 0;
        while p < out.len() && out[p].created_at > x.created_at
            invariant
                p <= out@.len(),
                forall|k: int| 0 <= k < p ==> (#[trigger] out@[k]).created_at > x.created_at,
            decreases out@.len() - p,
        {
            p = p + 1;
        }
        let ghost prev = out@;
        out.insert(p, x);
        proof {
            let a = prev.subrange(0, p as int);
            let b = prev.subrange(p as int, prev.len() as int);
            assert(out@ =~= a.push(x) + b);
            assert(prev =~= a + b);
            lemma_multiset_commutative(a, b);
            lemma_multiset_commutative(a.push(x), b);
            assert(before =~= rest@.push(x));
            vstd::seq_lib::to_multiset_build(a, x);
            vstd::seq_lib::to_multiset_build(rest@, x);
            assert(out@.to_multiset() == (a.push(x) + b).to_multiset());
            assert(prev.to_multiset() == (a + b).to_multiset());
            assert(out@.to_multiset() =~= prev.to_multiset().insert(x));
            assert(before.to_multiset() =~= rest@.to_multiset().insert(x));
            let m = before.len() as int;
            let old_suffix = input.subrange(m, input.len() as int);
            let new_suffix = input.subrange(m - 1, input.len() as int);
            assert(before == input.subrange(0, m));
            assert(before[m - 1] == x);
            assert(before[m - 1] == input[m - 1]);
            assert(new_suffix =~= seq![x] + old_suffix);
            assert(rest@ =~= input.subrange(0, rest@.len() as int));
            assert(out@ =~= a + (seq![x] + b));
            assert forall|k: i64| #[trigger] at_time(out@, k) == at_time(new_suffix, k) by {
                let pk = time_is(k);
                Seq::filter_distributes_over_add(a, seq![x] + b, pk);
                Seq::filter_distributes_over_add(a, b, pk);
                b.lemma_filter_prepend(x, pk);
                old_suffix.lemma_filter_prepend(x, pk);
                assert(at_time(prev, k) == at_time(old_suffix, k));
                if x.created_at == k {
                    assert forall|i: int| 0 <= i < a.len() implies !pk(#[trigger] a[i]) by {
                        assert(a[i] == prev[i]);
                    }
                    a.lemma_all_neg_filter_empty(pk);
                    assert(a.filter(pk) =~= Seq::<NotificationResponse>::empty());
                    assert(at_time(out@, k) =~= seq![x] + b.filter(pk));
                    assert(at_time(prev, k) =~= b.filter(pk));
                } else {
                    assert(at_time(out@, k) =~= a.filter(pk) + b.filter(pk));
                }
            }
            assert forall|i: int, j: int| 0 <= i < j < out@.len() implies (#[trigger] out@[i]).created_at
                >= (#[trigger] out@[j]).created_at by {
                if j < p {
                    assert(out@[i] == prev[i] && out@[j] == prev[j]);
                } else if j == p {
                    assert(out@[i] == prev[i]);
                } else if i < p {
                    assert(out@[i] == prev[i] && out@[j] == prev[j - 1]);
                } else if i == p {
                    assert(out@[j] == prev[j - 1]);
                    assert(!(prev[p as int].created_at > x.created_at));
                } else {
                    assert(out@[i] == prev[i - 1] && out@[j] == prev[j - 1]);
                }
            }
        }
    }
    assert(rest@ =~= Seq::<NotificationResponse>::empty());
    assert(input.subrange(0, input.len() as int) =~= input);
    assert(rest@.to_multiset() =~= Multiset::empty());
    assert(out@.to_multiset() =~= out@.to_multiset().add(rest@.to_multiset()));
    out
}

pub open spec fn clamp_to(i: int, lo: int, hi: int) -> int {
    if i < lo {
        lo
    } else if i > hi {
        hi
    } else {
        i
    }
}

/// The window of a listing that page `page` (at least 1) of `limit` items
/// shows.
pub open spec fn window(len: int, page: u64, limit: u64) -> (int, int) {
    let p = if page < 1 { 1 } else { page as int };
    let start = (p - 1) * limit;
    let end = start + limit;
    (if start < len { start } else { len }, if end < len { end } else { len })
}

/// One page of a listing: page `page` (default 1, at least 1) of `limit`
/// (default 20) items.
pub fn page_window(items: Vec<NotificationResponse>, page: Option<u64>, limit: Option<u64>) -> (r: Vec<NotificationResponse>)
    ensures
        ({
            let p = match page {
                Some(p) => p,
                None => 1,
            };
            let l = match limit {
                Some(l) => l,
                None => 20,
            };
            let w = window(items@.len() as int, p, l);
            r@ == items@.subrange(w.0, w.1)
        }),
{
    let ghost input = items@;
    let p: u64 = match page {
        Some(p) => if p < 1 {
            1
        } else {
            p
        },
        None => 1,
    };
    let l: u64 = match limit {
        Some(l) => l,
        None => 20,
    };
    let n = items.len();
    let len = n as u128;
    assert(p >= 1);
    let pm: u128 = (p - 1) as u128;
    assert(pm * (l as u128) <= 0xffff_ffff_ffff_ffff * 0xffff_ffff_ffff_ffff) by (nonlinear_arith)
        requires
            pm <= 0xffff_ffff_ffff_ffff,
            l <= 0xffff_ffff_ffff_ffff,
    ;
    let start0: u128 = pm * (l as u128);
    let end0: u128 = start0 + l as u128;
    let start = if start0 < len {
        start0 as usize
    } else {
        items.len()
    };
    let end = if end0 < len {
        end0 as usize
    } else {
        items.len()
    };
    let mut out: Vec<NotificationResponse> = Vec::new();
    let mut rest = items;
    let mut i: usize = 0;
    while rest.len() > 0
        invariant
            rest@ == input.subrange(i as int, input.len() as int),
            n == input.len(),
            i <= input.len(),
            start <= end <= input.len(),
            out@ == input.subrange(start as int, clamp_to(i as int, start as int, end as int)),
        decreases rest@.len(),
    {
        assert(i < input.len());
        let ghost prev = out@;
        let x = rest.remove(0);
        assert(x == input[i as int]);
        assert(rest@ =~= input.subrange(i + 1, input.len() as int));
        if start <= i && i < end {
            out.push(x);
        }
        i = i + 1;
        assert(out@ =~= input.subrange(start as int, clamp_to(i as int, start as int, end as int)));
    }
    assert(clamp_to(i as int, start as int, end as int) == end);
    let ghost w = window(input.len() as int, match page { Some(p) => p, None => 1 }, match limit { Some(l) => l, None => 20 });
    assert(w.0 == start && w.1 == end);
    out
}

} // verus!
