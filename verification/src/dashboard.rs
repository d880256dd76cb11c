//! The dashboard: what is left of the monthly quotas, the usage per month,
//! and the quota checks on uploads and analyses; and the paging of the
//! audit log.

use vstd::prelude::*;
use crate::reply::{Reply, error_body, error_reply, refusal_is};
use crate::admin::{PageWindow, PaginationParams, page_of, limit_of, pages_for, total_pages};
use crate::text::{str_eq, chars_of, string_of};

verus! {

/// The requests that only members of the organisation in the path may make
/// (dashboard, usage, recent analyses, jobs, audit log, pipelines) are
/// refused 401 "Unauthorized" for others.
pub fn same_org_or_unauthorized(path_org: &str, user_org: &str) -> (r: Option<Reply>)
    ensures
        path_org@ == user_org@ ==> r is None,
        path_org@ != user_org@ ==> refusal_is(r, 401, "Unauthorized"@),
{
    if str_eq(path_org, user_org) {
        None
    } else {
        Some(error_reply(401, "Unauthorized"))
    }
}

/// What is left of a monthly quota: the quota less what was used (which
/// may go below zero).
pub fn remaining(quota: i32, used: i64) -> (r: i64)
    requires
        quota - used >= i64::MIN,
        quota - used <= i64::MAX,
    ensures
        r == quota - used,
{
    quota as i64 - used
}

/// Whether a monthly quota is used up: as many uses as the quota allows,
/// or more.
pub fn quota_exceeded(used: i64, quota: i32) -> (r: bool)
    ensures
        r == (used >= quota),
{
    used >= quota as i64
}

/// A request for a page of the audit log.
pub struct AuditQuery {
    pub page: Option<i64>,
    pub limit: Option<i64>,
}

impl AuditQuery {
    /// Whether the items before the asked page can be counted in an `i64`.
    pub open spec fn offset_fits(self) -> bool {
        (page_of(self.page) - 1) * limit_of(self.limit) <= i64::MAX
    }

    /// The page of the audit log shown: the number asked (at least 1) and
    /// the size asked (20 by default, between 1 and 100).
    pub fn window(&self) -> (r: PageWindow)
        requires
            self.offset_fits(),
        ensures
            r.page == page_of(self.page),
            r.limit == limit_of(self.limit),
            r.offset == (r.page - 1) * r.limit,
    {
        PaginationParams { page: self.page, limit: self.limit }.window()
    }
}

// ---------------------------------------------------------------------------
// Usage per month
// ---------------------------------------------------------------------------

/// Whether text `a` comes before text `b`, character by character (the
/// order of Rust strings, since UTF-8 keeps the order of code points).
pub open spec fn text_lt(a: Seq<char>, b: Seq<char>) -> bool
    decreases a.len(),
{
    if a.len() == 0 {
        b.len() > 0
    } else if b.len() == 0 {
        false
    } else if (a[0] as u32) < (b[0] as u32) {
        true
    } else if a[0] == b[0] {
        text_lt(a.drop_first(), b.drop_first())
    } else {
        false
    }
}

proof fn lemma_text_lt_irreflexive(a: Seq<char>)
    ensures
        !text_lt(a, a),
    decreases a.len(),
{
    if a.len() > 0 {
        lemma_text_lt_irreflexive(a.drop_first());
    }
}

proof fn lemma_text_lt_total(a: Seq<char>, b: Seq<char>)
    ensures
        a == b || text_lt(a, b) || text_lt(b, a),
    decreases a.len(),
{
    if a.len() == 0 {
        if b.len() == 0 {
            assert(a =~= b);
        }
    } else if b.len() == 0 {
        assert(text_lt(b, a));
    } else if a[0] == b[0] {
        lemma_text_lt_total(a.drop_first(), b.drop_first());
        if a.drop_first() == b.drop_first() {
            assert(a =~= seq![a[0]] + a.drop_first());
            assert(b =~= seq![b[0]] + b.drop_first());
            assert(a =~= b);
        }
    } else {
        vstd::utf8::char_u32_cast(a[0], a[0] as u32);
        vstd::utf8::char_u32_cast(b[0], b[0] as u32);
        assert((a[0] as u32) != (b[0] as u32));
        if (a[0] as u32) < (b[0] as u32) {
            assert(text_lt(a, b));
        } else {
            assert(text_lt(b, a));
        }
    }
}

proof fn lemma_text_lt_transitive(a: Seq<char>, b: Seq<char>, c: Seq<char>)
    requires
        text_lt(a, b),
        text_lt(b, c),
    ensures
        text_lt(a, c),
    decreases a.len(),
{
    if a.len() > 0 && b.len() > 0 && c.len() > 0 && a[0] == b[0] && b[0] == c[0] {
        lemma_text_lt_transitive(a.drop_first(), b.drop_first(), c.drop_first());
    }
}

/// One month's usage: the month ("YYYY-MM"), uploads and analyses.
pub struct UsageItem {
    pub month: String,
    pub uploads: i64,
    pub analyses: i64,
}

/// The usage per month after the upload counts, in order; a month counted
/// twice keeps its last count.
pub open spec fn uploads_map(u: Seq<(Seq<char>, i64)>) -> Map<Seq<char>, (i64, i64)>
    decreases u.len(),
{
    if u.len() == 0 {
        Map::empty()
    } else {
        let prev = uploads_map(u.drop_last());
        let m = u.last().0;
        prev.insert(m, (u.last().1, if prev.contains_key(m) { prev[m].1 } else { 0 }))
    }
}

/// The usage per month after also the analysis counts, in order.
pub open spec fn usage_map(u: Seq<(Seq<char>, i64)>, a: Seq<(Seq<char>, i64)>) -> Map<Seq<char>, (i64, i64)>
    decreases a.len(),
{
    if a.len() == 0 {
        uploads_map(u)
    } else {
        let prev = usage_map(u, a.drop_last());
        let m = a.last().0;
        prev.insert(m, (if prev.contains_key(m) { prev[m].0 } else { 0 }, a.last().1))
    }
}

/// The texts of (month, count) rows.
pub open spec fn rows_view(r: Seq<(String, i64)>) -> Seq<(Seq<char>, i64)> {
    r.map_values(|x: (String, i64)| (x.0@, x.1))
}

/// Whether the items hold exactly the months of `m`, each once with its
/// counts, in ascending order of month.
pub open spec fn lists_in_order(items: Seq<UsageItem>, m: Map<Seq<char>, (i64, i64)>) -> bool {
    &&& forall|i: int, j: int| 0 <= i < j < items.len() ==> text_lt(#[trigger] items[i].month@, #[trigger] items[j].month@)
    &&& forall|i: int| 0 <= i < items.len() ==> {
        &&& m.contains_key(#[trigger] items[i].month@)
        &&& m[items[i].month@] == (items[i].uploads, items[i].analyses)
    }
    &&& forall|k: Seq<char>| #[trigger] m.contains_key(k) ==> exists|i: int| 0 <= i < items.len() && items[i].month@ == k
}

fn text_less(a: &[char], b: &[char]) -> (r: bool)
    ensures
        r == text_lt(a@, b@),
{
    let n = a.len();
    let k = b.len();
    let mut i: usize = 0;
    assert(a@.subrange(0, n as int) =~= a@);
    assert(b@.subrange(0, k as int) =~= b@);
    while i < n && i < k && a[i] == b[i]
        invariant
            n == a@.len(),
            k == b@.len(),
            i <= n,
            i <= k,
            text_lt(a@, b@) == text_lt(a@.subrange(i as int, n as int), b@.subrange(i as int, k as int)),
        decreases n - i,
    {
        let ghost sa = a@.subrange(i as int, n as int);
        let ghost sb = b@.subrange(i as int, k as int);
        assert(sa.drop_first() =~= a@.subrange(i + 1, n as int));
        assert(sb.drop_first() =~= b@.subrange(i + 1, k as int));
        i = i + 1;
    }
    let ghost sa = a@.subrange(i as int, n as int);
    let ghost sb = b@.subrange(i as int, k as int);
    if i == n {
        i < k
    } else if i == k {
        false
    } else {
        assert(sa[0] == a@[i as int] && sb[0] == b@[i as int]);
        (a[i] as u32) < (b[i] as u32)
    }
}

proof fn lemma_sorted_distinct(items: Seq<UsageItem>, i: int, j: int)
    requires
        forall|x: int, y: int| 0 <= x < y < items.len() ==> text_lt(#[trigger] items[x].month@, #[trigger] items[y].month@),
        0 <= i < items.len(),
        0 <= j < items.len(),
        i != j,
    ensures
        items[i].month@ != items[j].month@,
{
    if i < j {
        assert(text_lt(items[i].month@, items[j].month@));
        lemma_text_lt_irreflexive(items[i].month@);
    } else {
        assert(text_lt(items[j].month@, items[i].month@));
        lemma_text_lt_irreflexive(items[j].month@);
    }
}

/// Records one count of a month in the ordered items: `second` tells an
/// analysis count from an upload count.
fn record_count(items: &mut Vec<UsageItem>, month: &String, count: i64, second: bool, Ghost(m): Ghost<Map<Seq<char>, (i64, i64)>>)
    requires
        lists_in_order(old(items)@, m),
    ensures
        lists_in_order(
            final(items)@,
            m.insert(
                month@,
                if second {
                    (if m.contains_key(month@) { m[month@].0 } else { 0 }, count)
                } else {
                    (count, if m.contains_key(month@) { m[month@].1 } else { 0 })
                },
            ),
        ),
{
    let mc = chars_of(month.as_str());
    let n = items.len();
    let mut i: usize = 0;
    while i < n && text_less(&chars_of(items[i].month.as_str()), &mc)
        invariant
            n == items@.len(),
            i <= n,
            lists_in_order(items@, m),
            mc@ == month@,
            forall|j: int| 0 <= j < i ==> text_lt(#[trigger] items@[j].month@, month@),
        decreases n - i,
    {
        i = i + 1;
    }
    let ghost old_items = items@;
    let ghost new_m = m.insert(
        month@,
        if second {
            (if m.contains_key(month@) { m[month@].0 } else { 0 }, count)
        } else {
            (count, if m.contains_key(month@) { m[month@].1 } else { 0 })
        },
    );
    if i < n && str_eq(items[i].month.as_str(), month.as_str()) {
        assert(m.contains_key(month@));
        let old_item = &items[i];
        let item = if second {
            UsageItem { month: month.clone(), uploads: old_item.uploads, analyses: count }
        } else {
            UsageItem { month: month.clone(), uploads: count, analyses: old_item.analyses }
        };
        items.set(i, item);
        assert forall|x: int, y: int| 0 <= x < y < items@.len() implies text_lt(#[trigger] items@[x].month@, #[trigger] items@[y].month@) by {
            assert(items@[x].month@ == old_items[x].month@);
            assert(items@[y].month@ == old_items[y].month@);
        }
        assert forall|x: int| 0 <= x < items@.len() implies {
            &&& new_m.contains_key(#[trigger] items@[x].month@)
            &&& new_m[items@[x].month@] == (items@[x].uploads, items@[x].analyses)
        } by {
            if x != i {
                lemma_sorted_distinct(old_items, x, i as int);
            }
        }
        assert forall|k: Seq<char>| #[trigger] new_m.contains_key(k) implies exists|x: int| 0 <= x < items@.len() && items@[x].month@ == k by {
            if k != month@ {
                let x = choose|x: int| 0 <= x < old_items.len() && old_items[x].month@ == k;
                assert(items@[x].month@ == k);
            } else {
                assert(items@[i as int].month@ == k);
            }
        }
    } else {
        proof {
            if i < n {
                lemma_text_lt_total(old_items[i as int].month@, month@);
            }
            assert(!m.contains_key(month@)) by {
                if m.contains_key(month@) {
                    let x = choose|x: int| 0 <= x < old_items.len() && old_items[x].month@ == month@;
                    if x < i {
                        lemma_text_lt_irreflexive(month@);
                    } else if x > i {
                        assert(text_lt(old_items[i as int].month@, old_items[x].month@));
                        lemma_text_lt_transitive(month@, old_items[i as int].month@, old_items[x].month@);
                        lemma_text_lt_irreflexive(month@);
                    }
                }
            }
        }
        let item = if second {
            UsageItem { month: month.clone(), uploads: 0, analyses: count }
        } else {
            UsageItem { month: month.clone(), uploads: count, analyses: 0 }
        };
        items.insert(i, item);
        assert forall|x: int, y: int| 0 <= x < y < items@.len() implies text_lt(#[trigger] items@[x].month@, #[trigger] items@[y].month@) by {
            if y < i {
                assert(items@[x] == old_items[x] && items@[y] == old_items[y]);
            } else if y == i {
                assert(items@[x] == old_items[x]);
            } else if x == i {
                assert(items@[y] == old_items[y - 1]);
                if y - 1 > i {
                    assert(text_lt(old_items[i as int].month@, old_items[y - 1].month@));
                    lemma_text_lt_transitive(month@, old_items[i as int].month@, old_items[y - 1].month@);
                }
            } else if x < i {
                assert(items@[x] == old_items[x] && items@[y] == old_items[y - 1]);
                if y - 1 != x {
                    assert(text_lt(old_items[x].month@, old_items[y - 1].month@));
                } else {
                    assert(false);
                }
            } else {
                assert(items@[x] == old_items[x - 1] && items@[y] == old_items[y - 1]);
            }
        }
        assert forall|x: int| 0 <= x < items@.len() implies {
            &&& new_m.contains_key(#[trigger] items@[x].month@)
            &&& new_m[items@[x].month@] == (items@[x].uploads, items@[x].analyses)
        } by {
            if x < i {
                assert(items@[x] == old_items[x]);
                lemma_text_lt_irreflexive(month@);
            } else if x > i {
                assert(items@[x] == old_items[x - 1]);
                if old_items[x - 1].month@ == month@ {
                    assert(m.contains_key(old_items[x - 1].month@));
                }
            }
        }
        assert forall|k: Seq<char>| #[trigger] new_m.contains_key(k) implies exists|x: int| 0 <= x < items@.len() && items@[x].month@ == k by {
            if k != month@ {
                let x = choose|x: int| 0 <= x < old_items.len() && old_items[x].month@ == k;
                if x < i {
                    assert(items@[x].month@ == k);
                } else {
                    assert(items@[x + 1].month@ == k);
                }
            } else {
                assert(items@[i as int].month@ == k);
            }
        }
    }
}

/// The usage per month: the upload and analysis counts per month merged,
/// a month missing from one side counting zero there, in ascending order
/// of month.
pub fn usage(uploads: &Vec<(String, i64)>, analyses: &Vec<(String, i64)>) -> (r: Vec<UsageItem>)
    ensures
        lists_in_order(r@, usage_map(rows_view(uploads@), rows_view(analyses@))),
{
    let mut items: Vec<UsageItem> = Vec::new();
    let n = uploads.len();
    for i in 0..n
        invariant
            n == uploads@.len(),
            lists_in_order(items@, uploads_map(rows_view(uploads@.take(i as int)))),
    {
        assert(rows_view(uploads@.take(i + 1)).drop_last() =~= rows_view(uploads@.take(i as int)));
        assert(rows_view(uploads@.take(i + 1)).last() == (uploads@[i as int].0@, uploads@[i as int].1));
        record_count(&mut items, &uploads[i].0, uploads[i].1, false, Ghost(uploads_map(rows_view(uploads@.take(i as int)))));
    }
    assert(uploads@.take(n as int) =~= uploads@);
    let k = analyses.len();
    for i in 0..k
        invariant
            k == analyses@.len(),
            lists_in_order(items@, usage_map(rows_view(uploads@), rows_view(analyses@.take(i as int)))),
    {
        assert(rows_view(analyses@.take(i + 1)).drop_last() =~= rows_view(analyses@.take(i as int)));
        assert(rows_view(analyses@.take(i + 1)).last() == (analyses@[i as int].0@, analyses@[i as int].1));
        record_count(
            &mut items,
            &analyses[i].0,
            analyses[i].1,
            true,
            Ghost(usage_map(rows_view(uploads@), rows_view(analyses@.take(i as int)))),
        );
    }
    assert(analyses@.take(k as int) =~= analyses@);
    items
}

} // verus!
