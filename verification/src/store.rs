//! The rows a table shows of the objects it watches: those the filter
//! picks, in the table's order. Rows that compare equal keep the order in
//! which they were found.
use std::cmp::Ordering;

use vstd::prelude::*;

use crate::order::{flip, Compare};
use crate::table::Filter;
use crate::text::at;

verus! {

/// The rows that `filter` picks, in the order found; all of them without a
/// filter.
pub open spec fn keep<K: Filter>(s: Seq<K>, filter: Option<Seq<char>>) -> Seq<K>
    decreases s.len(),
{
    if s.len() == 0 {
        s
    } else {
        let rest = keep(s.drop_last(), filter);
        match filter {
            Some(f) => if s.last().picks(f) {
                rest.push(s.last())
            } else {
                rest
            },
            None => rest.push(s.last()),
        }
    }
}

/// `s` with `x` put after the last row that is not greater than it.
pub open spec fn insert_sorted<K: Compare>(s: Seq<K>, x: K) -> Seq<K>
    decreases s.len(),
{
    if s.len() == 0 {
        seq![x]
    } else if s.last().order(&x) == Ordering::Greater {
        insert_sorted(s.drop_last(), x).push(s.last())
    } else {
        s.push(x)
    }
}

/// The rows in order: each row, as found, put after the rows before it
/// that are not greater than it.
pub open spec fn in_order<K: Compare>(s: Seq<K>) -> Seq<K>
    decreases s.len(),
{
    if s.len() == 0 {
        s
    } else {
        insert_sorted(in_order(s.drop_last()), s.last())
    }
}

/// No row is greater than one after it.
pub open spec fn is_sorted<K: Compare>(s: Seq<K>) -> bool {
    forall|i: int, j: int| 0 <= i < j < s.len() ==> s[i].order(&s[j]) != Ordering::Greater
}

fn is_greater(o: Ordering) -> (b: bool)
    ensures
        b == (o == Ordering::Greater),
{
    match o {
        Ordering::Greater => true,
        _ => false,
    }
}

/// Puts `x` into `rows` where `insert_sorted` puts it.
fn insert_in_order<K: Compare>(rows: &mut Vec<K>, x: K)
    ensures
        final(rows)@ == insert_sorted(old(rows)@, x),
{
    let ghost s = rows@;
    let mut p: usize = rows.len();
    assert(s.take(at(p)) == s);
    assert(insert_sorted(s, x) == insert_sorted(s.take(at(p)), x) + s.skip(at(p)));
    while p > 0 && is_greater(rows[p - 1].cmp(&x))
        invariant
            p <= rows.len(),
            rows@ == s,
            insert_sorted(s, x) == insert_sorted(s.take(at(p)), x) + s.skip(at(p)),
        decreases p,
    {
        assert(s.take(at(p)).drop_last() == s.take(at(p) - 1));
        assert(s.take(at(p)).last() == s[at(p) - 1]);
        assert(s.skip(at(p) - 1) == seq![s[at(p) - 1]] + s.skip(at(p)));
        assert(insert_sorted(s.take(at(p)), x) == insert_sorted(s.take(at(p) - 1), x).push(s[at(p) - 1]));
        assert(insert_sorted(s.take(at(p) - 1), x).push(s[at(p) - 1]) + s.skip(at(p)) == insert_sorted(
            s.take(at(p) - 1),
            x,
        ) + s.skip(at(p) - 1));
        p = p - 1;
    }
    if p > 0 {
        assert(s.take(at(p)).last() == s[at(p) - 1]);
        assert(insert_sorted(s.take(at(p)), x) == s.take(at(p)).push(x));
    }
    rows.insert(p, x);
    assert(rows@ =~= s.take(at(p)).push(x) + s.skip(at(p)));
}

fn picked<K: Filter>(x: &K, filter: &Option<String>) -> (b: bool)
    ensures
        b == match *filter {
            Some(f) => x.picks(f@),
            None => true,
        },
{
    match filter {
        Some(f) => x.matches(f.as_str()),
        None => true,
    }
}

/// The text of a filter.
pub open spec fn filter_text(filter: Option<String>) -> Option<Seq<char>> {
    match filter {
        Some(f) => Some(f@),
        None => None,
    }
}

/// The rows of `items` that `filter` picks, in the table's order.
pub fn select<K: Filter + Compare>(items: Vec<K>, filter: Option<String>) -> (r: Vec<K>)
    ensures
        r@ == in_order(keep(items@, filter_text(filter))),
{
    let ghost all = items@;
    let ghost f = filter_text(filter);
    let mut items = items;
    let mut out: Vec<K> = Vec::new();
    let mut i: usize = 0;
    let n: usize = items.len();
    assert(all.take(0) =~= Seq::<K>::empty());
    while items.len() > 0
        invariant
            i + items.len() == n,
            n == all.len(),
            items@ == all.skip(at(i)),
            f == filter_text(filter),
            out@ == in_order(keep(all.take(at(i)), f)),
        decreases items.len(),
    {
        let x = items.remove(0);
        assert(x == all[at(i)]);
        assert(all.take(at(i) + 1).drop_last() == all.take(at(i)));
        assert(all.take(at(i) + 1).last() == x);
        assert(items@ =~= all.skip(at(i) + 1));
        if picked(&x, &filter) {
            assert(keep(all.take(at(i) + 1), f) == keep(all.take(at(i)), f).push(x));
            assert(keep(all.take(at(i)), f).push(x).drop_last() == keep(all.take(at(i)), f));
            assert(in_order(keep(all.take(at(i)), f).push(x)) == insert_sorted(
                in_order(keep(all.take(at(i)), f)),
                x,
            ));
            insert_in_order(&mut out, x);
        } else {
            assert(keep(all.take(at(i) + 1), f) == keep(all.take(at(i)), f));
        }
        i = i + 1;
    }
    assert(all.take(at(i)) == all);
    out
}

/// The row at `index` of the rows that `filter` picks, in the table's order.
pub fn select_at<K: Filter + Compare>(items: Vec<K>, index: usize, filter: Option<String>) -> (r: Option<K>)
    ensures
        ({
            let rows = in_order(keep(items@, filter_text(filter)));
            if index < rows.len() {
                r == Some(rows[at(index)])
            } else {
                r is None
            }
        }),
{
    let mut rows = select(items, filter);
    if index < rows.len() {
        Some(rows.remove(index))
    } else {
        None
    }
}

// ---------------------------------------------------------------------------
// Laws
// ---------------------------------------------------------------------------
proof fn lemma_insert_sorted_to_multiset<K: Compare>(s: Seq<K>, x: K)
    ensures
        insert_sorted(s, x).to_multiset() == s.to_multiset().insert(x),
    decreases s.len(),
{
    broadcast use vstd::seq_lib::group_to_multiset_ensures;

    if s.len() == 0 {
        assert(seq![x] =~= Seq::<K>::empty().push(x));
    } else if s.last().order(&x) == Ordering::Greater {
        lemma_insert_sorted_to_multiset(s.drop_last(), x);
        assert(s =~= s.drop_last().push(s.last()));
        assert(s.drop_last().to_multiset().insert(s.last()) == s.to_multiset());
        assert(s.drop_last().to_multiset().insert(x).insert(s.last()) =~= s.drop_last().to_multiset().insert(
            s.last(),
        ).insert(x));
    }
}

/// Sorting keeps every row: the rows in order are the rows found, each as
/// often as it was found.
pub proof fn law_order_keeps_rows<K: Compare>(s: Seq<K>)
    ensures
        in_order(s).to_multiset() == s.to_multiset(),
    decreases s.len(),
{
    broadcast use vstd::seq_lib::group_to_multiset_ensures;

    if s.len() > 0 {
        law_order_keeps_rows(s.drop_last());
        lemma_insert_sorted_to_multiset(in_order(s.drop_last()), s.last());
        assert(s =~= s.drop_last().push(s.last()));
    }
}

proof fn lemma_insert_sorted_sorted<K: Compare>(s: Seq<K>, x: K)
    requires
        is_sorted(s),
    ensures
        is_sorted(insert_sorted(s, x)),
        insert_sorted(s, x).len() == s.len() + 1,
        forall|k: int| 0 <= k < insert_sorted(s, x).len() ==> #[trigger] insert_sorted(s, x)[k] == x
            || s.contains(insert_sorted(s, x)[k]),
    decreases s.len(),
{
    if s.len() == 0 {
    } else if s.last().order(&x) == Ordering::Greater {
        let t = s.drop_last();
        assert(is_sorted(t));
        lemma_insert_sorted_sorted(t, x);
        let u = insert_sorted(t, x);
        let l = s.last();
        assert forall|k: int| 0 <= k < u.len() implies #[trigger] u[k].order(&l) != Ordering::Greater by {
            if u[k] == x {
                x.lemma_flip(&l);
            } else {
                assert(t.contains(u[k]));
                let m = choose|m: int| 0 <= m < t.len() && t[m] == u[k];
                assert(s[m] == t[m]);
                assert(s[m].order(&s[s.len() - 1]) != Ordering::Greater);
            }
        }
        assert forall|i: int, j: int| 0 <= i < j < u.push(l).len() implies u.push(l)[i].order(
            &u.push(l)[j],
        ) != Ordering::Greater by {
            if j == u.len() {
                assert(u.push(l)[i] == u[i]);
            } else {
                assert(u.push(l)[i] == u[i] && u.push(l)[j] == u[j]);
            }
        }
        assert forall|k: int| 0 <= k < u.push(l).len() implies #[trigger] u.push(l)[k] == x || s.contains(
            u.push(l)[k],
        ) by {
            if k == u.len() {
                assert(s[s.len() - 1] == l);
            } else {
                assert(u.push(l)[k] == u[k]);
                if u[k] != x {
                    assert(t.contains(u[k]));
                    let m = choose|m: int| 0 <= m < t.len() && t[m] == u[k];
                    assert(s[m] == t[m]);
                }
            }
        }
    } else {
        let l = s.last();
        assert forall|i: int, j: int| 0 <= i < j < s.push(x).len() implies s.push(x)[i].order(
            &s.push(x)[j],
        ) != Ordering::Greater by {
            if j == s.len() {
                if i < s.len() - 1 {
                    s[i].lemma_chain(&l, &x);
                }
            }
        }
        assert forall|k: int| 0 <= k < s.push(x).len() implies #[trigger] s.push(x)[k] == x || s.contains(
            s.push(x)[k],
        ) by {
            if k < s.len() {
                assert(s.push(x)[k] == s[k]);
            }
        }
    }
}

/// The rows in order are sorted: no row is greater than one after it.
pub proof fn law_order_sorted<K: Compare>(s: Seq<K>)
    ensures
        is_sorted(in_order(s)),
        in_order(s).len() == s.len(),
    decreases s.len(),
{
    if s.len() > 0 {
        law_order_sorted(s.drop_last());
        lemma_insert_sorted_sorted(in_order(s.drop_last()), s.last());
    }
}

/// Rows already in order stay as they are, rows that compare equal
/// included: ordering never moves a row past an equal one.
pub proof fn law_sorted_rows_stay<K: Compare>(s: Seq<K>)
    requires
        is_sorted(s),
    ensures
        in_order(s) == s,
    decreases s.len(),
{
    if s.len() > 0 {
        let t = s.drop_last();
        assert(is_sorted(t));
        law_sorted_rows_stay(t);
        if t.len() > 0 {
            assert(t.last() == s[s.len() - 2]);
            assert(s[s.len() - 2].order(&s[s.len() - 1]) != Ordering::Greater);
        }
        assert(t.push(s.last()) =~= s);
    }
}

/// A filter shows only rows it picks, and keeps their order.
pub proof fn law_filter_picks<K: Filter>(s: Seq<K>, f: Seq<char>)
    ensures
        forall|k: int| 0 <= k < keep(s, Some(f)).len() ==> (#[trigger] keep(s, Some(f))[k]).picks(f),
        keep(s, None) == s,
    decreases s.len(),
{
    if s.len() > 0 {
        law_filter_picks(s.drop_last(), f);
        assert(s.drop_last().push(s.last()) =~= s);
        let r = keep(s.drop_last(), Some(f));
        let l = s.last();
        if l.picks(f) {
            assert forall|k: int| 0 <= k < r.push(l).len() implies (#[trigger] r.push(l)[k]).picks(f) by {
                if k < r.len() {
                    assert(r.push(l)[k] == r[k]);
                }
            }
        }
    }
}

} // verus!
