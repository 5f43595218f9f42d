//! Ranking of `(name, count)` rows: the stable count-descending order several widgets
//! share, the count-then-name order that makes a ranking deterministic, top-N cuts and
//! the tally that turns a list of names into counted rows.

use vstd::prelude::*;
use vstd::multiset::*;

use crate::text::{chars_of, str_eq, views};

verus! {

broadcast use vstd::seq_lib::group_to_multiset_ensures;

/// A row as plain values.
pub open spec fn row_view(r: (String, u64)) -> (Seq<char>, u64) {
    (r.0@, r.1)
}

/// Rows as plain values.
pub open spec fn rows_view(v: Seq<(String, u64)>) -> Seq<(Seq<char>, u64)> {
    Seq::new(v.len(), |i: int| row_view(v[i]))
}

/// Lexicographic order of character sequences (a proper prefix comes first). On strings
/// this is the order `str`'s `Ord` gives, since UTF-8 preserves code point order.
pub open spec fn seq_lt(a: Seq<char>, b: Seq<char>) -> bool
    decreases a.len(),
{
    if a.len() == 0 {
        b.len() > 0
    } else if b.len() == 0 {
        false
    } else if a[0] != b[0] {
        a[0] < b[0]
    } else {
        seq_lt(a.drop_first(), b.drop_first())
    }
}

/// `a` is placed strictly before `b`: a larger count first and, when `by_name`, equal
/// counts by name.
pub open spec fn goes_before(by_name: bool, a: (Seq<char>, u64), b: (Seq<char>, u64)) -> bool {
    a.1 > b.1 || (by_name && a.1 == b.1 && seq_lt(a.0, b.0))
}

/// Inserts `x` before the first element it goes before (after every element it does
/// not), which keeps equal elements in arrival order.
pub open spec fn insert_row(s: Seq<(Seq<char>, u64)>, x: (Seq<char>, u64), by_name: bool) -> Seq<
    (Seq<char>, u64),
>
    decreases s.len(),
{
    if s.len() == 0 {
        seq![x]
    } else if goes_before(by_name, x, s[0]) {
        seq![x] + s
    } else {
        seq![s[0]] + insert_row(s.drop_first(), x, by_name)
    }
}

/// Stable insertion sort of the rows.
pub open spec fn sort_rows(s: Seq<(Seq<char>, u64)>, by_name: bool) -> Seq<(Seq<char>, u64)>
    decreases s.len(),
{
    if s.len() == 0 {
        s
    } else {
        insert_row(sort_rows(s.drop_last(), by_name), s.last(), by_name)
    }
}

/// No element goes before an earlier one.
pub open spec fn is_sorted(s: Seq<(Seq<char>, u64)>, by_name: bool) -> bool {
    forall|i: int, j: int| 0 <= i < j < s.len() ==> !goes_before(by_name, s[j], s[i])
}

proof fn lemma_seq_lt_irreflexive(a: Seq<char>)
    ensures
        !seq_lt(a, a),
    decreases a.len(),
{
    if a.len() > 0 {
        lemma_seq_lt_irreflexive(a.drop_first());
    }
}

proof fn lemma_seq_lt_transitive(a: Seq<char>, b: Seq<char>, c: Seq<char>)
    requires
        seq_lt(a, b),
        seq_lt(b, c),
    ensures
        seq_lt(a, c),
    decreases a.len(),
{
    if a.len() > 0 && b.len() > 0 && c.len() > 0 && a[0] == b[0] && b[0] == c[0] {
        lemma_seq_lt_transitive(a.drop_first(), b.drop_first(), c.drop_first());
    }
}

proof fn lemma_seq_lt_total(a: Seq<char>, b: Seq<char>)
    ensures
        seq_lt(a, b) || seq_lt(b, a) || a =~= b,
    decreases a.len(),
{
    if a.len() > 0 && b.len() > 0 && a[0] == b[0] {
        lemma_seq_lt_total(a.drop_first(), b.drop_first());
        if a.drop_first() =~= b.drop_first() {
            assert(a =~= seq![a[0]] + a.drop_first());
            assert(b =~= seq![b[0]] + b.drop_first());
        }
    }
}

proof fn lemma_goes_before_transitive(by_name: bool, a: (Seq<char>, u64), b: (Seq<char>, u64), c: (Seq<char>, u64))
    requires
        goes_before(by_name, a, b),
        goes_before(by_name, b, c),
    ensures
        goes_before(by_name, a, c),
{
    if by_name && a.1 == b.1 && b.1 == c.1 {
        lemma_seq_lt_transitive(a.0, b.0, c.0);
    }
}

proof fn lemma_goes_before_irreflexive(by_name: bool, a: (Seq<char>, u64))
    ensures
        !goes_before(by_name, a, a),
{
    lemma_seq_lt_irreflexive(a.0);
}

/// `insert_row` puts `x` at the first position whose element it goes before.
proof fn lemma_insert_row_at(s: Seq<(Seq<char>, u64)>, x: (Seq<char>, u64), by_name: bool, p: int)
    requires
        0 <= p <= s.len(),
        forall|k: int| 0 <= k < p ==> !goes_before(by_name, x, #[trigger] s[k]),
        p < s.len() ==> goes_before(by_name, x, s[p]),
    ensures
        insert_row(s, x, by_name) == s.insert(p, x),
    decreases p,
{
    if s.len() == 0 {
        assert(s.insert(p, x) =~= seq![x]);
    } else if p == 0 {
        assert(s.insert(0, x) =~= seq![x] + s);
    } else {
        assert(!goes_before(by_name, x, s[0]));
        let t = s.drop_first();
        assert forall|k: int| 0 <= k < p - 1 implies !goes_before(by_name, x, #[trigger] t[k]) by {
            assert(t[k] == s[k + 1]);
        }
        lemma_insert_row_at(t, x, by_name, p - 1);
        assert(s.insert(p, x) =~= seq![s[0]] + t.insert(p - 1, x));
    }
}

proof fn lemma_insert_row_multiset(s: Seq<(Seq<char>, u64)>, x: (Seq<char>, u64), by_name: bool)
    ensures
        insert_row(s, x, by_name).to_multiset() == s.to_multiset().insert(x),
    decreases s.len(),
{
    broadcast use vstd::multiset::group_multiset_axioms;
    if s.len() == 0 {
        assert(insert_row(s, x, by_name) =~= s.push(x));
    } else if goes_before(by_name, x, s[0]) {
        assert(insert_row(s, x, by_name) =~= s.insert(0, x));
    } else {
        let t = s.drop_first();
        lemma_insert_row_multiset(t, x, by_name);
        vstd::seq_lib::lemma_multiset_commutative(seq![s[0]], insert_row(t, x, by_name));
        vstd::seq_lib::lemma_multiset_commutative(seq![s[0]], t);
        assert(seq![s[0]] + t =~= s);
        assert(seq![s[0]].to_multiset() =~= Multiset::empty().insert(s[0])) by {
            assert(seq![s[0]] =~= Seq::<(Seq<char>, u64)>::empty().push(s[0]));
        }
        assert(insert_row(s, x, by_name).to_multiset() =~= s.to_multiset().insert(x));
    }
}

proof fn lemma_insert_row_sorted(s: Seq<(Seq<char>, u64)>, x: (Seq<char>, u64), by_name: bool)
    requires
        is_sorted(s, by_name),
    ensures
        is_sorted(insert_row(s, x, by_name), by_name),
        insert_row(s, x, by_name).len() == s.len() + 1,
        forall|k: int|
            0 <= k < insert_row(s, x, by_name).len() ==> (#[trigger] insert_row(s, x, by_name)[k]
                == x || s.contains(insert_row(s, x, by_name)[k])),
    decreases s.len(),
{
    let r = insert_row(s, x, by_name);
    if s.len() == 0 {
    } else if goes_before(by_name, x, s[0]) {
        assert forall|i: int, j: int| 0 <= i < j < r.len() implies !goes_before(
            by_name,
            r[j],
            r[i],
        ) by {
            if i == 0 {
                if goes_before(by_name, r[j], x) {
                    lemma_goes_before_transitive(by_name, r[j], x, s[0]);
                    if j - 1 > 0 {
                        assert(!goes_before(by_name, s[j - 1], s[0]));
                    } else {
                        lemma_goes_before_irreflexive(by_name, s[0]);
                    }
                }
            } else {
                assert(r[i] == s[i - 1] && r[j] == s[j - 1]);
            }
        }
        assert forall|k: int| 0 <= k < r.len() implies (#[trigger] r[k] == x || s.contains(r[k])) by {
            if k > 0 {
                assert(r[k] == s[k - 1]);
            }
        }
    } else {
        let t = s.drop_first();
        assert(is_sorted(t, by_name)) by {
            assert forall|i: int, j: int| 0 <= i < j < t.len() implies !goes_before(
                by_name,
                t[j],
                t[i],
            ) by {
                assert(t[i] == s[i + 1] && t[j] == s[j + 1]);
            }
        }
        lemma_insert_row_sorted(t, x, by_name);
        let u = insert_row(t, x, by_name);
        assert(r =~= seq![s[0]] + u);
        assert forall|i: int, j: int| 0 <= i < j < r.len() implies !goes_before(
            by_name,
            r[j],
            r[i],
        ) by {
            if i == 0 {
                assert(r[j] == u[j - 1]);
                if u[j - 1] != x {
                    assert(t.contains(u[j - 1]));
                    let k = choose|k: int| 0 <= k < t.len() && t[k] == u[j - 1];
                    assert(s[k + 1] == t[k]);
                }
            } else {
                assert(r[i] == u[i - 1] && r[j] == u[j - 1]);
            }
        }
        assert forall|k: int| 0 <= k < r.len() implies (#[trigger] r[k] == x || s.contains(r[k])) by {
            if k == 0 {
                assert(s[0] == r[0]);
            } else {
                assert(r[k] == u[k - 1]);
                if u[k - 1] != x {
                    let m = choose|m: int| 0 <= m < t.len() && t[m] == u[k - 1];
                    assert(s[m + 1] == t[m]);
                }
            }
        }
    }
}

/// Sorting keeps exactly the rows it was given.
pub proof fn lemma_sort_rows_permutes(s: Seq<(Seq<char>, u64)>, by_name: bool)
    ensures
        sort_rows(s, by_name).to_multiset() == s.to_multiset(),
    decreases s.len(),
{
    if s.len() > 0 {
        lemma_sort_rows_permutes(s.drop_last(), by_name);
        lemma_insert_row_multiset(sort_rows(s.drop_last(), by_name), s.last(), by_name);
        assert(s.drop_last().push(s.last()) =~= s);
    }
}

/// Sorted rows: no row is placed after one it goes before.
pub proof fn lemma_sort_rows_sorted(s: Seq<(Seq<char>, u64)>, by_name: bool)
    ensures
        is_sorted(sort_rows(s, by_name), by_name),
        sort_rows(s, by_name).len() == s.len(),
    decreases s.len(),
{
    if s.len() > 0 {
        lemma_sort_rows_sorted(s.drop_last(), by_name);
        lemma_insert_row_sorted(sort_rows(s.drop_last(), by_name), s.last(), by_name);
    }
}

/// Whether `a` comes before `b` in character order.
pub fn str_lt(a: &str, b: &str) -> (r: bool)
    ensures
        r == seq_lt(a@, b@),
{
    let x = chars_of(a);
    let y = chars_of(b);
    let mut i: usize = 0;
    assert(a@.skip(0) =~= a@);
    assert(b@.skip(0) =~= b@);
    while i < x.len() && i < y.len() && x[i] == y[i]
        invariant
            x@ == a@,
            y@ == b@,
            i <= x@.len(),
            i <= y@.len(),
            seq_lt(a@, b@) == seq_lt(a@.skip(i as int), b@.skip(i as int)),
        decreases x@.len() - i,
    {
        assert(a@.skip(i as int).drop_first() =~= a@.skip(i + 1));
        assert(b@.skip(i as int).drop_first() =~= b@.skip(i + 1));
        i += 1;
    }
    if i == x.len() {
        i < y.len()
    } else if i == y.len() {
        false
    } else {
        x[i] < y[i]
    }
}

fn before(by_name: bool, a: &(String, u64), b: &(String, u64)) -> (r: bool)
    ensures
        r == goes_before(by_name, row_view(*a), row_view(*b)),
{
    if a.1 > b.1 {
        true
    } else if by_name && a.1 == b.1 {
        str_lt(a.0.as_str(), b.0.as_str())
    } else {
        false
    }
}

fn insert_in_order(out: &mut Vec<(String, u64)>, x: (String, u64), by_name: bool)
    ensures
        rows_view(final(out)@) == insert_row(rows_view(old(out)@), row_view(x), by_name),
{
    let ghost s = rows_view(old(out)@);
    let mut p: usize = 0;
    while p < out.len() && !before(by_name, &x, &out[p])
        invariant
            out@ == old(out)@,
            s == rows_view(out@),
            p <= out@.len(),
            forall|k: int| 0 <= k < p ==> !goes_before(by_name, row_view(x), #[trigger] s[k]),
        decreases out@.len() - p,
    {
        p += 1;
    }
    proof {
        lemma_insert_row_at(s, row_view(x), by_name, p as int);
    }
    out.insert(p, x);
    assert(rows_view(out@) =~= s.insert(p as int, row_view(x)));
}

fn sorted_rows(rows: &Vec<(String, u64)>, by_name: bool) -> (out: Vec<(String, u64)>)
    ensures
        rows_view(out@) == sort_rows(rows_view(rows@), by_name),
{
    let mut out: Vec<(String, u64)> = Vec::new();
    let mut i: usize = 0;
    assert(rows_view(rows@).take(0) =~= Seq::<(Seq<char>, u64)>::empty());
    while i < rows.len()
        invariant
            i <= rows@.len(),
            rows_view(out@) == sort_rows(rows_view(rows@).take(i as int), by_name),
        decreases rows@.len() - i,
    {
        let x = (rows[i].0.clone(), rows[i].1);
        insert_in_order(&mut out, x, by_name);
        let ghost t = rows_view(rows@).take(i + 1);
        assert(t.drop_last() =~= rows_view(rows@).take(i as int));
        assert(t.last() == row_view(rows@[i as int]));
        i += 1;
    }
    assert(rows_view(rows@).take(rows@.len() as int) =~= rows_view(rows@));
    out
}

/// Rows by count, largest first; rows with equal counts keep their order.
pub fn sort_by_count_desc(rows: &Vec<(String, u64)>) -> (out: Vec<(String, u64)>)
    ensures
        rows_view(out@) == sort_rows(rows_view(rows@), false),
{
    sorted_rows(rows, false)
}

/// The first `top` rows by count (largest first), equal counts by name.
pub fn rank_top(rows: &Vec<(String, u64)>, top: usize) -> (out: Vec<(String, u64)>)
    ensures
        rows_view(out@) == sort_rows(rows_view(rows@), true).take(
            if top < rows@.len() { top as int } else { rows@.len() as int },
        ),
{
    let mut out = sorted_rows(rows, true);
    proof {
        lemma_sort_rows_sorted(rows_view(rows@), true);
    }
    out.truncate(top);
    assert(rows_view(out@) =~= sort_rows(rows_view(rows@), true).take(
        if top < rows@.len() { top as int } else { rows@.len() as int },
    ));
    out
}

/// How often `name` occurs in `names`.
pub open spec fn occurrences(names: Seq<Seq<char>>, name: Seq<char>) -> nat {
    names.to_multiset().count(name)
}

/// One row per distinct name, in order of first appearance, with its number of
/// occurrences; every row's name occurs.
pub open spec fn tally_ok(names: Seq<Seq<char>>, out: Seq<(Seq<char>, u64)>) -> bool {
    &&& forall|i: int, j: int| 0 <= i < j < out.len() ==> out[i].0 != out[j].0
    &&& forall|i: int| 0 <= i < out.len() ==> #[trigger] out[i].1 == occurrences(names, out[i].0)
    &&& forall|i: int| 0 <= i < out.len() ==> 0 < #[trigger] out[i].1
    &&& forall|k: int| 0 <= k < names.len() ==> has_row(out, #[trigger] names[k])
}

/// Some row carries `name`.
pub open spec fn has_row(out: Seq<(Seq<char>, u64)>, name: Seq<char>) -> bool {
    exists|i: int| 0 <= i < out.len() && #[trigger] out[i].0 == name
}

/// Counts each distinct name.
pub fn tally(names: &Vec<String>) -> (out: Vec<(String, u64)>)
    requires
        names@.len() <= u64::MAX,
    ensures
        tally_ok(views(names@), rows_view(out@)),
{
    broadcast use vstd::multiset::group_multiset_axioms;
    let mut out: Vec<(String, u64)> = Vec::new();
    let mut i: usize = 0;
    assert(views(names@).take(0) =~= Seq::<Seq<char>>::empty());
    while i < names.len()
        invariant
            i <= names@.len(),
            names@.len() <= u64::MAX,
            tally_ok(views(names@).take(i as int), rows_view(out@)),
            forall|j: int| 0 <= j < out@.len() ==> #[trigger] out@[j].1 <= i,
        decreases names@.len() - i,
    {
        let ghost pre = views(names@).take(i as int);
        let ghost post = views(names@).take(i + 1);
        assert(post =~= pre.push(names@[i as int]@));
        let ghost old_out = rows_view(out@);
        let mut k: usize = 0;
        while k < out.len() && !str_eq(out[k].0.as_str(), names[i].as_str())
            invariant
                i < names@.len(),
                rows_view(out@) == old_out,
                k <= out@.len(),
                forall|j: int| 0 <= j < k ==> out@[j].0@ != names@[i as int]@,
            decreases out@.len() - k,
        {
            k += 1;
        }
        if k < out.len() {
            let c = out[k].1;
            let name = out[k].0.clone();
            assert(old_out[k as int] == row_view(out@[k as int]));
            assert(old_out[k as int].1 == occurrences(pre, old_out[k as int].0));
            out.set(k, (name, c + 1));
            assert(post.to_multiset() =~= pre.to_multiset().insert(names@[i as int]@));
            assert forall|j: int| 0 <= j < out@.len() implies #[trigger] rows_view(out@)[j].1
                == occurrences(post, rows_view(out@)[j].0) by {
                assert(rows_view(out@)[j] == row_view(out@[j]));
                if j != k {
                    assert(rows_view(out@)[j] == old_out[j]);
                    assert(old_out[j].1 == occurrences(pre, old_out[j].0));
                    assert(old_out[j].0 != old_out[k as int].0);
                }
            }
            assert forall|m: int| 0 <= m < post.len() implies has_row(rows_view(out@), #[trigger] post[m]) by {
                if m < i {
                    assert(pre[m] == post[m]);
                    assert(has_row(old_out, pre[m]));
                    let j = choose|j: int| 0 <= j < old_out.len() && #[trigger] old_out[j].0 == pre[m];
                    assert(rows_view(out@)[j].0 == old_out[j].0);
                } else {
                    assert(rows_view(out@)[k as int].0 == post[m]);
                }
            }
            assert forall|a: int, b: int| 0 <= a < b < rows_view(out@).len() implies rows_view(out@)[a].0
                != rows_view(out@)[b].0 by {
                assert(rows_view(out@)[a].0 == old_out[a].0);
                assert(rows_view(out@)[b].0 == old_out[b].0);
            }
            assert forall|j: int| 0 <= j < rows_view(out@).len() implies 0 < #[trigger] rows_view(out@)[j].1 by {
                assert(rows_view(out@)[j] == row_view(out@[j]));
                if j != k {
                    assert(rows_view(out@)[j] == old_out[j]);
                }
            }
        } else {
            let name = names[i].clone();
            out.push((name, 1));
            assert(!pre.contains(names@[i as int]@)) by {
                if pre.contains(names@[i as int]@) {
                    let m = choose|m: int| 0 <= m < pre.len() && pre[m] == names@[i as int]@;
                    assert(has_row(old_out, pre[m]));
                    let j = choose|j: int| 0 <= j < old_out.len() && #[trigger] old_out[j].0 == pre[m];
                    assert(out@[j].0@ == old_out[j].0);
                }
            }
            assert(pre.to_multiset().count(names@[i as int]@) == 0);
            assert(post.to_multiset() =~= pre.to_multiset().insert(names@[i as int]@));
            assert forall|j: int| 0 <= j < out@.len() implies #[trigger] rows_view(out@)[j].1
                == occurrences(post, rows_view(out@)[j].0) by {
                assert(rows_view(out@)[j] == row_view(out@[j]));
                if j < old_out.len() {
                    assert(rows_view(out@)[j] == old_out[j]);
                    assert(old_out[j].1 == occurrences(pre, old_out[j].0));
                    assert(old_out[j].0 != names@[i as int]@);
                }
            }
            assert forall|m: int| 0 <= m < post.len() implies has_row(rows_view(out@), #[trigger] post[m]) by {
                if m < i {
                    assert(pre[m] == post[m]);
                    assert(has_row(old_out, pre[m]));
                    let j = choose|j: int| 0 <= j < old_out.len() && #[trigger] old_out[j].0 == pre[m];
                    assert(rows_view(out@)[j].0 == old_out[j].0);
                } else {
                    assert(rows_view(out@)[old_out.len() as int].0 == post[m]);
                }
            }
            assert forall|a: int, b: int| 0 <= a < b < rows_view(out@).len() implies rows_view(out@)[a].0
                != rows_view(out@)[b].0 by {
                assert(rows_view(out@)[a].0 == old_out[a].0);
                if b < old_out.len() {
                    assert(rows_view(out@)[b].0 == old_out[b].0);
                } else {
                    assert(old_out[a].0 != names@[i as int]@);
                }
            }
            assert forall|j: int| 0 <= j < rows_view(out@).len() implies 0 < #[trigger] rows_view(out@)[j].1 by {
                assert(rows_view(out@)[j] == row_view(out@[j]));
                if j < old_out.len() {
                    assert(rows_view(out@)[j] == old_out[j]);
                }
            }
        }
        i += 1;
    }
    assert(views(names@).take(names@.len() as int) =~= views(names@));
    out
}

/// Total of the counts.
pub open spec fn row_sum(s: Seq<(Seq<char>, u64)>) -> nat
    decreases s.len(),
{
    if s.len() == 0 {
        0
    } else {
        row_sum(s.drop_last()) + s.last().1 as nat
    }
}

/// The total of a concatenation is the sum of the totals.
pub proof fn lemma_row_sum_concat(a: Seq<(Seq<char>, u64)>, b: Seq<(Seq<char>, u64)>)
    ensures
        row_sum(a + b) == row_sum(a) + row_sum(b),
    decreases b.len(),
{
    if b.len() == 0 {
        assert(a + b =~= a);
    } else {
        lemma_row_sum_concat(a, b.drop_last());
        assert((a + b).drop_last() =~= a + b.drop_last());
    }
}

proof fn lemma_row_sum_insert(s: Seq<(Seq<char>, u64)>, x: (Seq<char>, u64), by_name: bool)
    ensures
        row_sum(insert_row(s, x, by_name)) == row_sum(s) + x.1,
    decreases s.len(),
{
    reveal_with_fuel(row_sum, 2);
    if s.len() == 0 {
        assert(insert_row(s, x, by_name) =~= Seq::empty().push(x));
        assert(Seq::<(Seq<char>, u64)>::empty().push(x).drop_last() =~= Seq::empty());
        assert(row_sum(Seq::<(Seq<char>, u64)>::empty().push(x)) == x.1);
    } else if goes_before(by_name, x, s[0]) {
        lemma_row_sum_concat(seq![x], s);
        assert(seq![x].drop_last() =~= Seq::<(Seq<char>, u64)>::empty());
        assert(row_sum(seq![x]) == x.1);
    } else {
        let t = s.drop_first();
        lemma_row_sum_insert(t, x, by_name);
        lemma_row_sum_concat(seq![s[0]], insert_row(t, x, by_name));
        lemma_row_sum_concat(seq![s[0]], t);
        assert(seq![s[0]] + t =~= s);
        assert(seq![s[0]].drop_last() =~= Seq::<(Seq<char>, u64)>::empty());
        assert(row_sum(seq![s[0]]) == s[0].1);
    }
}

/// Sorting keeps the total.
pub proof fn lemma_sort_rows_sum(s: Seq<(Seq<char>, u64)>, by_name: bool)
    ensures
        row_sum(sort_rows(s, by_name)) == row_sum(s),
    decreases s.len(),
{
    if s.len() > 0 {
        lemma_sort_rows_sum(s.drop_last(), by_name);
        lemma_row_sum_insert(sort_rows(s.drop_last(), by_name), s.last(), by_name);
    }
}

/// Sum of the counts.
pub fn total_of(rows: &Vec<(String, u64)>) -> (t: u64)
    requires
        row_sum(rows_view(rows@)) <= u64::MAX,
    ensures
        t == row_sum(rows_view(rows@)),
{
    let mut t: u64 = 0;
    let mut i: usize = 0;
    assert(rows_view(rows@).take(0) =~= Seq::<(Seq<char>, u64)>::empty());
    while i < rows.len()
        invariant
            i <= rows@.len(),
            row_sum(rows_view(rows@)) <= u64::MAX,
            t == row_sum(rows_view(rows@).take(i as int)),
        decreases rows@.len() - i,
    {
        let ghost pre = rows_view(rows@).take(i as int);
        let ghost post = rows_view(rows@).take(i + 1);
        assert(post.drop_last() =~= pre);
        proof {
            lemma_row_sum_concat(post, rows_view(rows@).skip(i + 1));
            assert(post + rows_view(rows@).skip(i + 1) =~= rows_view(rows@));
        }
        t = t + rows[i].1;
        i += 1;
    }
    assert(rows_view(rows@).take(rows@.len() as int) =~= rows_view(rows@));
    t
}

} // verus!
