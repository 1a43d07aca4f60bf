use vstd::prelude::*;

verus! {

/// Items that carry a due day by which lists of them are ordered.
pub trait DueOrdered {
    spec fn due_key(&self) -> int;

    fn due_value(&self) -> (r: i64)
        ensures
            r as int == self.due_key(),
    ;
}

/// Inserts `x` after every item whose due day is not later than its own, which keeps a
/// list sorted and keeps items of equal due day in arrival order.
pub open spec fn insert_by_due<T: DueOrdered>(s: Seq<T>, x: T) -> Seq<T>
    decreases s.len(),
{
    if s.len() == 0 {
        seq![x]
    } else if s.last().due_key() <= x.due_key() {
        s.push(x)
    } else {
        insert_by_due(s.drop_last(), x).push(s.last())
    }
}

/// The stable sort of a list by due day.
pub open spec fn sort_by_due<T: DueOrdered>(s: Seq<T>) -> Seq<T>
    decreases s.len(),
{
    if s.len() == 0 {
        s
    } else {
        insert_by_due(sort_by_due(s.drop_last()), s.last())
    }
}

pub open spec fn sorted_by_due<T: DueOrdered>(s: Seq<T>) -> bool {
    forall|i: int, j: int| 0 <= i < j < s.len() ==> s[i].due_key() <= s[j].due_key()
}

proof fn lemma_insert_at<T: DueOrdered>(s: Seq<T>, x: T, j: int)
    requires
        0 <= j <= s.len(),
        forall|k: int| j <= k < s.len() ==> s[k].due_key() > x.due_key(),
        j > 0 ==> s[j - 1].due_key() <= x.due_key(),
    ensures
        insert_by_due(s, x) == s.insert(j, x),
    decreases s.len(),
{
    if s.len() == 0 {
        assert(s.insert(j, x) =~= seq![x]);
    } else if j == s.len() {
        assert(s.insert(j, x) =~= s.push(x));
    } else {
        lemma_insert_at(s.drop_last(), x, j);
        assert(s.drop_last().insert(j, x).push(s.last()) =~= s.insert(j, x));
    }
}

pub proof fn lemma_insert_keeps_sorted<T: DueOrdered>(s: Seq<T>, x: T)
    requires
        sorted_by_due(s),
    ensures
        sorted_by_due(insert_by_due(s, x)),
        insert_by_due(s, x).len() == s.len() + 1,
        forall|k: int|
            0 <= k < insert_by_due(s, x).len() ==> #[trigger] insert_by_due(s, x)[k] == x
                || s.contains(insert_by_due(s, x)[k]),
    decreases s.len(),
{
    if s.len() > 0 && s.last().due_key() > x.due_key() {
        lemma_insert_keeps_sorted(s.drop_last(), x);
        let t = insert_by_due(s.drop_last(), x);
        assert forall|k: int| 0 <= k < t.len() implies t[k].due_key() <= s.last().due_key() by {
            if t[k] != x {
                assert(s.drop_last().contains(t[k]));
                let m = choose|m: int| 0 <= m < s.drop_last().len() && s.drop_last()[m] == t[k];
                assert(s[m] == t[k]);
            }
        }
        assert forall|k: int| 0 <= k < t.len() implies #[trigger] t[k] == x || s.contains(t[k]) by {
            if t[k] != x {
                let m = choose|m: int| 0 <= m < s.drop_last().len() && s.drop_last()[m] == t[k];
                assert(s[m] == t[k]);
            }
        }
        assert(s.contains(s.last())) by {
            assert(s[s.len() - 1] == s.last());
        }
    } else if s.len() > 0 {
        assert forall|k: int| 0 <= k < s.push(x).len() implies #[trigger] s.push(x)[k] == x
            || s.contains(s.push(x)[k]) by {
            if k < s.len() {
                assert(s.push(x)[k] == s[k]);
            }
        }
    }
}

pub proof fn lemma_sort_sorted<T: DueOrdered>(s: Seq<T>)
    ensures
        sorted_by_due(sort_by_due(s)),
        sort_by_due(s).len() == s.len(),
        forall|k: int| 0 <= k < s.len() ==> s.contains(#[trigger] sort_by_due(s)[k]),
    decreases s.len(),
{
    if s.len() > 0 {
        let p = s.drop_last();
        lemma_sort_sorted(p);
        lemma_insert_keeps_sorted(sort_by_due(p), s.last());
        assert forall|k: int| 0 <= k < s.len() implies s.contains(#[trigger] sort_by_due(s)[k]) by {
            let e = sort_by_due(s)[k];
            if e == s.last() {
                assert(s[s.len() - 1] == e);
            } else {
                let m = choose|m: int| 0 <= m < sort_by_due(p).len() && sort_by_due(p)[m] == e;
                assert(p.contains(sort_by_due(p)[m]));
                let q = choose|q: int| 0 <= q < p.len() && p[q] == e;
                assert(s[q] == e);
            }
        }
    }
}

/// Inserts `x` into `v` at the place that `insert_by_due` gives it.
pub fn insert_due_ordered<T: DueOrdered>(v: &mut Vec<T>, x: T)
    ensures
        final(v)@ == insert_by_due(old(v)@, x),
{
    let key = x.due_value();
    let mut j: usize = v.len();
    while j > 0 && v[j - 1].due_value() > key
        invariant
            j <= v@.len(),
            v@ == old(v)@,
            key == x.due_key(),
            forall|k: int| j <= k < v@.len() ==> v@[k].due_key() > x.due_key(),
        decreases j,
    {
        j -= 1;
    }
    proof {
        lemma_insert_at(v@, x, j as int);
    }
    v.insert(j, x);
}

} // verus!
