//! Facts about sequences that the list operations of the relay rely on.
use vstd::prelude::*;

verus! {

/// `i` is the first position of the sequence whose element satisfies `p`.
pub open spec fn is_first_match<T>(s: Seq<T>, p: spec_fn(T) -> bool, i: int) -> bool {
    &&& 0 <= i < s.len()
    &&& p(s[i])
    &&& forall|j: int| 0 <= j < i ==> !p(#[trigger] s[j])
}

/// The first position whose element satisfies `p`, if any.
pub open spec fn first_index<T>(s: Seq<T>, p: spec_fn(T) -> bool) -> Option<int> {
    if exists|i: int| is_first_match(s, p, i) {
        Some(choose|i: int| is_first_match(s, p, i))
    } else {
        None
    }
}

/// The first position whose item matches is the one that matches with no match before it.
pub proof fn lemma_first_index_found<T>(s: Seq<T>, p: spec_fn(T) -> bool, k: int)
    requires
        is_first_match(s, p, k),
    ensures
        first_index(s, p) == Some(k),
{
    let i = choose|i: int| is_first_match(s, p, i);
    assert(is_first_match(s, p, i));
    if i < k {
        assert(!p(s[i]));
    } else if k < i {
        assert(!p(s[k]));
    }
}

/// A sequence in which no item matches has no first match.
pub proof fn lemma_first_index_none<T>(s: Seq<T>, p: spec_fn(T) -> bool)
    requires
        forall|j: int| 0 <= j < s.len() ==> !p(#[trigger] s[j]),
    ensures
        first_index(s, p) is None,
{
    if exists|i: int| is_first_match(s, p, i) {
        let i = choose|i: int| is_first_match(s, p, i);
        assert(p(s[i]));
    }
}

/// Filtering a sequence with one more element at the end.
pub proof fn lemma_filter_push<T>(s: Seq<T>, p: spec_fn(T) -> bool, e: T)
    ensures
        p(e) ==> s.push(e).filter(p) == s.filter(p).push(e),
        !p(e) ==> s.push(e).filter(p) == s.filter(p),
{
    reveal(Seq::filter);
    assert(s.push(e).drop_last() =~= s);
}

/// Two positions whose items pass a filter leave at least two items.
pub proof fn lemma_filter_two<T>(s: Seq<T>, p: spec_fn(T) -> bool, i: int, j: int)
    requires
        0 <= i < j < s.len(),
        p(s[i]),
        p(s[j]),
    ensures
        s.filter(p).len() >= 2,
    decreases s.len(),
{
    let t = s.drop_last();
    assert(s =~= t.push(s.last()));
    lemma_filter_push(t, p, s.last());
    if j < s.len() - 1 {
        assert(t[i] == s[i] && t[j] == s[j]);
        lemma_filter_two(t, p, i, j);
    } else {
        lemma_filter_members(t, p);
        assert(t[i] == s[i]);
        assert(t.contains(s[i]));
        assert(t.filter(p).contains(s[i]));
    }
}

/// Every element that survives a filter satisfies the predicate and was in the sequence.
pub proof fn lemma_filter_members<T>(s: Seq<T>, p: spec_fn(T) -> bool)
    ensures
        forall|x: T| #[trigger] s.filter(p).contains(x) <==> (s.contains(x) && p(x)),
    decreases s.len(),
{
    reveal(Seq::filter);
    if s.len() > 0 {
        let t = s.drop_last();
        lemma_filter_members(t, p);
        assert(s =~= t.push(s.last()));
        lemma_filter_push(t, p, s.last());
        assert forall|x: T| #[trigger] s.filter(p).contains(x) <==> (s.contains(x) && p(x)) by {
            if s.contains(x) {
                let i = choose|i: int| 0 <= i < s.len() && s[i] == x;
                if i < s.len() - 1 {
                    assert(t[i] == x);
                    assert(t.contains(x));
                }
            }
            if t.contains(x) {
                let i = choose|i: int| 0 <= i < t.len() && t[i] == x;
                assert(s[i] == x);
            }
            if p(s.last()) {
                let f = t.filter(p);
                if f.push(s.last()).contains(x) {
                    let i = choose|i: int| 0 <= i < f.len() + 1 && f.push(s.last())[i] == x;
                    if i < f.len() {
                        assert(f[i] == x);
                        assert(f.contains(x));
                    }
                }
                if f.contains(x) {
                    let i = choose|i: int| 0 <= i < f.len() && f[i] == x;
                    assert(f.push(s.last())[i] == x);
                }
                assert(f.push(s.last())[f.len() as int] == s.last());
            }
        }
    }
}

/// The strings whose characters are `s`.
pub open spec fn str_is(s: Seq<char>) -> spec_fn(String) -> bool {
    |x: String| x@ == s
}

/// The strings whose characters are not `s`.
pub open spec fn str_is_not(s: Seq<char>) -> spec_fn(String) -> bool {
    |x: String| x@ != s
}

/// The position of the first string with the given characters.
pub fn position_of_str(v: &Vec<String>, s: &str) -> (r: Option<usize>)
    ensures
        match r {
            Some(k) => is_first_match(v@, str_is(s@), k as int),
            None => forall|j: int| 0 <= j < v@.len() ==> v@[j]@ != s@,
        },
        r matches Some(k) ==> first_index(v@, str_is(s@)) == Some(k as int),
        r is None ==> first_index(v@, str_is(s@)) is None,
{
    let target = String::from_str(s);
    let mut i: usize = 0;
    while i < v.len()
        invariant
            i <= v@.len(),
            target@ == s@,
            forall|j: int| 0 <= j < i ==> v@[j]@ != s@,
        decreases v.len() - i,
    {
        if v[i] == target {
            proof {
                assert forall|j: int| 0 <= j < i implies !str_is(s@)(#[trigger] v@[j]) by {}
                lemma_first_index_found(v@, str_is(s@), i as int);
            }
            return Some(i);
        }
        i = i + 1;
    }
    proof {
        assert forall|j: int| 0 <= j < v@.len() implies !str_is(s@)(#[trigger] v@[j]) by {}
        lemma_first_index_none(v@, str_is(s@));
    }
    None
}

/// Whether a vector holds a string with the given characters.
pub fn contains_str(v: &Vec<String>, s: &str) -> (r: bool)
    ensures
        r == (exists|j: int| 0 <= j < v@.len() && v@[j]@ == s@),
{
    match position_of_str(v, s) {
        Some(k) => true,
        None => false,
    }
}

/// Whether a queue holds a string with the given characters.
pub fn queue_contains_str(v: &std::collections::VecDeque<String>, s: &str) -> (r: bool)
    ensures
        r == (exists|j: int| 0 <= j < v@.len() && v@[j]@ == s@),
{
    let target = String::from_str(s);
    let mut i: usize = 0;
    while i < v.len()
        invariant
            i <= v@.len(),
            target@ == s@,
            forall|j: int| 0 <= j < i ==> v@[j]@ != s@,
        decreases v.len() - i,
    {
        if v[i] == target {
            return true;
        }
        i = i + 1;
    }
    false
}

/// The strings of a vector without those with the given characters, in order.
pub fn without_str(v: &Vec<String>, s: &str) -> (r: Vec<String>)
    ensures
        r@ == v@.filter(str_is_not(s@)),
{
    let target = String::from_str(s);
    let mut r: Vec<String> = Vec::new();
    let mut i: usize = 0;
    assert(v@.subrange(0, 0).filter(str_is_not(s@)) =~= Seq::<String>::empty()) by {
        reveal(Seq::filter);
    }
    while i < v.len()
        invariant
            i <= v@.len(),
            target@ == s@,
            r@ == v@.subrange(0, i as int).filter(str_is_not(s@)),
        decreases v.len() - i,
    {
        proof {
            assert(v@.subrange(0, i + 1) =~= v@.subrange(0, i as int).push(v@[i as int]));
            lemma_filter_push(v@.subrange(0, i as int), str_is_not(s@), v@[i as int]);
        }
        if !(v[i] == target) {
            r.push(v[i].clone());
        }
        i = i + 1;
    }
    assert(v@.subrange(0, v@.len() as int) =~= v@);
    r
}


/// A list with an item inserted before the first item it is less than.
pub open spec fn insert_sorted<T>(s: Seq<T>, x: T, lt: spec_fn(T, T) -> bool) -> Seq<T> {
    s.insert(first_greater(s, x, lt), x)
}

/// The first position whose item the new item is less than, or the end.
pub open spec fn first_greater<T>(s: Seq<T>, x: T, lt: spec_fn(T, T) -> bool) -> int
    decreases s.len(),
{
    if s.len() == 0 {
        0
    } else if lt(x, s[0]) {
        0
    } else {
        1 + first_greater(s.skip(1), x, lt)
    }
}

/// A list sorted by insertion: each item, in turn, goes before the first item already placed
/// that it is less than, so items that are not less than each other keep their order.
pub open spec fn insertion_sorted<T>(s: Seq<T>, lt: spec_fn(T, T) -> bool) -> Seq<T>
    decreases s.len(),
{
    if s.len() == 0 {
        s
    } else {
        insert_sorted(insertion_sorted(s.drop_last(), lt), s.last(), lt)
    }
}

/// The insertion point lies within the sequence, after every item the new item is not less than.
pub proof fn lemma_first_greater_bounds<T>(s: Seq<T>, x: T, lt: spec_fn(T, T) -> bool)
    ensures
        0 <= first_greater(s, x, lt) <= s.len(),
        forall|j: int| 0 <= j < first_greater(s, x, lt) ==> !lt(x, #[trigger] s[j]),
        first_greater(s, x, lt) < s.len() ==> lt(x, s[first_greater(s, x, lt)]),
    decreases s.len(),
{
    if s.len() > 0 && !lt(x, s[0]) {
        lemma_first_greater_bounds(s.skip(1), x, lt);
        assert forall|j: int| 0 <= j < first_greater(s, x, lt) implies !lt(x, #[trigger] s[j]) by {
            if j > 0 {
                assert(s[j] == s.skip(1)[j - 1]);
            }
        }
    }
}

/// Sorting by insertion keeps the items, each as often as before.
pub proof fn insertion_sort_permutes<T>(s: Seq<T>, lt: spec_fn(T, T) -> bool)
    ensures
        insertion_sorted(s, lt).to_multiset() == s.to_multiset(),
        insertion_sorted(s, lt).len() == s.len(),
    decreases s.len(),
{
    broadcast use vstd::seq_lib::group_to_multiset_ensures;
    if s.len() > 0 {
        insertion_sort_permutes(s.drop_last(), lt);
        let prev = insertion_sorted(s.drop_last(), lt);
        lemma_first_greater_bounds(prev, s.last(), lt);
        let k = first_greater(prev, s.last(), lt);
        vstd::seq_lib::to_multiset_insert(prev, k, s.last());
        assert(s =~= s.drop_last().push(s.last()));
    }
}


/// The first position whose item the new item is less than is where a scan from the front
/// first meets such an item.
pub proof fn lemma_first_greater_at<T>(s: Seq<T>, x: T, lt: spec_fn(T, T) -> bool, k: int)
    requires
        0 <= k <= s.len(),
        forall|j: int| 0 <= j < k ==> !lt(x, #[trigger] s[j]),
        k < s.len() ==> lt(x, s[k]),
    ensures
        first_greater(s, x, lt) == k,
    decreases s.len(),
{
    if s.len() > 0 && k > 0 {
        assert(!lt(x, s[0]));
        assert forall|j: int| 0 <= j < k - 1 implies !lt(x, #[trigger] s.skip(1)[j]) by {
            assert(s.skip(1)[j] == s[j + 1]);
        }
        lemma_first_greater_at(s.skip(1), x, lt, k - 1);
    }
}

/// Sorting by insertion with an order in which no two items are less than each other leaves
/// each item no greater than the next.
pub proof fn insertion_sort_adjacent<T>(s: Seq<T>, lt: spec_fn(T, T) -> bool)
    requires
        forall|a: T, b: T| #[trigger] lt(a, b) ==> !lt(b, a),
    ensures
        forall|i: int|
            0 <= i < insertion_sorted(s, lt).len() - 1 ==> !lt(
                #[trigger] insertion_sorted(s, lt)[i + 1],
                insertion_sorted(s, lt)[i],
            ),
    decreases s.len(),
{
    if s.len() > 0 {
        insertion_sort_adjacent(s.drop_last(), lt);
        insertion_sort_permutes(s.drop_last(), lt);
        let prev = insertion_sorted(s.drop_last(), lt);
        let x = s.last();
        lemma_first_greater_bounds(prev, x, lt);
        let k = first_greater(prev, x, lt);
        let r = prev.insert(k, x);
        assert(r == insertion_sorted(s, lt));
        assert(prev.len() == s.len() - 1);
        assert(r.len() == prev.len() + 1);
        assert forall|i: int| 0 <= i < r.len() - 1 implies !lt(#[trigger] r[i + 1], r[i]) by {
            if i + 1 < k {
                assert(r[i] == prev[i] && r[i + 1] == prev[i + 1]);
            } else if i + 1 == k {
                assert(r[i + 1] == x && r[i] == prev[i]);
            } else if i == k {
                assert(k < prev.len());
                assert(r[i] == x && r[i + 1] == prev[k]);
                assert(lt(x, prev[k]));
            } else {
                assert(r[i] == prev[i - 1] && r[i + 1] == prev[i]);
                assert(prev[(i - 1) + 1] == prev[i]);
            }
        }
    }
}


/// No item of a sequence comes before an item earlier in it.
pub open spec fn sorted_by<T>(s: Seq<T>, lt: spec_fn(T, T) -> bool) -> bool {
    forall|i: int, j: int| 0 <= i < j < s.len() ==> !lt(#[trigger] s[j], #[trigger] s[i])
}

/// Any two different items of the sequence are ordered one way or the other.
pub open spec fn total_on<T>(s: Seq<T>, lt: spec_fn(T, T) -> bool) -> bool {
    forall|a: T, b: T| s.contains(a) && s.contains(b) && a != b ==> #[trigger] lt(a, b) || #[trigger] lt(b, a)
}

/// With an order that is transitive and total on the items, a sequence in which no item is
/// less than the one before it is sorted throughout.
pub proof fn lemma_adjacent_sorted<T>(s: Seq<T>, lt: spec_fn(T, T) -> bool)
    requires
        forall|a: T, b: T| #[trigger] lt(a, b) ==> !lt(b, a),
        forall|a: T, b: T, c: T| #[trigger] lt(a, b) && #[trigger] lt(b, c) ==> lt(a, c),
        total_on(s, lt),
        forall|i: int| 0 <= i < s.len() - 1 ==> !lt(#[trigger] s[i + 1], s[i]),
    ensures
        sorted_by(s, lt),
    decreases s.len(),
{
    if s.len() > 1 {
        let t = s.drop_last();
        assert forall|a: T, b: T| t.contains(a) && t.contains(b) && a != b implies #[trigger] lt(a, b)
            || #[trigger] lt(b, a) by {
            let ia = choose|i: int| 0 <= i < t.len() && t[i] == a;
            let ib = choose|i: int| 0 <= i < t.len() && t[i] == b;
            assert(t[ia] == s[ia] && t[ib] == s[ib]);
            assert(s.contains(a) && s.contains(b));
        }
        assert forall|i: int| 0 <= i < t.len() - 1 implies !lt(#[trigger] t[i + 1], t[i]) by {
            assert(t[i + 1] == s[i + 1] && t[i] == s[i]);
        }
        lemma_adjacent_sorted(t, lt);
        let n = s.len() - 1;
        assert(!lt(s[(n - 1) + 1], s[n - 1]));
        assert(!lt(s[n], s[n - 1]));
        assert forall|i: int, j: int| 0 <= i < j < s.len() implies !lt(#[trigger] s[j], #[trigger] s[i]) by {
            if j < n {
                assert(s[i] == t[i] && s[j] == t[j]);
            } else if i == n - 1 {
            } else {
                // s[i] <= s[n - 1] <= s[n]
                assert(s[i] == t[i] && s[n - 1] == t[n - 1]);
                assert(!lt(t[n - 1], t[i]));
                assert(s.contains(s[i]) && s.contains(s[n - 1]) && s.contains(s[n]));
                if lt(s[n], s[i]) {
                    if s[n] == s[n - 1] {
                    } else {
                        assert(lt(s[n - 1], s[n]) || lt(s[n], s[n - 1]));
                        assert(lt(s[n - 1], s[n]));
                        assert(lt(s[n - 1], s[i]));
                    }
                }
            }
        }
    }
}

/// Two sorted arrangements of the same items, under an order total on them, are the same.
pub proof fn lemma_sorted_unique<T>(a: Seq<T>, b: Seq<T>, lt: spec_fn(T, T) -> bool)
    requires
        forall|x: T, y: T| #[trigger] lt(x, y) ==> !lt(y, x),
        a.to_multiset() == b.to_multiset(),
        sorted_by(a, lt),
        sorted_by(b, lt),
        total_on(a, lt),
    ensures
        a == b,
    decreases a.len(),
{
    broadcast use vstd::seq_lib::group_to_multiset_ensures;
    assert(a.len() == a.to_multiset().len());
    assert(b.len() == b.to_multiset().len());
    if a.len() > 0 {
        let x = a[0];
        let y = b[0];
        assert(a.to_multiset().count(x) > 0);
        assert(b.contains(x));
        assert(b.to_multiset().count(y) > 0);
        assert(a.contains(y));
        if x != y {
            assert(a.contains(x));
            if lt(x, y) {
                let j = choose|j: int| 0 <= j < b.len() && b[j] == x;
                assert(j != 0);
                assert(!lt(b[j], b[0]));
            } else {
                assert(lt(y, x));
                let j = choose|j: int| 0 <= j < a.len() && a[j] == y;
                assert(j != 0);
                assert(!lt(a[j], a[0]));
            }
        }
        let ra = a.remove(0);
        let rb = b.remove(0);
        assert(ra.to_multiset() == a.to_multiset().remove(x));
        assert(rb.to_multiset() == b.to_multiset().remove(y));
        assert forall|i: int, j: int| 0 <= i < j < ra.len() implies !lt(#[trigger] ra[j], #[trigger] ra[i]) by {
            assert(ra[i] == a[i + 1] && ra[j] == a[j + 1]);
        }
        assert forall|i: int, j: int| 0 <= i < j < rb.len() implies !lt(#[trigger] rb[j], #[trigger] rb[i]) by {
            assert(rb[i] == b[i + 1] && rb[j] == b[j + 1]);
        }
        assert forall|p: T, q: T| ra.contains(p) && ra.contains(q) && p != q implies #[trigger] lt(p, q)
            || #[trigger] lt(q, p) by {
            let ip = choose|i: int| 0 <= i < ra.len() && ra[i] == p;
            let iq = choose|i: int| 0 <= i < ra.len() && ra[i] == q;
            assert(a[ip + 1] == p && a[iq + 1] == q);
            assert(a.contains(p) && a.contains(q));
        }
        lemma_sorted_unique(ra, rb, lt);
        assert(a =~= seq![x] + ra);
        assert(b =~= seq![y] + rb);
    }
}

/// Sorting by insertion, with an order that is transitive and total on the items, gives the
/// same list for any arrangement of the same items.
pub proof fn insertion_sort_ignores_arrangement<T>(s: Seq<T>, q: Seq<T>, lt: spec_fn(T, T) -> bool)
    requires
        forall|a: T, b: T| #[trigger] lt(a, b) ==> !lt(b, a),
        forall|a: T, b: T, c: T| #[trigger] lt(a, b) && #[trigger] lt(b, c) ==> lt(a, c),
        s.to_multiset() == q.to_multiset(),
        total_on(s, lt),
    ensures
        insertion_sorted(s, lt) == insertion_sorted(q, lt),
{
    broadcast use vstd::seq_lib::group_to_multiset_ensures;
    insertion_sort_permutes(s, lt);
    insertion_sort_permutes(q, lt);
    insertion_sort_adjacent(s, lt);
    insertion_sort_adjacent(q, lt);
    let a = insertion_sorted(s, lt);
    let b = insertion_sorted(q, lt);
    assert forall|x: T| a.contains(x) implies s.contains(x) by {
        assert(a.to_multiset().count(x) > 0);
    }
    assert forall|x: T| b.contains(x) implies s.contains(x) by {
        assert(b.to_multiset().count(x) > 0);
        assert(s.to_multiset().count(x) > 0);
    }
    assert forall|x: T, y: T| a.contains(x) && a.contains(y) && x != y implies #[trigger] lt(x, y)
        || #[trigger] lt(y, x) by {
        assert(s.contains(x) && s.contains(y));
    }
    assert forall|x: T, y: T| b.contains(x) && b.contains(y) && x != y implies #[trigger] lt(x, y)
        || #[trigger] lt(y, x) by {
        assert(s.contains(x) && s.contains(y));
    }
    lemma_adjacent_sorted(a, lt);
    lemma_adjacent_sorted(b, lt);
    lemma_sorted_unique(a, b, lt);
}

} // verus!
