use vstd::prelude::*;

verus! {

/// How many paths the recently-used list keeps.
pub const MAX_RECENTS: usize = 10;

/// The paths of `v`, as character sequences.
pub open spec fn paths_of(v: Seq<String>) -> Seq<Seq<char>> {
    v.map_values(|p: String| p@)
}

/// `s` with every occurrence of `x` taken out, the rest in order.
pub open spec fn without(s: Seq<Seq<char>>, x: Seq<char>) -> Seq<Seq<char>>
    decreases s.len(),
{
    if s.len() == 0 {
        s
    } else if s.last() == x {
        without(s.drop_last(), x)
    } else {
        without(s.drop_last(), x).push(s.last())
    }
}

/// The last `n` entries of `s` (all of them when there are fewer).
pub open spec fn keep_last(s: Seq<Seq<char>>, n: nat) -> Seq<Seq<char>> {
    if s.len() > n {
        s.subrange(s.len() - n, s.len() as int)
    } else {
        s
    }
}

/// The list after `x` was opened: `x` moves to the end, the oldest entries
/// beyond the capacity are dropped.
pub open spec fn pushed(s: Seq<Seq<char>>, x: Seq<char>) -> Seq<Seq<char>> {
    keep_last(without(s, x).push(x), MAX_RECENTS as nat)
}

/// The list built by opening each path of `s` in turn, starting from an empty one.
pub open spec fn pushed_all(s: Seq<Seq<char>>) -> Seq<Seq<char>>
    decreases s.len(),
{
    if s.len() == 0 {
        s
    } else {
        pushed(pushed_all(s.drop_last()), s.last())
    }
}

pub open spec fn no_dups(s: Seq<Seq<char>>) -> bool {
    forall|i: int, j: int| 0 <= i < j < s.len() ==> s[i] != s[j]
}

/// A well-formed recently-used list: within capacity, no path twice.
pub open spec fn recents_ok(s: Seq<Seq<char>>) -> bool {
    s.len() <= MAX_RECENTS && no_dups(s)
}

/// Which entries `without` keeps.
pub proof fn lemma_without_contains(s: Seq<Seq<char>>, x: Seq<char>, y: Seq<char>)
    ensures
        without(s, x).contains(y) <==> (s.contains(y) && y != x),
        without(s, x).len() <= s.len(),
    decreases s.len(),
{
    if s.len() > 0 {
        lemma_without_contains(s.drop_last(), x, y);
        let r = without(s.drop_last(), x);
        if s.contains(y) && y != x {
            let k = choose|k: int| 0 <= k < s.len() && s[k] == y;
            if k < s.len() - 1 {
                assert(s.drop_last()[k] == y);
            }
        }
        if s.drop_last().contains(y) {
            let k = choose|k: int| 0 <= k < s.drop_last().len() && s.drop_last()[k] == y;
            assert(s[k] == y);
        }
        if s.last() != x {
            let w = r.push(s.last());
            if r.contains(y) {
                let k = choose|k: int| 0 <= k < r.len() && r[k] == y;
                assert(w[k] == y);
            }
            if w.contains(y) && y != s.last() {
                let k = choose|k: int| 0 <= k < w.len() && w[k] == y;
                assert(r[k] == y);
            }
            assert(w[w.len() - 1] == s.last());
        }
    }
}

/// Taking a path out keeps a list free of duplicates.
pub proof fn lemma_without_no_dups(s: Seq<Seq<char>>, x: Seq<char>)
    requires
        no_dups(s),
    ensures
        no_dups(without(s, x)),
        !without(s, x).contains(x),
    decreases s.len(),
{
    lemma_without_contains(s, x, x);
    if s.len() > 0 {
        let d = s.drop_last();
        assert(no_dups(d)) by {
            assert forall|i: int, j: int| 0 <= i < j < d.len() implies d[i] != d[j] by {
                assert(d[i] == s[i] && d[j] == s[j]);
            }
        }
        lemma_without_no_dups(d, x);
        if s.last() != x {
            let r = without(d, x);
            lemma_without_contains(d, x, s.last());
            assert(!d.contains(s.last())) by {
                if d.contains(s.last()) {
                    let k = choose|k: int| 0 <= k < d.len() && d[k] == s.last();
                    assert(s[k] == s[s.len() - 1]);
                }
            }
            let w = r.push(s.last());
            assert forall|i: int, j: int| 0 <= i < j < w.len() implies w[i] != w[j] by {
                if j == w.len() - 1 {
                    assert(w[i] == r[i]);
                    assert(r.contains(r[i]));
                }
            }
        }
    }
}

/// A list without duplicates and without `x` is left as it is.
pub proof fn lemma_without_absent(s: Seq<Seq<char>>, x: Seq<char>)
    requires
        !s.contains(x),
    ensures
        without(s, x) == s,
    decreases s.len(),
{
    if s.len() > 0 {
        let d = s.drop_last();
        assert(!d.contains(x)) by {
            if d.contains(x) {
                let k = choose|k: int| 0 <= k < d.len() && d[k] == x;
                assert(s[k] == x);
            }
        }
        lemma_without_absent(d, x);
        assert(s.last() != x) by {
            assert(s[s.len() - 1] == s.last());
        }
        assert(d.push(s.last()) =~= s);
    }
}

/// Opening a path keeps the list well formed, puts the path last, and keeps
/// every other path of the list unless it fell off the front.
pub proof fn lemma_pushed(s: Seq<Seq<char>>, x: Seq<char>)
    requires
        no_dups(s),
    ensures
        recents_ok(pushed(s, x)),
        pushed(s, x).len() > 0,
        pushed(s, x).last() == x,
        pushed(s, x).contains(x),
        forall|y: Seq<char>| #[trigger] pushed(s, x).contains(y) ==> y == x || s.contains(y),
{
    lemma_without_no_dups(s, x);
    let r = without(s, x);
    let w = r.push(x);
    assert(no_dups(w)) by {
        assert forall|i: int, j: int| 0 <= i < j < w.len() implies w[i] != w[j] by {
            if j == w.len() - 1 {
                assert(w[i] == r[i]);
                assert(r.contains(r[i]));
            } else {
                assert(w[i] == r[i] && w[j] == r[j]);
            }
        }
    }
    let p = pushed(s, x);
    let n = MAX_RECENTS as nat;
    assert(p.len() <= n);
    assert(no_dups(p)) by {
        if w.len() > n {
            assert forall|i: int, j: int| 0 <= i < j < p.len() implies p[i] != p[j] by {
                let off = w.len() - n;
                assert(p[i] == w[i + off] && p[j] == w[j + off]);
            }
        }
    }
    assert(p[p.len() - 1] == x);
    assert forall|y: Seq<char>| #[trigger] p.contains(y) implies y == x || s.contains(y) by {
        let k = choose|k: int| 0 <= k < p.len() && p[k] == y;
        let off = w.len() - p.len();
        assert(w[k + off] == y);
        if k + off < r.len() {
            assert(r[k + off] == y);
            lemma_without_contains(s, x, y);
        }
    }
}

/// Opening the file that was opened last leaves the list as it is.
pub proof fn lemma_pushed_twice(s: Seq<Seq<char>>, x: Seq<char>)
    requires
        no_dups(s),
    ensures
        pushed(pushed(s, x), x) == pushed(s, x),
{
    lemma_pushed(s, x);
    let p = pushed(s, x);
    let d = p.drop_last();
    assert(!d.contains(x)) by {
        if d.contains(x) {
            let k = choose|k: int| 0 <= k < d.len() && d[k] == x;
            assert(p[k] == p[p.len() - 1]);
        }
    }
    lemma_without_absent(d, x);
    assert(without(p, x) == without(d, x));
    assert(d.push(x) =~= p);
}

/// A list that is already well formed is rebuilt unchanged by opening its
/// paths in order.
pub proof fn lemma_pushed_all_ok(s: Seq<Seq<char>>)
    requires
        recents_ok(s),
    ensures
        pushed_all(s) == s,
    decreases s.len(),
{
    if s.len() > 0 {
        let d = s.drop_last();
        assert(recents_ok(d)) by {
            assert forall|i: int, j: int| 0 <= i < j < d.len() implies d[i] != d[j] by {
                assert(d[i] == s[i] && d[j] == s[j]);
            }
        }
        lemma_pushed_all_ok(d);
        assert(!d.contains(s.last())) by {
            if d.contains(s.last()) {
                let k = choose|k: int| 0 <= k < d.len() && d[k] == s.last();
                assert(s[k] == s[s.len() - 1]);
            }
        }
        lemma_without_absent(d, s.last());
        assert(d.push(s.last()) =~= s);
    }
}

} // verus!
