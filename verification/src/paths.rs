//! Deterministic ordering of discovered artifact paths.
//!
//! The remote register's final value depends on the order of extensions,
//! so the set of files a measurer discovers must be submitted in one
//! canonical order, with each physical file appearing at most once however
//! many patterns matched it. Paths are handled as byte strings and ordered
//! lexicographically; the planned sequence is strictly increasing, so it
//! is duplicate-free, and any two plans over the same path set are equal.

use vstd::prelude::*;

verus! {

/// Strict lexicographic order on byte strings: a proper prefix comes
/// first, otherwise the first differing byte decides.
pub open spec fn lex_lt(a: Seq<u8>, b: Seq<u8>) -> bool
    decreases a.len(),
{
    if b.len() == 0 {
        false
    } else if a.len() == 0 {
        true
    } else if a[0] < b[0] {
        true
    } else if b[0] < a[0] {
        false
    } else {
        lex_lt(a.skip(1), b.skip(1))
    }
}

/// Of two distinct byte strings, exactly one comes first.
pub proof fn lemma_lex_trichotomy(a: Seq<u8>, b: Seq<u8>)
    ensures
        lex_lt(a, b) || lex_lt(b, a) || a == b,
        lex_lt(a, b) ==> !lex_lt(b, a) && a != b,
    decreases a.len(),
{
    if a.len() == 0 && b.len() == 0 {
        assert(a =~= b);
    } else if a.len() > 0 && b.len() > 0 && a[0] == b[0] {
        lemma_lex_trichotomy(a.skip(1), b.skip(1));
        if a.skip(1) == b.skip(1) {
            assert forall|i: int| 0 <= i < a.len() implies a[i] == b[i] by {
                if i >= 1 {
                    assert(a.skip(1)[i - 1] == a[i]);
                    assert(b.skip(1)[i - 1] == b[i]);
                }
            }
            assert(a =~= b);
        }
        if a == b {
            assert(a.skip(1) =~= b.skip(1));
        }
    }
}

/// No byte string comes before itself.
pub proof fn lemma_lex_irreflexive(a: Seq<u8>)
    ensures
        !lex_lt(a, a),
{
    lemma_lex_trichotomy(a, a);
}

/// The lexicographic order is transitive.
pub proof fn lemma_lex_transitive(a: Seq<u8>, b: Seq<u8>, c: Seq<u8>)
    requires
        lex_lt(a, b),
        lex_lt(b, c),
    ensures
        lex_lt(a, c),
    decreases a.len(),
{
    if a.len() == 0 {
    } else {
        if a[0] == b[0] && b[0] == c[0] {
            lemma_lex_transitive(a.skip(1), b.skip(1), c.skip(1));
        }
    }
}

/// Compares two paths in the lexicographic order.
pub fn bytes_lt(a: &Vec<u8>, b: &Vec<u8>) -> (r: bool)
    ensures
        r == lex_lt(a@, b@),
{
    let mut i: usize = 0;
    proof {
        assert(a@.skip(0) =~= a@);
        assert(b@.skip(0) =~= b@);
    }
    while i < a.len() && i < b.len()
        invariant
            i <= a@.len(),
            i <= b@.len(),
            lex_lt(a@, b@) == lex_lt(a@.skip(i as int), b@.skip(i as int)),
        decreases a@.len() - i,
    {
        let sa = a[i];
        let sb = b[i];
        proof {
            let ta = a@.skip(i as int);
            let tb = b@.skip(i as int);
            assert(ta[0] == a@[i as int]);
            assert(tb[0] == b@[i as int]);
            assert(ta.skip(1) =~= a@.skip(i as int + 1));
            assert(tb.skip(1) =~= b@.skip(i as int + 1));
        }
        if sa < sb {
            return true;
        }
        if sb < sa {
            return false;
        }
        i += 1;
    }
    proof {
        let ta = a@.skip(i as int);
        let tb = b@.skip(i as int);
        if i == a@.len() {
            assert(ta.len() == 0);
        } else {
            assert(tb.len() == 0);
        }
    }
    a.len() < b.len()
}

/// Tests two paths for equality.
pub fn bytes_eq(a: &Vec<u8>, b: &Vec<u8>) -> (r: bool)
    ensures
        r == (a@ == b@),
{
    if a.len() != b.len() {
        proof {
            assert(a@ != b@);
        }
        return false;
    }
    let mut i: usize = 0;
    while i < a.len()
        invariant
            i <= a@.len(),
            a@.len() == b@.len(),
            forall|k: int| 0 <= k < i ==> a@[k] == b@[k],
        decreases a@.len() - i,
    {
        if a[i] != b[i] {
            return false;
        }
        i += 1;
    }
    proof {
        assert(a@ =~= b@);
    }
    true
}

/// The views of a sequence of path vectors.
pub open spec fn path_views(ps: Seq<Vec<u8>>) -> Seq<Seq<u8>> {
    ps.map_values(|p: Vec<u8>| p@)
}

/// A strictly increasing sequence of paths: sorted, with no duplicates.
pub open spec fn sorted_strict(s: Seq<Seq<u8>>) -> bool {
    forall|i: int, j: int| 0 <= i < j < s.len() ==> lex_lt(s[i], s[j])
}

/// Two path sequences holding the same set of paths.
pub open spec fn same_path_set(a: Seq<Seq<u8>>, b: Seq<Seq<u8>>) -> bool {
    forall|x: Seq<u8>| a.contains(x) <==> b.contains(x)
}

/// A strictly increasing plan never holds the same path twice: each
/// physical file is extended at most once per invocation.
pub proof fn lemma_sorted_strict_distinct(s: Seq<Seq<u8>>, i: int, j: int)
    requires
        sorted_strict(s),
        0 <= i < s.len(),
        0 <= j < s.len(),
        i != j,
    ensures
        s[i] != s[j],
{
    if i < j {
        lemma_lex_trichotomy(s[i], s[j]);
    } else {
        lemma_lex_trichotomy(s[j], s[i]);
    }
}

/// The canonical order is unique: two strictly increasing sequences over
/// the same set of paths are equal. Two runs over an unchanged file set
/// therefore plan the same submission order.
pub proof fn lemma_sorted_unique_paths_equal(a: Seq<Seq<u8>>, b: Seq<Seq<u8>>)
    requires
        sorted_strict(a),
        sorted_strict(b),
        same_path_set(a, b),
    ensures
        a == b,
    decreases a.len(),
{
    if a.len() == 0 {
        if b.len() > 0 {
            assert(b.contains(b[0]));
            assert(a.contains(b[0]));
        }
        assert(a =~= b);
    } else {
        assert(a.contains(a.last()));
        assert(b.contains(a.last()));
        if b.len() == 0 {
            assert(!b.contains(a.last()));
        }
        let la = a.last();
        let lb = b.last();
        // Each last element is the maximum of its sequence, so the two
        // maxima of one set coincide.
        let ia = choose|k: int| 0 <= k < b.len() && b[k] == la;
        if ia < b.len() - 1 {
            assert(lex_lt(b[ia], lb));
        }
        assert(b.contains(lb));
        assert(a.contains(lb));
        let ib = choose|k: int| 0 <= k < a.len() && a[k] == lb;
        if ib < a.len() - 1 {
            assert(lex_lt(a[ib], la));
        }
        lemma_lex_trichotomy(la, lb);
        assert(la == lb);
        let a1 = a.drop_last();
        let b1 = b.drop_last();
        assert forall|x: Seq<u8>| a1.contains(x) implies b1.contains(x) by {
            let k = choose|k: int| 0 <= k < a1.len() && a1[k] == x;
            assert(a[k] == x);
            assert(lex_lt(x, la));
            assert(b.contains(x));
            let m = choose|m: int| 0 <= m < b.len() && b[m] == x;
            if m == b.len() - 1 {
                lemma_lex_irreflexive(la);
            }
            assert(b1[m] == x);
        }
        assert forall|x: Seq<u8>| b1.contains(x) implies a1.contains(x) by {
            let k = choose|k: int| 0 <= k < b1.len() && b1[k] == x;
            assert(b[k] == x);
            assert(lex_lt(x, lb));
            assert(a.contains(x));
            let m = choose|m: int| 0 <= m < a.len() && a[m] == x;
            if m == a.len() - 1 {
                lemma_lex_irreflexive(la);
            }
            assert(a1[m] == x);
        }
        assert(sorted_strict(a1));
        assert(sorted_strict(b1));
        lemma_sorted_unique_paths_equal(a1, b1);
        assert forall|i: int| 0 <= i < a.len() implies a[i] == b[i] by {
            if i < a.len() - 1 {
                assert(a1[i] == b1[i]);
            }
        }
        assert(a =~= b);
    }
}

/// Finds the first position whose path is not before `p`.
fn lower_bound(r: &Vec<Vec<u8>>, p: &Vec<u8>) -> (j: usize)
    ensures
        j <= r@.len(),
        forall|k: int| 0 <= k < j ==> lex_lt(r@[k]@, p@),
        j < r@.len() ==> !lex_lt(r@[j as int]@, p@),
{
    let mut j: usize = 0;
    while j < r.len()
        invariant
            j <= r@.len(),
            forall|k: int| 0 <= k < j ==> lex_lt(r@[k]@, p@),
        decreases r@.len() - j,
    {
        if !bytes_lt(&r[j], p) {
            return j;
        }
        j += 1;
    }
    j
}

/// Plans the submission order for a discovered set of paths: the same
/// paths, each exactly once, in strictly increasing lexicographic order.
/// Whatever order discovery produced, and however often overlapping
/// patterns repeated a path, the plan is the one canonical sequence for
/// that path set.
pub fn plan_paths(found: &Vec<Vec<u8>>) -> (r: Vec<Vec<u8>>)
    ensures
        sorted_strict(path_views(r@)),
        same_path_set(path_views(r@), path_views(found@)),
{
    let mut r: Vec<Vec<u8>> = Vec::new();
    let mut idx: usize = 0;
    while idx < found.len()
        invariant
            idx <= found@.len(),
            sorted_strict(path_views(r@)),
            same_path_set(path_views(r@), path_views(found@.take(idx as int))),
        decreases found@.len() - idx,
    {
        let p = &found[idx];
        let j = lower_bound(&r, p);
        let ghost pre = path_views(r@);
        let dup = j < r.len() && bytes_eq(&r[j], p);
        if !dup {
            proof {
                if j < r@.len() {
                    lemma_lex_trichotomy(r@[j as int]@, p@);
                }
            }
            r.insert(j, p.clone());
            proof {
                let post = path_views(r@);
                pre.insert_ensures(j as int, p@);
                assert(post =~= pre.insert(j as int, p@));
                assert forall|u: int, v: int| 0 <= u < v < post.len() implies lex_lt(
                    post[u],
                    post[v],
                ) by {
                    if v < j {
                        assert(post[u] == pre[u] && post[v] == pre[v]);
                    } else if v == j {
                        assert(post[u] == pre[u]);
                        assert(lex_lt(pre[u], p@));
                    } else {
                        assert(post[v] == pre[v - 1]);
                        if u < j {
                            assert(post[u] == pre[u]);
                            if u == v - 1 {
                            } else {
                                assert(lex_lt(pre[u], pre[v - 1]));
                            }
                        } else if u == j {
                            if v - 1 == j {
                            } else {
                                assert(lex_lt(p@, pre[j as int]));
                                assert(lex_lt(pre[j as int], pre[v - 1]));
                                lemma_lex_transitive(p@, pre[j as int], pre[v - 1]);
                            }
                        } else {
                            assert(post[u] == pre[u - 1]);
                            assert(lex_lt(pre[u - 1], pre[v - 1]));
                        }
                    }
                }
            }
        }
        proof {
            let post = path_views(r@);
            let taken = path_views(found@.take(idx as int + 1));
            let prev = path_views(found@.take(idx as int));
            assert(taken.len() == prev.len() + 1);
            assert forall|k: int| 0 <= k < prev.len() implies taken[k] == prev[k] by {
                assert(found@.take(idx as int + 1)[k] == found@.take(idx as int)[k]);
            }
            assert(taken[prev.len() as int] == p@);
            if dup {
                assert(post == pre);
                assert forall|x: Seq<u8>| taken.contains(x) implies post.contains(x) by {
                    let k = choose|k: int| 0 <= k < taken.len() && taken[k] == x;
                    if k < prev.len() {
                        assert(prev.contains(x));
                    } else {
                        assert(x == p@);
                        assert(pre[j as int] == r@[j as int]@);
                        assert(pre.contains(p@));
                    }
                }
                assert forall|x: Seq<u8>| post.contains(x) implies taken.contains(x) by {
                    assert(prev.contains(x));
                    let k = choose|k: int| 0 <= k < prev.len() && prev[k] == x;
                    assert(taken[k] == x);
                }
            } else {
                pre.insert_ensures(j as int, p@);
                assert(post =~= pre.insert(j as int, p@));
                assert forall|x: Seq<u8>| taken.contains(x) implies post.contains(x) by {
                    let k = choose|k: int| 0 <= k < taken.len() && taken[k] == x;
                    if k < prev.len() {
                        assert(prev.contains(x));
                        assert(pre.contains(x));
                        let m = choose|m: int| 0 <= m < pre.len() && pre[m] == x;
                        if m < j {
                            assert(post[m] == x);
                        } else {
                            assert(post[m + 1] == x);
                        }
                    } else {
                        assert(x == p@);
                        assert(post[j as int] == x);
                    }
                }
                assert forall|x: Seq<u8>| post.contains(x) implies taken.contains(x) by {
                    let k = choose|k: int| 0 <= k < post.len() && post[k] == x;
                    if k < j {
                        assert(pre[k] == x);
                        assert(prev.contains(x));
                        let m = choose|m: int| 0 <= m < prev.len() && prev[m] == x;
                        assert(taken[m] == x);
                    } else if k == j {
                        assert(x == p@);
                        assert(taken[prev.len() as int] == x);
                    } else {
                        assert(pre[k - 1] == x);
                        assert(prev.contains(x));
                        let m = choose|m: int| 0 <= m < prev.len() && prev[m] == x;
                        assert(taken[m] == x);
                    }
                }
            }
        }
        idx += 1;
    }
    proof {
        assert(found@.take(found@.len() as int) =~= found@);
    }
    r
}

} // verus!
