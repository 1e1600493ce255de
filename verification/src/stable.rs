//! Picking places out of a list and putting them in order.
use vstd::prelude::*;

verus! {

/// Whether places stand in order, each before every later one.
pub open spec fn ordered_by(idx: Seq<int>, before: spec_fn(int, int) -> bool) -> bool {
    forall|i: int, j: int|
        0 <= i < j < idx.len() ==> #[trigger] before(idx[i], idx[j])
}

/// Whether `idx` holds the places below `n` that are to be kept, and no other.
pub open spec fn picks(idx: Seq<int>, n: int, keep: spec_fn(int) -> bool) -> bool {
    &&& forall|k: int| 0 <= k < idx.len() ==> 0 <= #[trigger] idx[k] < n && keep(idx[k])
    &&& forall|i: int| 0 <= i < n && #[trigger] keep(i) ==> idx.contains(i)
}

/// Whether of two places at most one is before the other.
pub open spec fn is_asymmetric(before: spec_fn(int, int) -> bool) -> bool {
    forall|i: int, j: int| #[trigger] before(i, j) ==> !before(j, i)
}

/// One more place, put where it belongs.
pub proof fn insert_in_order(
    idx: Seq<int>,
    at: int,
    i: int,
    before: spec_fn(int, int) -> bool,
)
    requires
        ordered_by(idx, before),
        0 <= at <= idx.len(),
        forall|k: int| 0 <= k < at ==> before(#[trigger] idx[k], i),
        forall|k: int| at <= k < idx.len() ==> before(i, #[trigger] idx[k]),
    ensures
        ordered_by(idx.insert(at, i), before),
{
    let n = idx.insert(at, i);
    assert forall|x: int, y: int| 0 <= x < y < n.len() implies #[trigger] before(n[x], n[y]) by {
        let a = if x < at {
            x
        } else {
            x - 1
        };
        let b = if y < at {
            y
        } else {
            y - 1
        };
        if x == at {
            assert(n[y] == idx[b]);
        } else if y == at {
            assert(n[x] == idx[a]);
        } else {
            assert(n[x] == idx[a] && n[y] == idx[b]);
            assert(before(idx[a], idx[b]));
        }
    }
}

/// The next place is picked.
pub proof fn pick_next(idx: Seq<int>, at: int, n: int, keep: spec_fn(int) -> bool)
    requires
        picks(idx, n, keep),
        0 <= at <= idx.len(),
        0 <= n,
        keep(n),
    ensures
        picks(idx.insert(at, n), n + 1, keep),
{
    let t = idx.insert(at, n);
    assert forall|k: int| 0 <= k < t.len() implies 0 <= #[trigger] t[k] < n + 1 && keep(t[k]) by {
        if k < at {
            assert(t[k] == idx[k]);
        } else if k > at {
            assert(t[k] == idx[k - 1]);
        }
    }
    assert forall|i: int| 0 <= i < n + 1 && #[trigger] keep(i) implies t.contains(i) by {
        if i == n {
            assert(t[at] == i);
        } else {
            assert(idx.contains(i));
            let k = choose|k: int| 0 <= k < idx.len() && idx[k] == i;
            let w = if k < at {
                k
            } else {
                k + 1
            };
            assert(t[w] == i);
        }
    }
}

/// The next place is passed over.
pub proof fn skip_next(idx: Seq<int>, n: int, keep: spec_fn(int) -> bool)
    requires
        picks(idx, n, keep),
        0 <= n,
        !keep(n),
    ensures
        picks(idx, n + 1, keep),
{
    assert forall|i: int| 0 <= i < n + 1 && #[trigger] keep(i) implies idx.contains(i) by {
        assert(i != n);
    }
}

/// What is picked, and in which order, is determined.
pub proof fn order_is_unique(
    a: Seq<int>,
    b: Seq<int>,
    n: int,
    keep: spec_fn(int) -> bool,
    before: spec_fn(int, int) -> bool,
)
    requires
        picks(a, n, keep),
        picks(b, n, keep),
        ordered_by(a, before),
        ordered_by(b, before),
        is_asymmetric(before),
    ensures
        a == b,
{
    assert forall|k: int| 0 <= k < a.len() implies b.contains(#[trigger] a[k]) by {
        assert(keep(a[k]));
    }
    assert forall|k: int| 0 <= k < b.len() implies a.contains(#[trigger] b[k]) by {
        assert(keep(b[k]));
    }
    same_members_same_order(a, b, before);
}

proof fn same_members_same_order(a: Seq<int>, b: Seq<int>, before: spec_fn(int, int) -> bool)
    requires
        ordered_by(a, before),
        ordered_by(b, before),
        is_asymmetric(before),
        forall|k: int| 0 <= k < a.len() ==> b.contains(#[trigger] a[k]),
        forall|k: int| 0 <= k < b.len() ==> a.contains(#[trigger] b[k]),
    ensures
        a == b,
    decreases a.len(),
{
    if a.len() == 0 {
        if b.len() > 0 {
            assert(a.contains(b[0]));
        }
        assert(a =~= b);
    } else {
        assert(b.contains(a[0]));
        let m = a.len() - 1;
        let n = b.len() - 1;
        assert(b.contains(a[m]));
        assert(a.contains(b[n]));
        let i = choose|i: int| 0 <= i < b.len() && b[i] == a[m];
        let j = choose|j: int| 0 <= j < a.len() && a[j] == b[n];
        if i < n && j < m {
            assert(before(b[i], b[n]));
            assert(before(a[j], a[m]));
        }
        assert(a[m] == b[n]);
        let a1 = a.drop_last();
        let b1 = b.drop_last();
        assert forall|k: int| 0 <= k < a1.len() implies b1.contains(#[trigger] a1[k]) by {
            assert(a1[k] == a[k]);
            assert(b.contains(a[k]));
            let w = choose|w: int| 0 <= w < b.len() && b[w] == a[k];
            if w == n {
                assert(before(a[k], a[m]));
                assert(!before(a[m], a[k]));
            }
            assert(b1[w] == a1[k]);
        }
        assert forall|k: int| 0 <= k < b1.len() implies a1.contains(#[trigger] b1[k]) by {
            assert(b1[k] == b[k]);
            assert(a.contains(b[k]));
            let w = choose|w: int| 0 <= w < a.len() && a[w] == b[k];
            if w == m {
                assert(before(b[k], b[n]));
                assert(!before(b[n], b[k]));
            }
            assert(a1[w] == b1[k]);
        }
        assert(ordered_by(a1, before)) by {
            assert forall|x: int, y: int| 0 <= x < y < a1.len() implies #[trigger] before(
                a1[x],
                a1[y],
            ) by {
                assert(before(a[x], a[y]));
            }
        }
        assert(ordered_by(b1, before)) by {
            assert forall|x: int, y: int| 0 <= x < y < b1.len() implies #[trigger] before(
                b1[x],
                b1[y],
            ) by {
                assert(before(b[x], b[y]));
            }
        }
        same_members_same_order(a1, b1, before);
        assert(a =~= a1.push(a[m]));
        assert(b =~= b1.push(b[n]));
    }
}

/// Whether of two different places one is before the other.
pub open spec fn is_total(before: spec_fn(int, int) -> bool) -> bool {
    forall|i: int, j: int| i != j ==> #[trigger] before(i, j) || before(j, i)
}

/// Whether what is before something is before all that follows it.
pub open spec fn is_transitive(before: spec_fn(int, int) -> bool) -> bool {
    forall|i: int, j: int, k: int|
        #[trigger] before(i, j) && #[trigger] before(j, k) ==> before(i, k)
}

proof fn place_in_order(idx: Seq<int>, i: int, before: spec_fn(int, int) -> bool) -> (at: int)
    requires
        ordered_by(idx, before),
        is_total(before),
        is_transitive(before),
        !idx.contains(i),
    ensures
        0 <= at <= idx.len(),
        forall|k: int| 0 <= k < at ==> before(#[trigger] idx[k], i),
        forall|k: int| at <= k < idx.len() ==> before(i, #[trigger] idx[k]),
    decreases idx.len(),
{
    if idx.len() == 0 {
        0
    } else {
        let n = idx.len() - 1;
        assert(idx[n] != i);
        if before(i, idx[n]) {
            let rest = idx.drop_last();
            assert forall|x: int, y: int| 0 <= x < y < rest.len() implies #[trigger] before(
                rest[x],
                rest[y],
            ) by {
                assert(before(idx[x], idx[y]));
            }
            assert(!rest.contains(i)) by {
                if rest.contains(i) {
                    let w = choose|w: int| 0 <= w < rest.len() && rest[w] == i;
                    assert(idx[w] == i);
                }
            }
            let at = place_in_order(rest, i, before);
            assert forall|k: int| 0 <= k < at implies before(#[trigger] idx[k], i) by {
                assert(rest[k] == idx[k]);
            }
            assert forall|k: int| at <= k < idx.len() implies before(i, #[trigger] idx[k]) by {
                if k < n {
                    assert(rest[k] == idx[k]);
                }
            }
            at
        } else {
            assert(before(idx[n], i));
            assert forall|k: int| 0 <= k < idx.len() implies before(#[trigger] idx[k], i) by {
                if k < n {
                    assert(before(idx[k], idx[n]));
                }
            }
            idx.len() as int
        }
    }
}

/// What is kept can be put in order.
pub proof fn order_exists(
    n: int,
    keep: spec_fn(int) -> bool,
    before: spec_fn(int, int) -> bool,
) -> (idx: Seq<int>)
    requires
        0 <= n,
        is_total(before),
        is_transitive(before),
    ensures
        picks(idx, n, keep),
        ordered_by(idx, before),
    decreases n,
{
    if n == 0 {
        Seq::empty()
    } else {
        let idx = order_exists(n - 1, keep, before);
        if keep(n - 1) {
            assert(!idx.contains(n - 1));
            let at = place_in_order(idx, n - 1, before);
            insert_in_order(idx, at, n - 1, before);
            pick_next(idx, at, n - 1, keep);
            idx.insert(at, n - 1)
        } else {
            skip_next(idx, n - 1, keep);
            idx
        }
    }
}

} // verus!
