//! Natural order of texts: runs of digits compare by their number, everything
//! else character by character without regard to ASCII case.
use std::cmp::Ordering;
use vstd::prelude::*;
use crate::decimal::{all_digits, digit_value, digits_value, is_digit};
use crate::text::{ascii_lower, lower, lower_seq, to_chars};

verus! {

/// How many digits a text begins with.
pub open spec fn run_len(s: Seq<char>) -> int
    decreases s.len(),
{
    if s.len() > 0 && is_digit(s[0]) {
        1 + run_len(s.drop_first())
    } else {
        0
    }
}

/// The sign of a difference.
pub open spec fn sign(n: int) -> int {
    if n < 0 {
        -1
    } else if n > 0 {
        1
    } else {
        0
    }
}

/// Runs of digits compare by value, then by length.
pub open spec fn numeric_order(x: Seq<char>, y: Seq<char>) -> int {
    if digits_value(x) != digits_value(y) {
        sign(digits_value(x) - digits_value(y))
    } else {
        sign(x.len() - y.len())
    }
}

/// Where `a` stands relative to `b`: negative before, positive behind, zero for
/// texts that differ in ASCII case alone.
pub open spec fn natural_order(a: Seq<char>, b: Seq<char>) -> int
    decreases a.len() + b.len(),
{
    if a.len() == 0 && b.len() == 0 {
        0
    } else if a.len() == 0 {
        -1
    } else if b.len() == 0 {
        1
    } else if is_digit(a[0]) && is_digit(b[0]) {
        let i = run_len(a);
        let j = run_len(b);
        let head = numeric_order(a.take(i), b.take(j));
        if head != 0 || !(1 <= i <= a.len() && 1 <= j <= b.len()) {
            head
        } else {
            natural_order(a.skip(i), b.skip(j))
        }
    } else if lower(a[0]) != lower(b[0]) {
        if lower(a[0]) < lower(b[0]) {
            -1
        } else {
            1
        }
    } else {
        natural_order(a.drop_first(), b.drop_first())
    }
}

pub proof fn run_len_shape(s: Seq<char>)
    ensures
        0 <= run_len(s) <= s.len(),
        s.len() > 0 && is_digit(s[0]) ==> run_len(s) >= 1,
        all_digits(s.take(run_len(s))),
        run_len(s) < s.len() ==> !is_digit(s[run_len(s)]),
    decreases s.len(),
{
    if s.len() > 0 && is_digit(s[0]) {
        let t = s.drop_first();
        run_len_shape(t);
        let n = run_len(s);
        assert forall|k: int| 0 <= k < n implies is_digit(s.take(n)[k]) by {
            if k > 0 {
                assert(t.take(run_len(t))[k - 1] == s[k]);
            }
        }
        if n < s.len() {
            assert(t[run_len(t)] == s[n]);
        }
    }
}

/// The length of a digit run is determined by the digits and what follows.
pub proof fn run_len_is(s: Seq<char>, n: int)
    requires
        0 <= n <= s.len(),
        forall|k: int| 0 <= k < n ==> is_digit(s[k]),
        n < s.len() ==> !is_digit(s[n]),
    ensures
        run_len(s) == n,
    decreases n,
{
    if n > 0 {
        let t = s.drop_first();
        assert forall|k: int| 0 <= k < n - 1 implies is_digit(t[k]) by {
            assert(t[k] == s[k + 1]);
        }
        if n < s.len() {
            assert(t[n - 1] == s[n]);
        }
        run_len_is(t, n - 1);
    }
}

/// The natural order is reflexive: a text stands where it stands itself.
pub proof fn natural_order_reflexive(a: Seq<char>)
    ensures
        natural_order(a, a) == 0,
    decreases a.len(),
{
    if a.len() > 0 {
        run_len_shape(a);
        if is_digit(a[0]) {
            natural_order_reflexive(a.skip(run_len(a)));
        } else {
            natural_order_reflexive(a.drop_first());
        }
    }
}

/// The natural order is antisymmetric: it reverses when the texts are swapped.
pub proof fn natural_order_antisymmetric(a: Seq<char>, b: Seq<char>)
    ensures
        natural_order(a, b) == -natural_order(b, a),
    decreases a.len() + b.len(),
{
    if a.len() > 0 && b.len() > 0 {
        run_len_shape(a);
        run_len_shape(b);
        if is_digit(a[0]) && is_digit(b[0]) {
            let i = run_len(a);
            let j = run_len(b);
            if numeric_order(a.take(i), b.take(j)) == 0 {
                natural_order_antisymmetric(a.skip(i), b.skip(j));
            }
        } else if lower(a[0]) == lower(b[0]) {
            natural_order_antisymmetric(a.drop_first(), b.drop_first());
        }
    }
}

/// The natural order is transitive: with the antisymmetry and the reflexivity
/// it is a total order of texts up to ASCII case.
pub proof fn natural_order_transitive(a: Seq<char>, b: Seq<char>, c: Seq<char>)
    requires
        natural_order(a, b) <= 0,
        natural_order(b, c) <= 0,
    ensures
        natural_order(a, c) <= 0,
        natural_order(a, b) < 0 || natural_order(b, c) < 0 ==> natural_order(a, c) < 0,
    decreases a.len() + b.len() + c.len(),
{
    if a.len() > 0 && b.len() > 0 && c.len() > 0 {
        run_len_shape(a);
        run_len_shape(b);
        run_len_shape(c);
        let i = run_len(a);
        let j = run_len(b);
        let k = run_len(c);
        if is_digit(a[0]) && is_digit(b[0]) && is_digit(c[0]) {
            if numeric_order(a.take(i), b.take(j)) == 0 && numeric_order(b.take(j), c.take(k))
                == 0 {
                natural_order_transitive(a.skip(i), b.skip(j), c.skip(k));
            }
        } else {
            lower_keeps_digits(a[0]);
            lower_keeps_digits(b[0]);
            lower_keeps_digits(c[0]);
            if !is_digit(a[0]) && !is_digit(b[0]) && !is_digit(c[0]) && lower(a[0]) == lower(b[0])
                && lower(b[0]) == lower(c[0]) {
                natural_order_transitive(a.drop_first(), b.drop_first(), c.drop_first());
            }
        }
    }
}

proof fn lower_keeps_digits(c: char)
    ensures
        is_digit(lower(c)) == is_digit(c),
        is_digit(c) ==> lower(c) == c,
{
}

/// Digit runs of one length and one value are the same.
pub proof fn digits_value_injective(x: Seq<char>, y: Seq<char>)
    requires
        all_digits(x),
        all_digits(y),
        x.len() == y.len(),
        digits_value(x) == digits_value(y),
    ensures
        x == y,
    decreases x.len(),
{
    if x.len() > 0 {
        assert(is_digit(x.last()) && is_digit(y.last()));
        let p = digits_value(x.drop_last());
        let q = digits_value(y.drop_last());
        assert(p == q && digit_value(x.last()) == digit_value(y.last()));
        assert forall|k: int| 0 <= k < x.len() - 1 implies is_digit(x.drop_last()[k]) by {
            assert(x.drop_last()[k] == x[k]);
        }
        assert forall|k: int| 0 <= k < y.len() - 1 implies is_digit(y.drop_last()[k]) by {
            assert(y.drop_last()[k] == y[k]);
        }
        digits_value_injective(x.drop_last(), y.drop_last());
        assert(x =~= x.drop_last().push(x.last()));
        assert(y =~= y.drop_last().push(y.last()));
    } else {
        assert(x =~= y);
    }
}

/// Two texts stand at the same place exactly if they differ in ASCII case alone.
pub proof fn natural_order_zero(a: Seq<char>, b: Seq<char>)
    ensures
        natural_order(a, b) == 0 <==> lower_seq(a) == lower_seq(b),
    decreases a.len() + b.len(),
{
    let la = lower_seq(a);
    let lb = lower_seq(b);
    if a.len() == 0 || b.len() == 0 {
        assert(a.len() == 0 && b.len() == 0 ==> la =~= lb);
    } else {
        run_len_shape(a);
        run_len_shape(b);
        lower_keeps_digits(a[0]);
        lower_keeps_digits(b[0]);
        if is_digit(a[0]) && is_digit(b[0]) {
            let i = run_len(a);
            let j = run_len(b);
            natural_order_zero(a.skip(i), b.skip(j));
            if la == lb {
                assert(la.len() == a.len() && lb.len() == b.len());
                same_lower_same_run(a, b);
                assert(a.take(i) =~= b.take(j)) by {
                    assert forall|k: int| 0 <= k < i implies a[k] == b[k] by {
                        assert(a.take(i)[k] == a[k]);
                        assert(b.take(j)[k] == b[k]);
                        lower_keeps_digits(a[k]);
                        lower_keeps_digits(b[k]);
                        assert(la[k] == lb[k]);
                    }
                }
                assert(lower_seq(a.skip(i)) =~= la.skip(i));
                assert(lower_seq(b.skip(j)) =~= lb.skip(j));
            } else if natural_order(a, b) == 0 {
                digits_value_injective(a.take(i), b.take(j));
                assert(lower_seq(a.skip(i)) =~= la.skip(i));
                assert(lower_seq(b.skip(j)) =~= lb.skip(j));
                assert(la =~= lower_seq(a.take(i)) + la.skip(i));
                assert(lb =~= lower_seq(b.take(j)) + lb.skip(j));
            }
        } else if lower(a[0]) != lower(b[0]) {
            if la == lb {
                assert(la[0] == lb[0]);
            }
        } else {
            natural_order_zero(a.drop_first(), b.drop_first());
            assert(lower_seq(a.drop_first()) =~= la.drop_first());
            assert(lower_seq(b.drop_first()) =~= lb.drop_first());
            assert(la =~= seq![lower(a[0])] + la.drop_first());
            assert(lb =~= seq![lower(b[0])] + lb.drop_first());
        }
    }
}

proof fn same_lower_same_run(a: Seq<char>, b: Seq<char>)
    requires
        lower_seq(a) == lower_seq(b),
    ensures
        run_len(a) == run_len(b),
{
    run_len_shape(a);
    let n = run_len(a);
    assert(a.len() == lower_seq(a).len() && b.len() == lower_seq(b).len());
    assert forall|k: int| 0 <= k < a.len() implies is_digit(a[k]) == is_digit(b[k]) by {
        lower_keeps_digits(a[k]);
        lower_keeps_digits(b[k]);
        assert(lower_seq(a)[k] == lower(a[k]));
        assert(lower_seq(b)[k] == lower(b[k]));
    }
    assert forall|k: int| 0 <= k < n implies is_digit(b[k]) by {
        assert(a.take(n)[k] == a[k]);
    }
    run_len_is(b, n);
}

/// How many leading zeros a digit run has.
pub open spec fn zero_len(s: Seq<char>) -> int
    decreases s.len(),
{
    if s.len() > 0 && s[0] == '0' {
        1 + zero_len(s.drop_first())
    } else {
        0
    }
}

pub proof fn digits_value_front(s: Seq<char>)
    requires
        s.len() > 0,
        all_digits(s),
    ensures
        digits_value(s) == digit_value(s[0]) * vstd::arithmetic::power::pow(
            10,
            (s.len() - 1) as nat,
        ) + digits_value(s.drop_first()),
        0 <= digits_value(s) < vstd::arithmetic::power::pow(10, s.len() as nat),
    decreases s.len(),
{
    vstd::arithmetic::power::lemma_pow1(10);
    vstd::arithmetic::power::lemma_pow0(10);
    let p = vstd::arithmetic::power::pow(10, (s.len() - 1) as nat);
    vstd::arithmetic::power::lemma_pow_adds(10, (s.len() - 1) as nat, 1);
    assert(is_digit(s[0]));
    if s.len() == 1 {
        assert(s.drop_last() =~= Seq::<char>::empty());
        assert(s.drop_first() =~= Seq::<char>::empty());
        assert(digits_value(Seq::<char>::empty()) == 0);
    } else {
        let t = s.drop_last();
        assert forall|k: int| 0 <= k < t.len() implies is_digit(t[k]) by {
            assert(t[k] == s[k]);
        }
        digits_value_front(t);
        assert(is_digit(s.last()));
        assert(t.drop_first() =~= s.drop_first().drop_last());
        assert(s.drop_first().last() == s.last());
        let q = vstd::arithmetic::power::pow(10, (s.len() - 2) as nat);
        vstd::arithmetic::power::lemma_pow_adds(10, (s.len() - 2) as nat, 1);
        let d = digit_value(s[0]) as int;
        assert(10 * (d * q) == d * p) by (nonlinear_arith)
            requires
                p == q * 10,
        ;
        assert(digits_value(t) < p);
    }
}

pub proof fn prefix_decides(x: Seq<char>, y: Seq<char>, k: int)
    requires
        all_digits(x),
        all_digits(y),
        x.len() == y.len(),
        0 <= k < x.len(),
        forall|i: int| 0 <= i < k ==> x[i] == y[i],
        x[k] < y[k],
    ensures
        digits_value(x) < digits_value(y),
    decreases x.len(),
{
    digits_value_front(x);
    digits_value_front(y);
    let x1 = x.drop_first();
    let y1 = y.drop_first();
    assert forall|i: int| 0 <= i < x1.len() implies is_digit(x1[i]) && is_digit(y1[i]) by {
        assert(x1[i] == x[i + 1] && y1[i] == y[i + 1]);
        assert(is_digit(x[i + 1]) && is_digit(y[i + 1]));
    }
    let p = vstd::arithmetic::power::pow(10, (x.len() - 1) as nat);
    if k > 0 {
        assert(x[0] == y[0]);
        prefix_decides(x1, y1, k - 1);
    } else {
        assert(is_digit(x[0]) && is_digit(y[0]));
        assert(digits_value(x1) < p) by {
            if x1.len() > 0 {
                digits_value_front(x1);
            } else {
                vstd::arithmetic::power::lemma_pow0(10);
            }
        }
        let a = digit_value(x[0]) as int;
        let b = digit_value(y[0]) as int;
        assert(a * p + p <= b * p) by (nonlinear_arith)
            requires
                a + 1 <= b,
                p >= 0,
        ;
    }
}

proof fn shorter_is_smaller(x: Seq<char>, y: Seq<char>)
    requires
        all_digits(x),
        all_digits(y),
        x.len() < y.len(),
        y[0] != '0',
    ensures
        digits_value(x) < digits_value(y),
{
    digits_value_front(y);
    let p = vstd::arithmetic::power::pow(10, (y.len() - 1) as nat);
    assert(digits_value(x) < p) by {
        vstd::arithmetic::power::lemma_pow0(10);
        vstd::arithmetic::power::lemma_pow_increases(10, x.len() as nat, (y.len() - 1) as nat);
        if x.len() > 0 {
            digits_value_front(x);
        }
    }
    assert(is_digit(y[0]));
    let d = digit_value(y[0]) as int;
    assert(d * p >= p) by (nonlinear_arith)
        requires
            d >= 1,
            p >= 0,
    ;
}

proof fn zeros_add_nothing(s: Seq<char>, n: int)
    requires
        all_digits(s),
        0 <= n <= s.len(),
        forall|k: int| 0 <= k < n ==> s[k] == '0',
    ensures
        digits_value(s) == digits_value(s.skip(n)),
    decreases n,
{
    if n == 0 {
        assert(s.skip(0) =~= s);
    } else {
        digits_value_front(s);
        let t = s.drop_first();
        assert(digit_value(s[0]) == 0);
        assert(0int * vstd::arithmetic::power::pow(10, (s.len() - 1) as nat) == 0)
            by (nonlinear_arith);
        assert forall|k: int| 0 <= k < t.len() implies is_digit(t[k]) by {
            assert(is_digit(s[k + 1]));
        }
        zeros_add_nothing(t, n - 1);
        assert(t.skip(n - 1) =~= s.skip(n));
    }
}

/// Where a number stands relative to another, as a sign.
pub open spec fn ordering_sign(o: Ordering) -> int {
    match o {
        Ordering::Less => -1,
        Ordering::Equal => 0,
        Ordering::Greater => 1,
    }
}

fn order_lengths(a: usize, b: usize) -> (r: Ordering)
    ensures
        ordering_sign(r) == sign(a - b),
{
    if a < b {
        Ordering::Less
    } else if a > b {
        Ordering::Greater
    } else {
        Ordering::Equal
    }
}

/// How many zeros `s[from..to]` begins with.
fn count_zeros(s: &Vec<char>, from: usize, to: usize) -> (r: usize)
    requires
        from <= to <= s@.len(),
    ensures
        r <= to - from,
        forall|k: int| from <= k < from + r ==> s@[k] == '0',
        from + r < to ==> s@[from + r] != '0',
{
    let mut i: usize = from;
    while i < to && s[i] == '0'
        invariant
            from <= i <= to <= s@.len(),
            forall|k: int| from <= k < i ==> s@[k] == '0',
        decreases to - i,
    {
        i = i + 1;
    }
    i - from
}

/// Compares the digit runs `a[i..ie]` and `b[j..je]` by value, then by length,
/// whatever their lengths.
fn cmp_numeric(a: &Vec<char>, i: usize, ie: usize, b: &Vec<char>, j: usize, je: usize) -> (r:
    Ordering)
    requires
        i <= ie <= a@.len(),
        j <= je <= b@.len(),
        all_digits(a@.subrange(int_of(i), int_of(ie))),
        all_digits(b@.subrange(int_of(j), int_of(je))),
    ensures
        ordering_sign(r) == numeric_order(
            a@.subrange(int_of(i), int_of(ie)),
            b@.subrange(int_of(j), int_of(je)),
        ),
{
    let zi: usize = i + count_zeros(a, i, ie);
    let zj: usize = j + count_zeros(b, j, je);
    let ghost x = a@.subrange(int_of(i), int_of(ie));
    let ghost y = b@.subrange(int_of(j), int_of(je));
    let ghost x0 = a@.subrange(int_of(zi), int_of(ie));
    let ghost y0 = b@.subrange(int_of(zj), int_of(je));
    proof {
        assert(x0 =~= x.skip(zi - i));
        assert(y0 =~= y.skip(zj - j));
        zeros_add_nothing(x, zi - i);
        zeros_add_nothing(y, zj - j);
        assert forall|k: int| 0 <= k < x0.len() implies is_digit(x0[k]) by {
            assert(x0[k] == x[k + zi - i]);
        }
        assert forall|k: int| 0 <= k < y0.len() implies is_digit(y0[k]) by {
            assert(y0[k] == y[k + zj - j]);
        }
    }
    let la: usize = ie - zi;
    let lb: usize = je - zj;
    if la < lb {
        proof {
            shorter_is_smaller(x0, y0);
        }
        return Ordering::Less;
    }
    if la > lb {
        proof {
            shorter_is_smaller(y0, x0);
        }
        return Ordering::Greater;
    }
    let mut k: usize = 0;
    while k < la
        invariant
            k <= la,
            zi + la == ie,
            zj + la == je,
            ie <= a@.len(),
            je <= b@.len(),
            i <= zi,
            j <= zj,
            x0 == a@.subrange(int_of(zi), int_of(ie)),
            y0 == b@.subrange(int_of(zj), int_of(je)),
            x == a@.subrange(int_of(i), int_of(ie)),
            y == b@.subrange(int_of(j), int_of(je)),
            digits_value(x) == digits_value(x0),
            digits_value(y) == digits_value(y0),
            all_digits(x0),
            all_digits(y0),
            forall|n: int| 0 <= n < k ==> x0[n] == y0[n],
        decreases la - k,
    {
        let ca = a[zi + k];
        let cb = b[zj + k];
        proof {
            assert(x0[int_of(k)] == ca);
            assert(y0[int_of(k)] == cb);
        }
        if ca < cb {
            proof {
                prefix_decides(x0, y0, int_of(k));
            }
            return Ordering::Less;
        }
        if ca > cb {
            proof {
                prefix_decides(y0, x0, int_of(k));
            }
            return Ordering::Greater;
        }
        k = k + 1;
    }
    proof {
        assert(x0 =~= y0);
    }
    order_lengths(ie - i, je - j)
}

/// A number as an integer of the model.
pub open spec fn int_of(n: usize) -> int {
    n as int
}

/// Where the digit run that begins at `from` ends.
fn take_digits(s: &Vec<char>, from: usize) -> (r: usize)
    requires
        from <= s@.len(),
    ensures
        from <= r <= s@.len(),
        r - from == run_len(s@.skip(from as int)),
{
    let mut i: usize = from;
    while i < s.len() && '0' <= s[i] && s[i] <= '9'
        invariant
            from <= i <= s@.len(),
            forall|k: int| from <= k < i ==> is_digit(s@[k]),
        decreases s@.len() - i,
    {
        i = i + 1;
    }
    proof {
        let t = s@.skip(from as int);
        assert forall|k: int| 0 <= k < i - from implies is_digit(t[k]) by {
            assert(t[k] == s@[from + k]);
        }
        run_len_is(t, i - from);
    }
    i
}

/// Compares two texts in natural order.
pub fn natural_cmp(a: &str, b: &str) -> (r: Ordering)
    ensures
        ordering_sign(r) == natural_order(a@, b@),
{
    let x = to_chars(a);
    let y = to_chars(b);
    let mut i: usize = 0;
    let mut j: usize = 0;
    proof {
        assert(a@.skip(0) =~= a@);
        assert(b@.skip(0) =~= b@);
    }
    loop
        invariant
            x@ == a@,
            y@ == b@,
            i <= x@.len(),
            j <= y@.len(),
            natural_order(a@, b@) == natural_order(a@.skip(int_of(i)), b@.skip(int_of(j))),
        decreases x@.len() - i,
    {
        if i == x.len() {
            return if j == y.len() {
                Ordering::Equal
            } else {
                Ordering::Less
            };
        }
        if j == y.len() {
            return Ordering::Greater;
        }
        let ca = x[i];
        let cb = y[j];
        let ghost s = a@.skip(int_of(i));
        let ghost t = b@.skip(int_of(j));
        proof {
            assert(s[0] == ca && t[0] == cb);
        }
        if '0' <= ca && ca <= '9' && '0' <= cb && cb <= '9' {
            let ie: usize = take_digits(&x, i);
            let je: usize = take_digits(&y, j);
            proof {
                run_len_shape(s);
                run_len_shape(t);
                assert(s.take(run_len(s)) =~= x@.subrange(int_of(i), int_of(ie)));
                assert(t.take(run_len(t)) =~= y@.subrange(int_of(j), int_of(je)));
                assert(s.skip(run_len(s)) =~= a@.skip(int_of(ie)));
                assert(t.skip(run_len(t)) =~= b@.skip(int_of(je)));
            }
            match cmp_numeric(&x, i, ie, &y, j, je) {
                Ordering::Equal => {
                    i = ie;
                    j = je;
                },
                other => {
                    return other;
                },
            }
        } else {
            let la = ascii_lower(ca);
            let lb = ascii_lower(cb);
            if la < lb {
                return Ordering::Less;
            }
            if la > lb {
                return Ordering::Greater;
            }
            proof {
                assert(s.drop_first() =~= a@.skip(i + 1));
                assert(t.drop_first() =~= b@.skip(j + 1));
            }
            i = i + 1;
            j = j + 1;
        }
    }
}

/// A text comes before its continuations, and at the first difference the smaller
/// letter comes first, whatever its case.
pub proof fn letters_rise(a: char, b: char, x: Seq<char>, y: Seq<char>)
    requires
        !is_digit(a) || !is_digit(b),
        lower_seq(seq![a])[0] < lower_seq(seq![b])[0],
    ensures
        natural_order(seq![a] + x, seq![b] + y) < 0,
        natural_order(Seq::empty(), seq![b] + y) < 0,
        natural_order(seq![b] + y, Seq::empty()) > 0,
{
    let p = seq![a] + x;
    let q = seq![b] + y;
    assert(p[0] == a && q[0] == b);
    assert(p.len() > 0 && q.len() > 0);
}

/// Numbers in a text go by their value: the smaller number comes first, however many
/// digits it is written with.
pub proof fn numbers_rise(x: Seq<char>, y: Seq<char>)
    requires
        x.len() > 0,
        y.len() > 0,
        forall|k: int| 0 <= k < x.len() ==> is_digit(#[trigger] x[k]),
        forall|k: int| 0 <= k < y.len() ==> is_digit(#[trigger] y[k]),
        digits_value(x) < digits_value(y),
    ensures
        natural_order(x, y) < 0,
        natural_order(y, x) > 0,
{
    run_len_is(x, x.len() as int);
    run_len_is(y, y.len() as int);
    assert(x.take(x.len() as int) =~= x);
    assert(y.take(y.len() as int) =~= y);
    assert(is_digit(x[0]) && is_digit(y[0]));
}

} // verus!
