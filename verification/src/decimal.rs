//! Unsigned decimal numbers as text.
use vstd::prelude::*;

verus! {

/// The character of one decimal digit.
pub open spec fn digit_char(d: nat) -> char {
    if d == 0 {
        '0'
    } else if d == 1 {
        '1'
    } else if d == 2 {
        '2'
    } else if d == 3 {
        '3'
    } else if d == 4 {
        '4'
    } else if d == 5 {
        '5'
    } else if d == 6 {
        '6'
    } else if d == 7 {
        '7'
    } else if d == 8 {
        '8'
    } else {
        '9'
    }
}

/// Whether a character is an ASCII decimal digit.
pub open spec fn is_digit(c: char) -> bool {
    '0' <= c <= '9'
}

/// The number that a decimal digit stands for.
pub open spec fn digit_value(c: char) -> nat {
    (c as int - '0' as int) as nat
}

/// The shortest decimal form of a number.
pub open spec fn digits(n: nat) -> Seq<char>
    decreases n,
{
    if n < 10 {
        seq![digit_char(n)]
    } else {
        digits(n / 10).push(digit_char(n % 10))
    }
}

/// `count` zeros.
pub open spec fn zeros(count: nat) -> Seq<char> {
    Seq::new(count, |i: int| '0')
}

/// The decimal form of a number, filled up with zeros on the left to `width`.
pub open spec fn padded(n: nat, width: nat) -> Seq<char> {
    if digits(n).len() < width {
        zeros((width - digits(n).len()) as nat) + digits(n)
    } else {
        digits(n)
    }
}

/// Whether every character is a decimal digit.
pub open spec fn all_digits(s: Seq<char>) -> bool {
    forall|k: int| 0 <= k < s.len() ==> is_digit(s[k])
}

/// The number that a run of digits stands for.
pub open spec fn digits_value(s: Seq<char>) -> nat
    decreases s.len(),
{
    if s.len() == 0 {
        0
    } else {
        10 * digits_value(s.drop_last()) + digit_value(s.last())
    }
}

/// A text without one leading plus sign.
pub open spec fn without_plus(s: Seq<char>) -> Seq<char> {
    if s.len() > 0 && s[0] == '+' {
        s.drop_first()
    } else {
        s
    }
}

/// The number that a text stands for: an optional plus sign, then at least one
/// digit and nothing else, with a value of at most `max`.
pub open spec fn parse_unsigned(s: Seq<char>, max: nat) -> Option<nat> {
    let body = without_plus(s);
    if body.len() > 0 && all_digits(body) && digits_value(body) <= max {
        Some(digits_value(body))
    } else {
        None
    }
}

/// The `u64` that a text stands for, if it stands for one.
pub open spec fn parse_u64_seq(s: Seq<char>) -> Option<u64> {
    match parse_unsigned(s, u64::MAX as nat) {
        Some(n) => Some(n as u64),
        None => None,
    }
}

fn digit_of(d: u64) -> (r: char)
    requires
        d < 10,
    ensures
        r == digit_char(d as nat),
{
    (48 + d as u8) as char
}

/// Appends the shortest decimal form of `n`.
pub fn push_decimal(out: &mut String, n: u64)
    ensures
        final(out)@ == old(out)@ + digits(n as nat),
    decreases n,
{
    if n >= 10 {
        push_decimal(out, n / 10);
    }
    out.push(digit_of(n % 10));
    proof {
        assert(final(out)@ =~= old(out)@ + digits(n as nat));
    }
}

/// The shortest decimal form of `n`.
pub fn decimal(n: u64) -> (r: String)
    ensures
        r@ == digits(n as nat),
{
    let mut out = String::new();
    push_decimal(&mut out, n);
    proof {
        assert(out@ =~= digits(n as nat));
    }
    out
}

/// Appends `n` in decimal, filled up with zeros on the left to `width`.
pub fn push_padded(out: &mut String, n: u64, width: usize)
    ensures
        final(out)@ == old(out)@ + padded(n as nat, width as nat),
{
    let ghost start = out@;
    let text = decimal(n);
    let len: usize = text.as_str().unicode_len();
    let mut i: usize = len;
    while i < width
        invariant
            len == digits(n as nat).len(),
            len <= i,
            i <= width || i == len,
            out@ == start + zeros((i - len) as nat),
        decreases width - i,
    {
        out.push('0');
        proof {
            assert(out@ =~= start + zeros((i + 1 - len) as nat));
        }
        i = i + 1;
    }
    push_decimal(out, n);
    proof {
        assert(out@ =~= start + padded(n as nat, width as nat));
    }
}

/// The `u64` that a text stands for, if it stands for one.
pub fn parse_u64(s: &str) -> (r: Option<u64>)
    ensures
        r == parse_u64_seq(s@),
{
    let x = crate::text::to_chars(s);
    let from: usize = if x.len() > 0 && x[0] == '+' {
        1
    } else {
        0
    };
    let ghost body = without_plus(s@);
    proof {
        assert(body =~= x@.skip(from as int));
    }
    if from == x.len() {
        return None;
    }
    let mut acc: u64 = 0;
    let mut i: usize = from;
    while i < x.len()
        invariant
            from <= i <= x@.len(),
            from < x@.len(),
            body == x@.skip(from as int),
            body == without_plus(s@),
            forall|k: int| 0 <= k < i - from ==> is_digit(body[k]),
            acc == digits_value(body.take(i - from)),
        decreases x@.len() - i,
    {
        let c = x[i];
        if c < '0' || c > '9' {
            proof {
                assert(!is_digit(body[i - from]));
            }
            return None;
        }
        let d: u64 = c as u64 - 48;
        proof {
            assert(body.take(i + 1 - from).drop_last() =~= body.take(i - from));
            assert(digits_value(body.take(i + 1 - from)) == 10 * acc + d);
            digits_value_grows(body, i + 1 - from);
        }
        if acc > u64::MAX / 10 || acc * 10 > u64::MAX - d {
            return None;
        }
        acc = acc * 10 + d;
        i = i + 1;
    }
    proof {
        assert(body.take(body.len() as int) =~= body);
    }
    Some(acc)
}

proof fn digits_value_grows(s: Seq<char>, k: int)
    requires
        0 <= k <= s.len(),
    ensures
        digits_value(s.take(k)) <= digits_value(s),
    decreases s.len(),
{
    if k == s.len() {
        assert(s.take(k) =~= s);
    } else {
        digits_value_grows(s.drop_last(), k);
        assert(s.drop_last().take(k) =~= s.take(k));
    }
}

/// A decimal form is made of digits and stands for its number.
pub proof fn digits_shape(n: nat)
    ensures
        digits(n).len() > 0,
        all_digits(digits(n)),
        digits_value(digits(n)) == n,
    decreases n,
{
    if n < 10 {
        assert(digits(n).drop_last() =~= Seq::<char>::empty());
        assert(digits_value(Seq::<char>::empty()) == 0);
    } else {
        digits_shape(n / 10);
        assert(digits(n).drop_last() =~= digits(n / 10));
        assert(digits(n).last() == digit_char(n % 10));
    }
}

/// Reading back a number that was written gives the number.
pub proof fn parse_of_digits(n: u64)
    ensures
        parse_u64_seq(digits(n as nat)) == Some(n),
{
    digits_shape(n as nat);
    assert(is_digit(digits(n as nat)[0]));
    assert(without_plus(digits(n as nat)) == digits(n as nat));
}

/// A number below ten to the power of `width` takes at most `width` digits.
pub proof fn digits_len_bound(n: nat, width: nat)
    requires
        width > 0,
        n < vstd::arithmetic::power::pow(10, width),
    ensures
        digits(n).len() <= width,
    decreases width,
{
    vstd::arithmetic::power::lemma_pow1(10);
    if n >= 10 {
        if width == 1 {
            assert(false);
        }
        vstd::arithmetic::power::lemma_pow_adds(10, (width - 1) as nat, 1);
        assert(n / 10 < vstd::arithmetic::power::pow(10, (width - 1) as nat)) by (nonlinear_arith)
            requires
                n < vstd::arithmetic::power::pow(10, (width - 1) as nat) * 10,
        ;
        digits_len_bound(n / 10, (width - 1) as nat);
    }
}

} // verus!
