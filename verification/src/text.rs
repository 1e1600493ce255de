//! Text as sequences of characters: case folding, trimming, searching and
//! the conversions between strings and character vectors.
use vstd::prelude::*;

verus! {

/// `String::push` appends one character to the end of the string.
pub assume_specification[ String::push ](s: &mut String, c: char)
    ensures
        final(s)@ == old(s)@.push(c),
;

/// The characters with Unicode's `White_Space` property.
pub open spec fn is_white_space(c: char) -> bool {
    ||| '\u{9}' <= c <= '\u{d}'
    ||| c == '\u{20}'
    ||| c == '\u{85}'
    ||| c == '\u{a0}'
    ||| c == '\u{1680}'
    ||| '\u{2000}' <= c <= '\u{200a}'
    ||| c == '\u{2028}'
    ||| c == '\u{2029}'
    ||| c == '\u{202f}'
    ||| c == '\u{205f}'
    ||| c == '\u{3000}'
}

/// `char::is_whitespace` tests for the `White_Space` property.
pub assume_specification[ char::is_whitespace ](c: char) -> (r: bool)
    ensures
        r == is_white_space(c),
;

/// The characters of Unicode's general category `Cc`.
pub open spec fn is_control_char(c: char) -> bool {
    c <= '\u{1f}' || '\u{7f}' <= c <= '\u{9f}'
}

/// `char::is_control` tests for the general category `Cc`.
pub assume_specification[ char::is_control ](c: char) -> (r: bool)
    ensures
        r == is_control_char(c),
;

/// The characters of a string, in order.
pub fn to_chars(s: &str) -> (r: Vec<char>)
    ensures
        r@ == s@,
{
    let mut out: Vec<char> = Vec::new();
    for c in iter: s.chars()
        invariant
            iter.seq() == s@,
            out@ == s@.take(iter.index() as int),
    {
        out.push(c);
        proof {
            assert(s@.take(iter.index() + 1) =~= s@.take(iter.index() as int).push(c));
        }
    }
    proof {
        assert(s@.take(s@.len() as int) =~= s@);
    }
    out
}

/// Appends `chars[from..to]` to `out`.
pub fn push_chars(out: &mut String, chars: &Vec<char>, from: usize, to: usize)
    requires
        from <= to <= chars@.len(),
    ensures
        final(out)@ == old(out)@ + chars@.subrange(from as int, to as int),
{
    let ghost start = out@;
    let mut i: usize = from;
    while i < to
        invariant
            from <= i <= to <= chars@.len(),
            out@ == start + chars@.subrange(from as int, i as int),
        decreases to - i,
    {
        out.push(chars[i]);
        proof {
            assert(chars@.subrange(from as int, i + 1) =~= chars@.subrange(from as int, i as int).push(
                chars@[i as int],
            ));
            assert(start + chars@.subrange(from as int, i + 1) =~= (start + chars@.subrange(
                from as int,
                i as int,
            )).push(chars@[i as int]));
        }
        i = i + 1;
    }
    proof {
        assert(start + chars@.subrange(from as int, from as int) =~= start);
    }
}

/// The string made of `chars[from..to]`.
pub fn from_range(chars: &Vec<char>, from: usize, to: usize) -> (r: String)
    requires
        from <= to <= chars@.len(),
    ensures
        r@ == chars@.subrange(from as int, to as int),
{
    let mut out = String::new();
    push_chars(&mut out, chars, from, to);
    proof {
        assert(Seq::<char>::empty() + chars@.subrange(from as int, to as int) =~= chars@.subrange(
            from as int,
            to as int,
        ));
    }
    out
}

/// The string made of `chars`.
pub fn from_chars(chars: &Vec<char>) -> (r: String)
    ensures
        r@ == chars@,
{
    let r = from_range(chars, 0, chars.len());
    proof {
        assert(chars@.subrange(0, chars@.len() as int) =~= chars@);
    }
    r
}

/// A string of one's own.
pub fn owned(text: &str) -> (r: String)
    ensures
        r@ == text@,
{
    from_chars(&to_chars(text))
}

/// Whether two strings are the same text.
pub fn same_text(a: &str, b: &str) -> (r: bool)
    ensures
        r == (a@ == b@),
{
    let x = to_chars(a);
    let y = to_chars(b);
    same_chars(&x, &y)
}

/// Whether two character vectors are the same text.
pub fn same_chars(x: &Vec<char>, y: &Vec<char>) -> (r: bool)
    ensures
        r == (x@ == y@),
{
    if x.len() != y.len() {
        return false;
    }
    let mut i: usize = 0;
    while i < x.len()
        invariant
            i <= x@.len(),
            x@.len() == y@.len(),
            forall|k: int| 0 <= k < i ==> x@[k] == y@[k],
        decreases x@.len() - i,
    {
        if x[i] != y[i] {
            return false;
        }
        i = i + 1;
    }
    proof {
        assert(x@ =~= y@);
    }
    true
}

/// ASCII lower case of one character; every other character is kept.
pub open spec fn lower(c: char) -> char {
    if 'A' <= c <= 'Z' {
        (c as u8 + 32) as u8 as char
    } else {
        c
    }
}

/// ASCII lower case of a text.
pub open spec fn lower_seq(s: Seq<char>) -> Seq<char> {
    s.map_values(|c: char| lower(c))
}

/// ASCII lower case of one character.
pub fn ascii_lower(c: char) -> (r: char)
    ensures
        r == lower(c),
{
    if 'A' <= c && c <= 'Z' {
        (c as u8 + 32) as char
    } else {
        c
    }
}

/// ASCII lower case of a text.
pub fn lower_chars(s: &str) -> (r: Vec<char>)
    ensures
        r@ == lower_seq(s@),
{
    let x = to_chars(s);
    let mut out: Vec<char> = Vec::new();
    let mut i: usize = 0;
    while i < x.len()
        invariant
            i <= x@.len(),
            x@ == s@,
            out@ == lower_seq(s@).take(i as int),
        decreases x@.len() - i,
    {
        out.push(ascii_lower(x[i]));
        proof {
            assert(lower_seq(s@).take(i + 1) =~= lower_seq(s@).take(i as int).push(lower(s@[i as int])));
        }
        i = i + 1;
    }
    proof {
        assert(lower_seq(s@).take(s@.len() as int) =~= lower_seq(s@));
    }
    out
}

/// Whether two texts differ at most in ASCII case.
pub fn eq_ignore_ascii_case(a: &str, b: &str) -> (r: bool)
    ensures
        r == (lower_seq(a@) == lower_seq(b@)),
{
    let x = lower_chars(a);
    let y = lower_chars(b);
    same_chars(&x, &y)
}

/// Folding case twice is folding it once.
pub proof fn lower_seq_idempotent(s: Seq<char>)
    ensures
        lower_seq(lower_seq(s)) == lower_seq(s),
{
    assert forall|c: char| #[trigger] lower(lower(c)) == lower(c) by {
        if 'A' <= c <= 'Z' {
            assert('a' <= lower(c) <= 'z');
        }
    }
    assert(lower_seq(lower_seq(s)) =~= lower_seq(s));
}

/// Without its leading white space.
pub open spec fn trim_start_seq(s: Seq<char>) -> Seq<char>
    decreases s.len(),
{
    if s.len() > 0 && is_white_space(s[0]) {
        trim_start_seq(s.drop_first())
    } else {
        s
    }
}

/// Without its trailing white space.
pub open spec fn trim_end_seq(s: Seq<char>) -> Seq<char>
    decreases s.len(),
{
    if s.len() > 0 && is_white_space(s.last()) {
        trim_end_seq(s.drop_last())
    } else {
        s
    }
}

/// Without white space at either end.
pub open spec fn trim_seq(s: Seq<char>) -> Seq<char> {
    trim_end_seq(trim_start_seq(s))
}

/// The text without white space at either end.
pub fn trim(s: &str) -> (r: String)
    ensures
        r@ == trim_seq(s@),
{
    let x = to_chars(s);
    proof {
        assert(s@.skip(0) =~= s@);
    }
    let mut a: usize = 0;
    while a < x.len() && x[a].is_whitespace()
        invariant
            a <= x@.len(),
            x@ == s@,
            trim_start_seq(s@) == trim_start_seq(s@.skip(a as int)),
        decreases x@.len() - a,
    {
        proof {
            assert(s@.skip(a as int).drop_first() =~= s@.skip(a + 1));
        }
        a = a + 1;
    }
    proof {
        assert(trim_start_seq(s@) == s@.skip(a as int));
        assert(s@.skip(a as int) =~= s@.subrange(a as int, s@.len() as int));
    }
    let mut b: usize = x.len();
    while a < b && x[b - 1].is_whitespace()
        invariant
            a <= b <= x@.len(),
            x@ == s@,
            trim_seq(s@) == trim_end_seq(s@.subrange(a as int, b as int)),
        decreases b - a,
    {
        proof {
            assert(s@.subrange(a as int, b as int).drop_last() =~= s@.subrange(a as int, b - 1));
        }
        b = b - 1;
    }
    from_range(&x, a, b)
}

/// Whether the text is empty or white space throughout.
pub fn is_blank(s: &str) -> (r: bool)
    ensures
        r == (trim_seq(s@).len() == 0),
{
    let t = trim(s);
    t.unicode_len() == 0
}

/// A trimmed text is part of the text that was trimmed, and has no white space
/// at its ends.
pub proof fn trim_seq_shape(s: Seq<char>) -> (bounds: (int, int))
    ensures
        0 <= bounds.0 <= bounds.1 <= s.len(),
        trim_seq(s) == s.subrange(bounds.0, bounds.1),
        trim_seq(s).len() > 0 ==> !is_white_space(trim_seq(s)[0]) && !is_white_space(
            trim_seq(s).last(),
        ),
        trim_seq(s).len() == 0 <==> (forall|k: int| 0 <= k < s.len() ==> is_white_space(s[k])),
{
    let a = trim_start_shape(s);
    let t = trim_start_seq(s);
    let b = trim_end_shape(t);
    assert(trim_seq(s) =~= s.subrange(a, a + b));
    if trim_seq(s).len() == 0 {
        assert(t.len() == 0) by {
            if t.len() > 0 {
                assert(t[0] == s[a]);
                assert(is_white_space(t[0]));
            }
        }
    }
    if forall|k: int| 0 <= k < s.len() ==> is_white_space(s[k]) {
        if t.len() > 0 {
            assert(!is_white_space(s[a]));
        }
    }
    (a, a + b)
}

proof fn trim_start_shape(s: Seq<char>) -> (a: int)
    ensures
        0 <= a <= s.len(),
        trim_start_seq(s) == s.skip(a),
        forall|k: int| 0 <= k < a ==> is_white_space(s[k]),
        a < s.len() ==> !is_white_space(s[a]),
    decreases s.len(),
{
    if s.len() > 0 && is_white_space(s[0]) {
        let r = trim_start_shape(s.drop_first());
        assert(s.drop_first().skip(r) =~= s.skip(r + 1));
        assert forall|k: int| 0 <= k < r + 1 implies is_white_space(s[k]) by {
            if k > 0 {
                assert(s.drop_first()[k - 1] == s[k]);
            }
        }
        r + 1
    } else {
        assert(s.skip(0) =~= s);
        0
    }
}

proof fn trim_end_shape(s: Seq<char>) -> (b: int)
    ensures
        0 <= b <= s.len(),
        trim_end_seq(s) == s.take(b),
        forall|k: int| b <= k < s.len() ==> is_white_space(s[k]),
        b > 0 ==> !is_white_space(s[b - 1]),
    decreases s.len(),
{
    if s.len() > 0 && is_white_space(s.last()) {
        let r = trim_end_shape(s.drop_last());
        assert(s.drop_last().take(r) =~= s.take(r));
        assert forall|k: int| r <= k < s.len() implies is_white_space(s[k]) by {
            if k < s.len() - 1 {
                assert(s.drop_last()[k] == s[k]);
            }
        }
        if r > 0 {
            assert(s.drop_last()[r - 1] == s[r - 1]);
        }
        r
    } else {
        assert(s.take(s.len() as int) =~= s);
        s.len() as int
    }
}

/// A text that neither begins nor ends in white space is its own trimmed form.
pub proof fn trim_seq_fixed(s: Seq<char>)
    requires
        s.len() > 0 ==> !is_white_space(s[0]) && !is_white_space(s.last()),
    ensures
        trim_seq(s) == s,
{
}

/// Trimming twice is trimming once.
pub proof fn trim_seq_idempotent(s: Seq<char>)
    ensures
        trim_seq(trim_seq(s)) == trim_seq(s),
{
    let _ = trim_seq_shape(s);
    trim_seq_fixed(trim_seq(s));
}

/// Position of the first `c` at or after `from`; the length if there is none.
pub open spec fn find_from(s: Seq<char>, c: char, from: int) -> int
    decreases s.len() - from,
{
    if from >= s.len() {
        s.len() as int
    } else if s[from] == c {
        from
    } else {
        find_from(s, c, from + 1)
    }
}

/// `find_from` is the least position that holds `c`.
pub proof fn find_from_shape(s: Seq<char>, c: char, from: int)
    requires
        0 <= from <= s.len(),
    ensures
        from <= find_from(s, c, from) <= s.len(),
        forall|k: int| from <= k < find_from(s, c, from) ==> s[k] != c,
        find_from(s, c, from) < s.len() ==> s[find_from(s, c, from)] == c,
    decreases s.len() - from,
{
    if from < s.len() && s[from] != c {
        find_from_shape(s, c, from + 1);
    }
}

/// The least position that holds `c` is `find_from`.
pub proof fn find_from_is(s: Seq<char>, c: char, from: int, at: int)
    requires
        0 <= from <= at <= s.len(),
        forall|k: int| from <= k < at ==> s[k] != c,
        at < s.len() ==> s[at] == c,
    ensures
        find_from(s, c, from) == at,
    decreases at - from,
{
    if from < at {
        find_from_is(s, c, from + 1, at);
    }
}

/// Position of the first `c` at or after `from`; the length if there is none.
pub fn find_char(s: &Vec<char>, c: char, from: usize) -> (r: usize)
    requires
        from <= s@.len(),
    ensures
        r == find_from(s@, c, from as int),
        from <= r <= s@.len(),
{
    let mut i: usize = from;
    while i < s.len() && s[i] != c
        invariant
            from <= i <= s@.len(),
            find_from(s@, c, from as int) == find_from(s@, c, i as int),
        decreases s@.len() - i,
    {
        i = i + 1;
    }
    i
}

/// Whether `needle` occurs in `s` at `at`.
pub open spec fn occurs_at(s: Seq<char>, needle: Seq<char>, at: int) -> bool {
    0 <= at && at + needle.len() <= s.len() && s.subrange(at, at + needle.len()) == needle
}

/// Whether `needle` occurs somewhere in `s`.
pub open spec fn contains_seq(s: Seq<char>, needle: Seq<char>) -> bool {
    exists|at: int| occurs_at(s, needle, at)
}

/// Whether `needle` occurs somewhere in `s`.
pub fn contains_text(s: &str, needle: &str) -> (r: bool)
    ensures
        r == contains_seq(s@, needle@),
{
    let x = to_chars(s);
    let y = to_chars(needle);
    if y.len() > x.len() {
        proof {
            assert forall|at: int| !occurs_at(s@, needle@, at) by {}
        }
        return false;
    }
    let last: usize = x.len() - y.len();
    let mut at: usize = 0;
    loop
        invariant
            x@ == s@,
            y@ == needle@,
            y@.len() <= x@.len(),
            last == x@.len() - y@.len(),
            at <= last,
            forall|k: int| 0 <= k < at ==> !occurs_at(s@, needle@, k),
        decreases last - at,
    {
        if chars_at(&x, &y, at) {
            proof {
                assert(occurs_at(s@, needle@, at as int));
            }
            return true;
        }
        if at == last {
            proof {
                assert forall|k: int| !occurs_at(s@, needle@, k) by {
                    if 0 <= k && k > at {
                        assert(k + needle@.len() > s@.len());
                    }
                }
            }
            return false;
        }
        at = at + 1;
    }
}

/// Whether `y` occurs in `x` at `at`.
pub fn chars_at(x: &Vec<char>, y: &Vec<char>, at: usize) -> (r: bool)
    ensures
        r == occurs_at(x@, y@, at as int),
{
    if y.len() > x.len() || at > x.len() - y.len() {
        return false;
    }
    let n: usize = x.len();
    let mut i: usize = 0;
    while i < y.len()
        invariant
            i <= y@.len(),
            n == x@.len(),
            at + y@.len() <= n,
            forall|k: int| 0 <= k < i ==> x@[at + k] == y@[k],
        decreases y@.len() - i,
    {
        if x[at + i] != y[i] {
            proof {
                if occurs_at(x@, y@, at as int) {
                    assert(x@.subrange(at as int, at + y@.len())[i as int] == y@[i as int]);
                }
            }
            return false;
        }
        i = i + 1;
    }
    proof {
        assert(x@.subrange(at as int, at + y@.len()) =~= y@);
    }
    true
}

/// The first `limit` characters, or all of them if there are fewer.
pub open spec fn take_at_most(s: Seq<char>, limit: int) -> Seq<char> {
    if s.len() <= limit {
        s
    } else {
        s.take(limit)
    }
}

/// The first `limit` characters, or all of them if there are fewer.
pub fn bounded(s: &str, limit: usize) -> (r: String)
    ensures
        r@ == take_at_most(s@, limit as int),
        r@.len() <= limit,
{
    let x = to_chars(s);
    if x.len() <= limit {
        from_chars(&x)
    } else {
        let r = from_range(&x, 0, limit);
        proof {
            assert(s@.subrange(0, limit as int) =~= s@.take(limit as int));
        }
        r
    }
}

/// Lower case changes the letters from A to Z, each to the letter 32 places on,
/// and no other character; a text keeps its length.
pub proof fn lower_case_moves_capital_letters(s: Seq<char>, k: int)
    requires
        0 <= k < s.len(),
    ensures
        lower_seq(s).len() == s.len(),
        'A' <= s[k] <= 'Z' ==> lower_seq(s)[k] as int == s[k] as int + 32,
        !('A' <= s[k] <= 'Z') ==> lower_seq(s)[k] == s[k],
{
}

/// A text that is bounded is a beginning of it: all of it where it is short
/// enough, and as long as the bound where it is not.
pub proof fn bounded_text_is_a_beginning(s: Seq<char>, limit: int)
    requires
        0 <= limit,
    ensures
        s.len() <= limit ==> take_at_most(s, limit) == s,
        s.len() > limit ==> take_at_most(s, limit).len() == limit,
        forall|k: int|
            0 <= k < take_at_most(s, limit).len() ==> #[trigger] take_at_most(s, limit)[k] == s[k],
{
}

} // verus!
