//! Line-oriented storage: lines, tab-separated fields and the escapes that
//! keep tabs and line breaks out of a field.
use vstd::prelude::*;
use crate::text::{find_char, find_from, find_from_is, find_from_shape, from_chars, from_range, to_chars};

verus! {

/// The texts of a sequence of strings.
pub open spec fn texts(v: Seq<String>) -> Seq<Seq<char>> {
    v.map_values(|x: String| x@)
}

/// How one character stands in a field.
pub open spec fn escape_char(c: char) -> Seq<char> {
    if c == '\\' {
        seq!['\\', '\\']
    } else if c == '\t' {
        seq!['\\', 't']
    } else if c == '\n' {
        seq!['\\', 'n']
    } else if c == '\r' {
        seq!['\\', 'r']
    } else {
        seq![c]
    }
}

/// How a text stands in a field.
pub open spec fn escape_seq(s: Seq<char>) -> Seq<char>
    decreases s.len(),
{
    if s.len() == 0 {
        Seq::empty()
    } else {
        escape_char(s[0]) + escape_seq(s.drop_first())
    }
}

/// The character that stands behind a backslash in a field.
pub open spec fn escaped_meaning(c: char) -> Option<char> {
    if c == '\\' {
        Some('\\')
    } else if c == 't' {
        Some('\t')
    } else if c == 'n' {
        Some('\n')
    } else if c == 'r' {
        Some('\r')
    } else {
        None
    }
}

/// The text that a field holds, if its escapes are well formed.
pub open spec fn unescape_seq(s: Seq<char>) -> Option<Seq<char>>
    decreases s.len(),
{
    if s.len() == 0 {
        Some(Seq::empty())
    } else if s[0] != '\\' {
        match unescape_seq(s.drop_first()) {
            Some(rest) => Some(seq![s[0]] + rest),
            None => None,
        }
    } else if s.len() < 2 {
        None
    } else {
        match (escaped_meaning(s[1]), unescape_seq(s.skip(2))) {
            (Some(c), Some(rest)) => Some(seq![c] + rest),
            _ => None,
        }
    }
}

/// Writes a text as a field.
pub fn escape_field(value: &str) -> (r: String)
    ensures
        r@ == escape_seq(value@),
{
    let x = to_chars(value);
    let mut out: Vec<char> = Vec::new();
    let mut i: usize = 0;
    while i < x.len()
        invariant
            i <= x@.len(),
            x@ == value@,
            out@ == escape_seq(value@.take(i as int)),
        decreases x@.len() - i,
    {
        let c = x[i];
        if c == '\\' {
            out.push('\\');
            out.push('\\');
        } else if c == '\t' {
            out.push('\\');
            out.push('t');
        } else if c == '\n' {
            out.push('\\');
            out.push('n');
        } else if c == '\r' {
            out.push('\\');
            out.push('r');
        } else {
            out.push(c);
        }
        proof {
            let before = value@.take(i as int);
            escape_concat(before, seq![c]);
            assert(value@.take(i + 1) =~= before + seq![c]);
            assert(seq![c].drop_first() =~= Seq::<char>::empty());
            reveal_with_fuel(escape_seq, 2);
            assert(escape_seq(seq![c]) =~= escape_char(c));
            assert(out@ =~= escape_seq(before) + escape_char(c));
        }
        i = i + 1;
    }
    proof {
        assert(value@.take(value@.len() as int) =~= value@);
    }
    from_chars(&out)
}

/// Reads the text that a field holds; `None` if an escape is malformed.
pub fn unescape_field(value: &str) -> (r: Option<String>)
    ensures
        match r {
            Some(t) => unescape_seq(value@) == Some(t@),
            None => unescape_seq(value@) is None,
        },
{
    let x = to_chars(value);
    let mut out: Vec<char> = Vec::new();
    let mut i: usize = 0;
    proof {
        assert(value@.skip(0) =~= value@);
        if let Some(rest) = unescape_seq(value@) {
            assert(Seq::<char>::empty() + rest =~= rest);
        }
    }
    while i < x.len()
        invariant
            i <= x@.len(),
            x@ == value@,
            match unescape_seq(value@.skip(i as int)) {
                Some(rest) => unescape_seq(value@) == Some(out@ + rest),
                None => unescape_seq(value@) is None,
            },
        decreases x@.len() - i,
    {
        let c = x[i];
        let ghost before = out@;
        proof {
            assert(value@.skip(i as int).drop_first() =~= value@.skip(i + 1));
            assert(value@.skip(i as int)[0] == c);
        }
        if c != '\\' {
            out.push(c);
            i = i + 1;
            proof {
                if let Some(rest) = unescape_seq(value@.skip(i as int)) {
                    assert(before.push(c) + rest =~= before + (seq![c] + rest));
                }
            }
        } else {
            if i + 1 >= x.len() {
                return None;
            }
            let e = x[i + 1];
            proof {
                assert(value@.skip(i as int).skip(2) =~= value@.skip(i + 2));
                assert(value@.skip(i as int)[1] == e);
            }
            let meaning: char = if e == '\\' {
                '\\'
            } else if e == 't' {
                '\t'
            } else if e == 'n' {
                '\n'
            } else if e == 'r' {
                '\r'
            } else {
                return None;
            };
            out.push(meaning);
            i = i + 2;
            proof {
                if let Some(rest) = unescape_seq(value@.skip(i as int)) {
                    assert(before.push(meaning) + rest =~= before + (seq![meaning] + rest));
                }
            }
        }
    }
    proof {
        assert(value@.skip(i as int) =~= Seq::<char>::empty());
        assert(out@ + Seq::<char>::empty() =~= out@);
    }
    Some(from_chars(&out))
}

/// Escaping works piece by piece.
pub proof fn escape_concat(a: Seq<char>, b: Seq<char>)
    ensures
        escape_seq(a + b) == escape_seq(a) + escape_seq(b),
    decreases a.len(),
{
    if a.len() == 0 {
        assert(a + b =~= b);
        assert(escape_seq(a) + escape_seq(b) =~= escape_seq(b));
    } else {
        assert((a + b).drop_first() =~= a.drop_first() + b);
        escape_concat(a.drop_first(), b);
        assert(escape_seq(a + b) =~= escape_seq(a) + escape_seq(b));
    }
}

/// Reading a field gives back the text that was written to it.
pub proof fn unescape_of_escape(s: Seq<char>)
    ensures
        unescape_seq(escape_seq(s)) == Some(s),
    decreases s.len(),
{
    if s.len() > 0 {
        let rest = s.drop_first();
        let e = escape_seq(s);
        unescape_of_escape(rest);
        assert(seq![s[0]] + rest =~= s);
        if escape_char(s[0]).len() == 2 {
            assert(e.skip(2) =~= escape_seq(rest));
        } else {
            assert(e.drop_first() =~= escape_seq(rest));
        }
    } else {
        assert(s =~= Seq::<char>::empty());
    }
}

/// A written field holds no tab, no line feed and no carriage return.
pub proof fn escape_is_clean(s: Seq<char>)
    ensures
        forall|k: int|
            0 <= k < escape_seq(s).len() ==> escape_seq(s)[k] != '\t' && escape_seq(s)[k] != '\n'
                && escape_seq(s)[k] != '\r',
    decreases s.len(),
{
    if s.len() > 0 {
        let rest = s.drop_first();
        escape_is_clean(rest);
        let head = escape_char(s[0]);
        assert forall|k: int| 0 <= k < escape_seq(s).len() implies escape_seq(s)[k] != '\t'
            && escape_seq(s)[k] != '\n' && escape_seq(s)[k] != '\r' by {
            if k >= head.len() {
                assert(escape_seq(s)[k] == escape_seq(rest)[k - head.len()]);
            }
        }
    }
}

/// Whether a text is free of one character.
pub open spec fn lacks(s: Seq<char>, c: char) -> bool {
    forall|k: int| 0 <= k < s.len() ==> s[k] != c
}

/// The line before a line feed: a carriage return directly before the line
/// feed belongs to the line break.
pub open spec fn without_cr(s: Seq<char>) -> Seq<char> {
    if s.len() > 0 && s.last() == '\r' {
        s.drop_last()
    } else {
        s
    }
}

/// The lines of a text. A line feed ends a line, so nothing follows the last one.
pub open spec fn lines_of(s: Seq<char>) -> Seq<Seq<char>>
    decreases s.len(),
{
    if s.len() == 0 {
        Seq::empty()
    } else {
        let end = find_from(s, '\n', 0);
        if end < 0 || end >= s.len() {
            seq![s]
        } else {
            seq![without_cr(s.take(end))] + lines_of(s.skip(end + 1))
        }
    }
}

/// The lines of a text.
pub fn lines(s: &str) -> (r: Vec<String>)
    ensures
        texts(r@) == lines_of(s@),
{
    let x = to_chars(s);
    let mut out: Vec<String> = Vec::new();
    let mut at: usize = 0;
    proof {
        assert(s@.skip(0) =~= s@);
        assert(texts(out@) + lines_of(s@) =~= lines_of(s@));
    }
    while at < x.len()
        invariant
            at <= x@.len(),
            x@ == s@,
            texts(out@) + lines_of(s@.skip(at as int)) == lines_of(s@),
        decreases x@.len() - at,
    {
        let ghost before = out@;
        let ghost rest = s@.skip(at as int);
        let end: usize = find_char(&x, '\n', at);
        proof {
            find_from_shape(x@, '\n', at as int);
            assert forall|k: int| 0 <= k < end - at implies rest[k] != '\n' by {
                assert(rest[k] == x@[at + k]);
            }
            find_from_is(rest, '\n', 0, end - at);
        }
        if end == x.len() {
            let line = from_range(&x, at, end);
            out.push(line);
            proof {
                assert(line@ =~= rest);
                assert(texts(out@) =~= texts(before) + seq![rest]);
            }
            at = end;
            proof {
                assert(s@.skip(at as int) =~= Seq::<char>::empty());
                assert(texts(out@) + lines_of(s@.skip(at as int)) =~= texts(out@));
            }
        } else {
            let stop: usize = if end > at && x[end - 1] == '\r' {
                end - 1
            } else {
                end
            };
            let line = from_range(&x, at, stop);
            out.push(line);
            proof {
                assert(rest.take(end - at) =~= x@.subrange(at as int, end as int));
                assert(line@ =~= without_cr(rest.take(end - at)));
                assert(rest.skip(end - at + 1) =~= s@.skip(end + 1));
                assert(texts(out@) =~= texts(before) + seq![line@]);
                assert(texts(out@) + lines_of(s@.skip(end + 1)) =~= texts(before) + (seq![line@]
                    + lines_of(s@.skip(end + 1))));
            }
            at = end + 1;
        }
    }
    proof {
        assert(s@.skip(at as int) =~= Seq::<char>::empty());
        assert(texts(out@) + lines_of(s@.skip(at as int)) =~= texts(out@));
    }
    out
}

/// The first line of a text that starts with a whole line.
pub proof fn lines_of_step(line: Seq<char>, rest: Seq<char>)
    requires
        lacks(line, '\n'),
    ensures
        lines_of(line + seq!['\n'] + rest) == seq![without_cr(line)] + lines_of(rest),
{
    let s = line + seq!['\n'] + rest;
    find_from_is(s, '\n', 0, line.len() as int);
    assert(s.take(line.len() as int) =~= line);
    assert(s.skip(line.len() as int + 1) =~= rest);
}

/// The text before and the text behind the first `c`, if there is one.
pub open spec fn split_once_seq(s: Seq<char>, c: char) -> Option<(Seq<char>, Seq<char>)> {
    let at = find_from(s, c, 0);
    if at < s.len() {
        Some((s.take(at), s.skip(at + 1)))
    } else {
        None
    }
}

/// Splits a text at its first `c`.
pub fn split_once(s: &str, c: char) -> (r: Option<(String, String)>)
    ensures
        match r {
            Some(p) => split_once_seq(s@, c) == Some((p.0@, p.1@)),
            None => split_once_seq(s@, c) is None,
        },
{
    let x = to_chars(s);
    let at: usize = find_char(&x, c, 0);
    if at == x.len() {
        return None;
    }
    let head = from_range(&x, 0, at);
    let tail = from_range(&x, at + 1, x.len());
    proof {
        assert(head@ =~= s@.take(at as int));
        assert(tail@ =~= s@.skip(at + 1));
    }
    Some((head, tail))
}

/// Where a text splits that was joined.
pub proof fn split_once_of_join(a: Seq<char>, c: char, b: Seq<char>)
    requires
        lacks(a, c),
    ensures
        split_once_seq(a + seq![c] + b, c) == Some((a, b)),
{
    let s = a + seq![c] + b;
    find_from_is(s, c, 0, a.len() as int);
    assert(s.take(a.len() as int) =~= a);
    assert(s.skip(a.len() as int + 1) =~= b);
}

/// Lines as one text, a line feed behind each.
pub open spec fn joined(lines: Seq<Seq<char>>) -> Seq<char>
    decreases lines.len(),
{
    if lines.len() == 0 {
        Seq::empty()
    } else {
        lines[0] + seq!['\n'] + joined(lines.drop_first())
    }
}

/// One more line goes to the end of the text.
pub proof fn joined_push(lines: Seq<Seq<char>>, line: Seq<char>)
    ensures
        joined(lines.push(line)) == joined(lines) + line + seq!['\n'],
    decreases lines.len(),
{
    if lines.len() == 0 {
        reveal_with_fuel(joined, 2);
        assert(lines.push(line).drop_first() =~= Seq::<Seq<char>>::empty());
        assert(joined(lines.push(line)) =~= joined(lines) + line + seq!['\n']);
    } else {
        assert(lines.push(line).drop_first() =~= lines.drop_first().push(line));
        joined_push(lines.drop_first(), line);
        assert(joined(lines.push(line)) =~= joined(lines) + line + seq!['\n']);
    }
}

/// The text of two lists of lines is one behind the other.
pub proof fn joined_concat(a: Seq<Seq<char>>, b: Seq<Seq<char>>)
    ensures
        joined(a + b) == joined(a) + joined(b),
    decreases a.len(),
{
    if a.len() == 0 {
        assert(a + b =~= b);
        assert(joined(a) + joined(b) =~= joined(b));
    } else {
        assert((a + b).drop_first() =~= a.drop_first() + b);
        joined_concat(a.drop_first(), b);
        assert(joined(a + b) =~= joined(a) + joined(b));
    }
}

/// Whether a text can stand as a line: it holds no line feed and does not end in
/// a carriage return.
pub open spec fn is_plain_line(s: Seq<char>) -> bool {
    lacks(s, '\n') && (s.len() > 0 ==> s.last() != '\r')
}

/// The lines of a text made of lines are those lines.
pub proof fn lines_of_joined(lines: Seq<Seq<char>>)
    requires
        forall|k: int| 0 <= k < lines.len() ==> is_plain_line(#[trigger] lines[k]),
    ensures
        lines_of(joined(lines)) == lines,
    decreases lines.len(),
{
    if lines.len() == 0 {
        assert(lines_of(joined(lines)) =~= lines);
    } else {
        let rest = lines.drop_first();
        assert forall|k: int| 0 <= k < rest.len() implies is_plain_line(#[trigger] rest[k]) by {
            assert(rest[k] == lines[k + 1]);
        }
        lines_of_joined(rest);
        assert(is_plain_line(lines[0]));
        lines_of_step(lines[0], joined(rest));
        assert(lines =~= seq![lines[0]] + rest);
    }
}

/// Digits hold neither a tab nor a line break.
pub proof fn digits_are_clean(n: nat)
    ensures
        lacks(crate::decimal::digits(n), '\t'),
        lacks(crate::decimal::digits(n), '\n'),
        lacks(crate::decimal::digits(n), '\r'),
{
    crate::decimal::digits_shape(n);
    let d = crate::decimal::digits(n);
    assert forall|k: int| 0 <= k < d.len() implies #[trigger] d[k] != '\t' && d[k] != '\n' && d[k]
        != '\r' by {
        assert(crate::decimal::is_digit(d[k]));
    }
}

} // verus!
