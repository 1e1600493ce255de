//! Fields of comma-separated values.
use vstd::prelude::*;
use crate::text::{from_chars, to_chars};

verus! {

/// Whether a field has to be quoted.
pub open spec fn needs_quotes(s: Seq<char>) -> bool {
    exists|k: int|
        0 <= k < s.len() && (#[trigger] s[k] == ',' || s[k] == '"' || s[k] == '\n' || s[k] == '\r')
}

/// A text with every quote doubled.
pub open spec fn doubled(s: Seq<char>) -> Seq<char>
    decreases s.len(),
{
    if s.len() == 0 {
        Seq::empty()
    } else if s.last() == '"' {
        doubled(s.drop_last()) + seq!['"', '"']
    } else {
        doubled(s.drop_last()).push(s.last())
    }
}

/// How a text stands in a field.
pub open spec fn field_text(s: Seq<char>) -> Seq<char> {
    if needs_quotes(s) {
        seq!['"'] + doubled(s) + seq!['"']
    } else {
        s
    }
}

/// A text with doubled quotes made single.
pub open spec fn undoubled(s: Seq<char>) -> Seq<char>
    decreases s.len(),
{
    if s.len() == 0 {
        Seq::empty()
    } else if s.len() >= 2 && s.last() == '"' && s[s.len() - 2] == '"' {
        undoubled(s.take(s.len() - 2)).push('"')
    } else {
        undoubled(s.drop_last()).push(s.last())
    }
}

/// The text that a field stands for.
pub open spec fn field_meaning(f: Seq<char>) -> Seq<char> {
    if f.len() >= 2 && f[0] == '"' {
        undoubled(f.subrange(1, f.len() - 1))
    } else {
        f
    }
}

/// Writes a text as a field.
pub fn csv_field(value: &str) -> (r: String)
    ensures
        r@ == field_text(value@),
{
    let x = to_chars(value);
    let mut quoted = false;
    let mut i: usize = 0;
    while i < x.len()
        invariant
            i <= x@.len(),
            x@ == value@,
            quoted <==> exists|k: int|
                0 <= k < i && (#[trigger] x@[k] == ',' || x@[k] == '"' || x@[k] == '\n' || x@[k]
                    == '\r'),
        decreases x@.len() - i,
    {
        let c = x[i];
        if c == ',' || c == '"' || c == '\n' || c == '\r' {
            quoted = true;
            proof {
                assert(x@[i as int] == c);
            }
        }
        i = i + 1;
    }
    if !quoted {
        return from_chars(&x);
    }
    let mut out: Vec<char> = Vec::new();
    out.push('"');
    let mut j: usize = 0;
    proof {
        assert(out@ =~= seq!['"'] + doubled(value@.take(0)));
    }
    while j < x.len()
        invariant
            j <= x@.len(),
            x@ == value@,
            out@ == seq!['"'] + doubled(value@.take(j as int)),
        decreases x@.len() - j,
    {
        let ghost before = doubled(value@.take(j as int));
        let c = x[j];
        if c == '"' {
            out.push('"');
        }
        out.push(c);
        proof {
            assert(value@.take(j + 1).drop_last() =~= value@.take(j as int));
            assert(value@.take(j + 1).last() == c);
            assert(out@ =~= seq!['"'] + doubled(value@.take(j + 1)));
        }
        j = j + 1;
    }
    out.push('"');
    proof {
        assert(value@.take(value@.len() as int) =~= value@);
        assert(out@ =~= field_text(value@));
    }
    from_chars(&out)
}

proof fn undouble_of_double(s: Seq<char>)
    ensures
        undoubled(doubled(s)) == s,
        s.len() > 0 ==> doubled(s).len() > 0 && doubled(s).last() == s.last(),
        doubled(s).len() == 0 ==> s.len() == 0,
    decreases s.len(),
{
    if s.len() > 0 {
        let t = s.drop_last();
        undouble_of_double(t);
        let d = doubled(s);
        if s.last() == '"' {
            assert(d.take(d.len() - 2) =~= doubled(t));
        } else {
            assert(d.drop_last() =~= doubled(t));
        }
        assert(s =~= t.push(s.last()));
    } else {
        assert(s =~= Seq::<char>::empty());
    }
}

/// A field is read as the text that was written.
pub proof fn field_is_read_back(s: Seq<char>)
    ensures
        field_meaning(field_text(s)) == s,
{
    if needs_quotes(s) {
        undouble_of_double(s);
        let f = field_text(s);
        assert(f.subrange(1, f.len() - 1) =~= doubled(s));
    } else if s.len() >= 2 {
        assert(s[0] != '"');
    }
}

/// A field is quoted where it holds a comma, a quote or a line break, and stands
/// as it is otherwise.
pub proof fn field_is_quoted_where_it_has_to_be(s: Seq<char>)
    ensures
        (exists|k: int|
            0 <= k < s.len() && (#[trigger] s[k] == ',' || s[k] == '"' || s[k] == '\n' || s[k]
                == '\r')) ==> {
            &&& field_text(s).len() >= s.len() + 2
            &&& field_text(s)[0] == '"'
            &&& field_text(s).last() == '"'
        },
        (forall|k: int|
            0 <= k < s.len() ==> #[trigger] s[k] != ',' && s[k] != '"' && s[k] != '\n' && s[k]
                != '\r') ==> field_text(s) == s,
{
    doubled_is_no_shorter(s);
}

proof fn doubled_is_no_shorter(s: Seq<char>)
    ensures
        doubled(s).len() >= s.len(),
    decreases s.len(),
{
    if s.len() > 0 {
        doubled_is_no_shorter(s.drop_last());
    }
}

} // verus!
