//! File names in Windows paths.
use vstd::prelude::*;
use crate::text::{from_range, to_chars};

verus! {

/// Either slash separates the parts of a path.
pub open spec fn is_separator(c: char) -> bool {
    c == '\\' || c == '/'
}

/// Whether a path is taken literally: it begins with two backslashes, a question
/// mark and a backslash. In such a path only the backslash separates, and a single
/// dot is a part like any other.
pub open spec fn is_verbatim(s: Seq<char>) -> bool {
    s.len() >= 4 && s[0] == '\\' && s[1] == '\\' && s[2] == '?' && s[3] == '\\'
}

/// Whether a character separates the parts of a path that is or is not literal.
pub open spec fn divides(c: char, verbatim: bool) -> bool {
    c == '\\' || (c == '/' && !verbatim)
}

fn separates(c: char, verbatim: bool) -> (r: bool)
    ensures
        r == divides(c, verbatim),
{
    c == '\\' || (c == '/' && !verbatim)
}

fn is_literal(s: &Vec<char>) -> (r: bool)
    ensures
        r == is_verbatim(s@),
{
    s.len() >= 4 && s[0] == '\\' && s[1] == '\\' && s[2] == '?' && s[3] == '\\'
}

/// Position of the first separator at or after `from`; the length if there is none.
pub open spec fn next_separator(s: Seq<char>, from: int, verbatim: bool) -> int
    decreases s.len() - from,
{
    if from >= s.len() {
        s.len() as int
    } else if divides(s[from], verbatim) {
        from
    } else {
        next_separator(s, from + 1, verbatim)
    }
}

/// Whether a drive letter and a colon stand at a place.
pub open spec fn drive_at(s: Seq<char>, at: int) -> bool {
    at + 2 <= s.len() && ('a' <= s[at] <= 'z' || 'A' <= s[at] <= 'Z') && s[at + 1] == ':'
}

/// Whether a literal path goes on with the word for a server.
pub open spec fn names_a_server(s: Seq<char>) -> bool {
    s.len() >= 8 && s[4] == 'U' && s[5] == 'N' && s[6] == 'C' && is_separator(s[7])
}

/// Where a server that begins at a place and its share end; without a share the
/// server alone counts.
pub open spec fn share_end(s: Seq<char>, from: int, verbatim: bool) -> int {
    let server_end = next_separator(s, from, verbatim);
    let end = next_separator(s, server_end + 1, verbatim);
    if server_end < s.len() && end > server_end + 1 {
        end
    } else {
        server_end
    }
}

/// How many leading characters name a volume. In a literal path that is a server
/// and its share, a drive letter with its colon, or whatever part comes first.
/// Otherwise it is a device, a server and its share behind two separators, or a
/// drive letter with its colon.
pub open spec fn prefix_len(s: Seq<char>) -> int {
    if is_verbatim(s) {
        if names_a_server(s) {
            share_end(s, 8, true)
        } else if drive_at(s, 4) && (s.len() == 6 || is_separator(s[6])) {
            6
        } else {
            next_separator(s, 4, true)
        }
    } else if s.len() >= 2 && is_separator(s[0]) && is_separator(s[1]) {
        let server_end = next_separator(s, 2, false);
        if s.len() >= 4 && s[2] == '.' && is_separator(s[3]) {
            next_separator(s, 4, false)
        } else if server_end > 2 && share_end(s, 2, false) > server_end {
            share_end(s, 2, false)
        } else {
            0
        }
    } else if drive_at(s, 0) {
        2
    } else {
        0
    }
}

/// Where the parts of a path begin: behind the volume and the root.
pub open spec fn body_start(s: Seq<char>) -> int {
    let p = prefix_len(s);
    if p < s.len() && is_separator(s[p]) {
        p + 1
    } else {
        p
    }
}

/// Where the path ends without the separators at its end, not before `start`.
pub open spec fn trimmed_end(s: Seq<char>, start: int, end: int, verbatim: bool) -> int
    decreases end - start,
{
    if start < end <= s.len() && divides(s[end - 1], verbatim) {
        trimmed_end(s, start, end - 1, verbatim)
    } else {
        end
    }
}

/// Where the part of the path that ends at `end` begins, not before `start`.
pub open spec fn component_start(s: Seq<char>, start: int, end: int, verbatim: bool) -> int
    decreases end - start,
{
    if start < end <= s.len() && !divides(s[end - 1], verbatim) {
        component_start(s, start, end - 1, verbatim)
    } else {
        end
    }
}

proof fn component_start_bounds(s: Seq<char>, start: int, end: int, verbatim: bool)
    requires
        0 <= start <= end <= s.len(),
    ensures
        start <= component_start(s, start, end, verbatim) <= end,
        start < end && !divides(s[end - 1], verbatim) ==> component_start(s, start, end, verbatim)
            < end,
    decreases end - start,
{
    if start < end && !divides(s[end - 1], verbatim) {
        component_start_bounds(s, start, end - 1, verbatim);
    }
}

/// The bounds of the last part of the path before `end`, which in a path that is
/// not literal is no single dot; an empty range if there is none.
pub open spec fn last_component(s: Seq<char>, start: int, end: int, verbatim: bool) -> (int, int)
    decreases end - start,
{
    let e = trimmed_end(s, start, end, verbatim);
    let b = component_start(s, start, e, verbatim);
    if !(start < e <= end && start <= b < e) {
        (start, start)
    } else if !verbatim && e - b == 1 && s[b] == '.' {
        last_component(s, start, b, verbatim)
    } else {
        (b, e)
    }
}

/// The last part of a path, unless that is the volume, the root, a single dot or a
/// way up.
pub open spec fn file_name_seq(s: Seq<char>) -> Option<Seq<char>> {
    let part = last_component(s, body_start(s), s.len() as int, is_verbatim(s));
    let name = s.subrange(part.0, part.1);
    if name.len() == 0 || name == seq!['.'] || name == seq!['.', '.'] {
        None
    } else {
        Some(name)
    }
}

/// Position of the last dot; `-1` if there is none.
pub open spec fn last_dot(s: Seq<char>) -> int
    decreases s.len(),
{
    if s.len() == 0 {
        -1
    } else if s.last() == '.' {
        s.len() - 1
    } else {
        last_dot(s.drop_last())
    }
}

/// What stands behind the last dot of the file name, unless the dot leads it.
pub open spec fn extension_seq(s: Seq<char>) -> Option<Seq<char>> {
    match file_name_seq(s) {
        Some(name) => if last_dot(name) <= 0 {
            None
        } else {
            Some(name.skip(last_dot(name) + 1))
        },
        None => None,
    }
}

/// The file name without its extension.
pub open spec fn file_stem_seq(s: Seq<char>) -> Option<Seq<char>> {
    match file_name_seq(s) {
        Some(name) => if last_dot(name) <= 0 {
            Some(name)
        } else {
            Some(name.take(last_dot(name)))
        },
        None => None,
    }
}

fn find_separator(s: &Vec<char>, from: usize, verbatim: bool) -> (r: usize)
    requires
        from <= s@.len(),
    ensures
        r == next_separator(s@, from as int, verbatim),
        from <= r <= s@.len(),
{
    let mut i: usize = from;
    while i < s.len() && !separates(s[i], verbatim)
        invariant
            from <= i <= s@.len(),
            next_separator(s@, from as int, verbatim) == next_separator(s@, i as int, verbatim),
        decreases s@.len() - i,
    {
        i = i + 1;
    }
    i
}

fn is_drive_at(s: &Vec<char>, at: usize) -> (r: bool)
    requires
        at <= s@.len(),
    ensures
        r == drive_at(s@, at as int),
{
    s.len() - at >= 2 && (('a' <= s[at] && s[at] <= 'z') || ('A' <= s[at] && s[at] <= 'Z')) && s[at
        + 1] == ':'
}

fn find_share_end(s: &Vec<char>, from: usize, verbatim: bool) -> (r: usize)
    requires
        from <= s@.len(),
    ensures
        r == share_end(s@, from as int, verbatim),
        next_separator(s@, from as int, verbatim) <= r <= s@.len(),
{
    let server_end: usize = find_separator(s, from, verbatim);
    if server_end == s.len() {
        return server_end;
    }
    let end: usize = find_separator(s, server_end + 1, verbatim);
    if end > server_end + 1 {
        end
    } else {
        server_end
    }
}

fn prefix_length(s: &Vec<char>) -> (r: usize)
    ensures
        r == prefix_len(s@),
        r <= s@.len(),
{
    if is_literal(s) {
        if s.len() >= 8 && s[4] == 'U' && s[5] == 'N' && s[6] == 'C' && separates(s[7], false) {
            return find_share_end(s, 8, true);
        }
        if is_drive_at(s, 4) && (s.len() == 6 || separates(s[6], false)) {
            return 6;
        }
        return find_separator(s, 4, true);
    }
    if s.len() >= 2 && separates(s[0], false) && separates(s[1], false) {
        if s.len() >= 4 && s[2] == '.' && separates(s[3], false) {
            return find_separator(s, 4, false);
        }
        let server_end: usize = find_separator(s, 2, false);
        let end: usize = find_share_end(s, 2, false);
        return if server_end > 2 && end > server_end {
            end
        } else {
            0
        };
    }
    if is_drive_at(s, 0) {
        2
    } else {
        0
    }
}

fn body_begin(s: &Vec<char>) -> (r: usize)
    ensures
        r == body_start(s@),
        r <= s@.len(),
{
    let p: usize = prefix_length(s);
    if p < s.len() && separates(s[p], false) {
        p + 1
    } else {
        p
    }
}

/// The bounds of the file name; `None` if the path has none.
fn name_bounds(s: &Vec<char>) -> (r: Option<(usize, usize)>)
    ensures
        match r {
            Some(b) => b.0 < b.1 <= s@.len() && file_name_seq(s@) == Some(
                s@.subrange(b.0 as int, b.1 as int),
            ),
            None => file_name_seq(s@) is None,
        },
{
    let verbatim = is_literal(s);
    let start: usize = body_begin(s);
    let mut end: usize = s.len();
    loop
        invariant
            start == body_start(s@),
            verbatim == is_verbatim(s@),
            start <= end <= s@.len(),
            last_component(s@, start as int, s@.len() as int, verbatim) == last_component(
                s@,
                start as int,
                end as int,
                verbatim,
            ),
        decreases end,
    {
        let ghost from = end;
        while start < end && separates(s[end - 1], verbatim)
            invariant
                start <= end <= s@.len(),
                trimmed_end(s@, start as int, from as int, verbatim) == trimmed_end(
                    s@,
                    start as int,
                    end as int,
                    verbatim,
                ),
                end <= from,
            decreases end,
        {
            end = end - 1;
        }
        if end == start {
            return None;
        }
        let mut begin: usize = end;
        while start < begin && !separates(s[begin - 1], verbatim)
            invariant
                start <= begin <= end <= s@.len(),
                component_start(s@, start as int, end as int, verbatim) == component_start(
                    s@,
                    start as int,
                    begin as int,
                    verbatim,
                ),
            decreases begin,
        {
            begin = begin - 1;
        }
        proof {
            component_start_bounds(s@, start as int, end as int, verbatim);
        }
        if !verbatim && end - begin == 1 && s[begin] == '.' {
            end = begin;
            continue;
        }
        proof {
            assert(last_component(s@, start as int, s@.len() as int, verbatim) == (
                begin as int,
                end as int,
            ));
            let name = s@.subrange(begin as int, end as int);
            assert(name == seq!['.'] <==> (end - begin == 1 && s@[begin as int] == '.')) by {
                if end - begin == 1 && s@[begin as int] == '.' {
                    assert(name =~= seq!['.']);
                } else if name == seq!['.'] {
                    assert(name[0] == '.' && name.len() == 1);
                }
            }
            assert(name == seq!['.', '.'] <==> (end - begin == 2 && s@[begin as int] == '.'
                && s@[begin + 1] == '.')) by {
                if end - begin == 2 && s@[begin as int] == '.' && s@[begin + 1] == '.' {
                    assert(name =~= seq!['.', '.']);
                } else if name == seq!['.', '.'] {
                    assert(name[0] == '.' && name[1] == '.' && name.len() == 2);
                }
            }
        }
        if end - begin == 1 && s[begin] == '.' {
            return None;
        }
        if end - begin == 2 && s[begin] == '.' && s[begin + 1] == '.' {
            return None;
        }
        return Some((begin, end));
    }
}

/// The file name of a path.
pub fn file_name(path: &str) -> (r: Option<String>)
    ensures
        match r {
            Some(name) => file_name_seq(path@) == Some(name@),
            None => file_name_seq(path@) is None,
        },
{
    let s = to_chars(path);
    match name_bounds(&s) {
        Some((begin, end)) => Some(from_range(&s, begin, end)),
        None => None,
    }
}

/// Position of the last dot in `s[begin..end]`, counted from `begin`, if there is one.
fn find_last_dot(s: &Vec<char>, begin: usize, end: usize) -> (r: Option<usize>)
    requires
        begin <= end <= s@.len(),
    ensures
        match r {
            Some(at) => at == last_dot(s@.subrange(begin as int, end as int)) && begin + at < end,
            None => last_dot(s@.subrange(begin as int, end as int)) == -1,
        },
{
    let mut i: usize = end;
    while i > begin
        invariant
            begin <= i <= end <= s@.len(),
            last_dot(s@.subrange(begin as int, end as int)) == last_dot(
                s@.subrange(begin as int, i as int),
            ),
        decreases i,
    {
        proof {
            assert(s@.subrange(begin as int, i as int).drop_last() =~= s@.subrange(
                begin as int,
                i - 1,
            ));
        }
        if s[i - 1] == '.' {
            return Some(i - 1 - begin);
        }
        i = i - 1;
    }
    None
}

/// The extension of a path's file name.
pub fn extension(path: &str) -> (r: Option<String>)
    ensures
        match r {
            Some(ext) => extension_seq(path@) == Some(ext@),
            None => extension_seq(path@) is None,
        },
{
    let s = to_chars(path);
    match name_bounds(&s) {
        Some((begin, end)) => match find_last_dot(&s, begin, end) {
            Some(at) => {
                if at == 0 {
                    return None;
                }
                let r = from_range(&s, begin + at + 1, end);
                proof {
                    assert(r@ =~= s@.subrange(begin as int, end as int).skip(at + 1));
                }
                Some(r)
            },
            None => None,
        },
        None => None,
    }
}

/// The file name of a path without its extension.
pub fn file_stem(path: &str) -> (r: Option<String>)
    ensures
        match r {
            Some(stem) => file_stem_seq(path@) == Some(stem@),
            None => file_stem_seq(path@) is None,
        },
{
    let s = to_chars(path);
    match name_bounds(&s) {
        Some((begin, end)) => match find_last_dot(&s, begin, end) {
            Some(at) => {
                if at == 0 {
                    return Some(from_range(&s, begin, end));
                }
                let r = from_range(&s, begin, begin + at);
                proof {
                    assert(r@ =~= s@.subrange(begin as int, end as int).take(at as int));
                }
                Some(r)
            },
            None => Some(from_range(&s, begin, end)),
        },
        None => None,
    }
}

/// A file name that has an extension is its stem, a dot and the extension.
pub proof fn stem_dot_extension(path: Seq<char>)
    requires
        extension_seq(path) is Some,
    ensures
        file_name_seq(path) == Some(
            file_stem_seq(path).unwrap() + seq!['.'] + extension_seq(path).unwrap(),
        ),
{
    let name = file_name_seq(path).unwrap();
    last_dot_shape(name);
    let at = last_dot(name);
    assert(name =~= name.take(at) + seq!['.'] + name.skip(at + 1));
}

proof fn last_dot_shape(s: Seq<char>)
    ensures
        -1 <= last_dot(s) < s.len(),
        last_dot(s) >= 0 ==> s[last_dot(s)] == '.',
    decreases s.len(),
{
    if s.len() > 0 && s.last() != '.' {
        last_dot_shape(s.drop_last());
    }
}

/// The file name is what stands behind the last separator, in a path with a drive
/// and in one without a volume.
pub proof fn name_stands_behind_the_last_separator(dir: Seq<char>, name: Seq<char>)
    requires
        dir.len() > 2,
        ('a' <= dir[0] <= 'z' || 'A' <= dir[0] <= 'Z'),
        dir.last() == '\\' || dir.last() == '/',
        forall|k: int| 0 <= k < name.len() ==> #[trigger] name[k] != '\\' && name[k] != '/',
        name.len() > 0,
        name != seq!['.'],
        name != seq!['.', '.'],
    ensures
        file_name_seq(dir + name) == Some(name),
{
    let s = dir + name;
    let b = dir.len() as int;
    assert(s[0] == dir[0] && s[1] == dir[1] && s[2] == dir[2]);
    assert(!is_verbatim(s));
    assert(0 <= body_start(s) <= b) by {
        assert(prefix_len(s) == 0 || prefix_len(s) == 2);
    }
    assert(s[b - 1] == dir.last());
    assert(s[s.len() - 1] == name[name.len() - 1]);
    assert forall|k: int| b <= k < s.len() implies !divides(#[trigger] s[k], false) by {
        assert(s[k] == name[k - b]);
    }
    component_begins_behind_its_separator(s, body_start(s), b, s.len() as int, false);
    assert(s.subrange(b, s.len() as int) =~= name);
    if s.len() - b == 1 && s[b] == '.' {
        assert(name =~= seq!['.']);
    }
}

proof fn component_begins_behind_its_separator(
    s: Seq<char>,
    start: int,
    b: int,
    end: int,
    verbatim: bool,
)
    requires
        0 <= start <= b <= end <= s.len(),
        start == b || divides(s[b - 1], verbatim),
        forall|k: int| b <= k < end ==> !divides(#[trigger] s[k], verbatim),
    ensures
        component_start(s, start, end, verbatim) == b,
    decreases end - b,
{
    if b < end {
        assert(!divides(s[end - 1], verbatim));
        component_begins_behind_its_separator(s, start, b, end - 1, verbatim);
    }
}

/// The last dot of a file name parts its stem from its extension; a dot that leads
/// the name parts nothing.
pub proof fn last_dot_parts_stem_and_extension(path: Seq<char>, stem: Seq<char>, ext: Seq<char>)
    requires
        file_name_seq(path) == Some(stem + seq!['.'] + ext),
        forall|k: int| 0 <= k < ext.len() ==> #[trigger] ext[k] != '.',
    ensures
        stem.len() > 0 ==> extension_seq(path) == Some(ext) && file_stem_seq(path) == Some(stem),
        stem.len() == 0 ==> extension_seq(path) is None && file_stem_seq(path)
            == file_name_seq(path),
{
    let name = stem + seq!['.'] + ext;
    last_dot_is(name, stem.len() as int);
    assert(name.skip(stem.len() as int + 1) =~= ext);
    assert(name.take(stem.len() as int) =~= stem);
}

proof fn last_dot_is(s: Seq<char>, at: int)
    requires
        0 <= at < s.len(),
        s[at] == '.',
        forall|k: int| at < k < s.len() ==> #[trigger] s[k] != '.',
    ensures
        last_dot(s) == at,
    decreases s.len(),
{
    if at < s.len() - 1 {
        assert(s.last() != '.');
        last_dot_is(s.drop_last(), at);
    }
}

} // verus!
