//! The files that were opened last, and where to resume them.
use vstd::prelude::*;
use crate::decimal::{digits, parse_of_digits, parse_u64, parse_u64_seq, push_decimal};
use crate::fields::{
    digits_are_clean, is_plain_line, joined, joined_push, lines, lines_of, lines_of_joined,
    split_once, split_once_of_join, split_once_seq, texts,
};
use crate::text::{eq_ignore_ascii_case, from_chars, lower_seq, to_chars};

verus! {

/// How many files are remembered.
pub const MAX_RECENT: usize = 20;

/// Playback is resumed only from beyond this position.
pub const MIN_RESUME_MS: u64 = 30_000;

/// A file that was opened.
#[derive(Clone, Debug, PartialEq, Eq)]
pub struct RecentEntry {
    pub path: String,
    pub last_position_ms: u64,
    pub duration_ms: u64,
    pub last_opened_unix_ms: u64,
}

/// The model of an entry.
pub struct EntryModel {
    pub path: Seq<char>,
    pub last_position_ms: u64,
    pub duration_ms: u64,
    pub last_opened_unix_ms: u64,
}

impl View for RecentEntry {
    type V = EntryModel;

    open spec fn view(&self) -> EntryModel {
        EntryModel {
            path: self.path@,
            last_position_ms: self.last_position_ms,
            duration_ms: self.duration_ms,
            last_opened_unix_ms: self.last_opened_unix_ms,
        }
    }
}

/// The files that were opened last, newest first.
#[derive(Debug)]
pub struct RecentFiles {
    pub entries: Vec<RecentEntry>,
}

/// The models of some entries.
pub open spec fn models(v: Seq<RecentEntry>) -> Seq<EntryModel> {
    v.map_values(|e: RecentEntry| e@)
}

impl View for RecentFiles {
    type V = Seq<EntryModel>;

    open spec fn view(&self) -> Seq<EntryModel> {
        models(self.entries@)
    }
}

/// What tells two paths apart: the path without regard to ASCII case.
pub open spec fn key_for(path: Seq<char>) -> Seq<char> {
    lower_seq(path)
}

/// Whether no path is listed twice.
pub open spec fn keys_differ(s: Seq<EntryModel>) -> bool {
    forall|i: int, j: int|
        0 <= i < j < s.len() ==> key_for((#[trigger] s[i]).path) != key_for((#[trigger] s[j]).path)
}

/// The place of the first entry for a path; the length if there is none.
pub open spec fn place_of(s: Seq<EntryModel>, path: Seq<char>) -> int
    decreases s.len(),
{
    if s.len() == 0 {
        0
    } else if key_for(s[0].path) == key_for(path) {
        0
    } else {
        1 + place_of(s.drop_first(), path)
    }
}

/// `place_of` is the least place with the key.
pub proof fn place_of_is(s: Seq<EntryModel>, path: Seq<char>, at: int)
    requires
        0 <= at <= s.len(),
        forall|k: int| 0 <= k < at ==> key_for((#[trigger] s[k]).path) != key_for(path),
        at < s.len() ==> key_for(s[at].path) == key_for(path),
    ensures
        place_of(s, path) == at,
    decreases at,
{
    if at > 0 {
        let rest = s.drop_first();
        assert(key_for(s[0].path) != key_for(path));
        assert forall|k: int| 0 <= k < at - 1 implies key_for((#[trigger] rest[k]).path) != key_for(
            path,
        ) by {
            assert(rest[k] == s[k + 1]);
        }
        if at < s.len() {
            assert(rest[at - 1] == s[at]);
        }
        place_of_is(rest, path, at - 1);
    }
}

pub proof fn place_of_shape(s: Seq<EntryModel>, path: Seq<char>)
    ensures
        0 <= place_of(s, path) <= s.len(),
        forall|k: int| 0 <= k < place_of(s, path) ==> key_for((#[trigger] s[k]).path) != key_for(
            path,
        ),
        place_of(s, path) < s.len() ==> key_for(s[place_of(s, path)].path) == key_for(path),
    decreases s.len(),
{
    if s.len() > 0 && key_for(s[0].path) != key_for(path) {
        let rest = s.drop_first();
        place_of_shape(rest, path);
        let at = place_of(s, path);
        assert forall|k: int| 0 <= k < at implies key_for((#[trigger] s[k]).path) != key_for(
            path,
        ) by {
            if k > 0 {
                assert(rest[k - 1] == s[k]);
            }
        }
        if at < s.len() {
            assert(rest[at - 1] == s[at]);
        }
    }
}

/// Whether playback resumes: from beyond half a minute, and before 95 % of a
/// known length.
pub open spec fn resumes(last_position_ms: u64, duration_ms: u64) -> bool {
    &&& last_position_ms > MIN_RESUME_MS
    &&& duration_ms > 0
    &&& last_position_ms * 100 < duration_ms * 95
}

/// Where playback resumes, if it does.
pub fn resume_target_ms(last_position_ms: u64, duration_ms: u64) -> (r: Option<u64>)
    ensures
        r == (if resumes(last_position_ms, duration_ms) {
            Some(last_position_ms)
        } else {
            None
        }),
{
    if last_position_ms <= MIN_RESUME_MS {
        return None;
    }
    if duration_ms == 0 {
        return None;
    }
    if last_position_ms as u128 * 100 >= duration_ms as u128 * 95 {
        return None;
    }
    Some(last_position_ms)
}

/// The entry for a path that is opened now: known progress is kept.
pub open spec fn opened_entry(s: Seq<EntryModel>, path: Seq<char>, now_ms: u64) -> EntryModel {
    let at = place_of(s, path);
    if at < s.len() {
        EntryModel { last_opened_unix_ms: now_ms, ..s[at] }
    } else {
        EntryModel { path, last_position_ms: 0, duration_ms: 0, last_opened_unix_ms: now_ms }
    }
}

/// The entries without the one for a path.
pub open spec fn others(s: Seq<EntryModel>, path: Seq<char>) -> Seq<EntryModel> {
    let at = place_of(s, path);
    if at < s.len() {
        s.remove(at)
    } else {
        s
    }
}

/// At most as many entries as are remembered.
pub open spec fn capped(s: Seq<EntryModel>) -> Seq<EntryModel> {
    if s.len() <= MAX_RECENT {
        s
    } else {
        s.take(MAX_RECENT as int)
    }
}

/// The list after a path was opened: it moves to the front.
pub open spec fn touched(s: Seq<EntryModel>, path: Seq<char>, now_ms: u64) -> Seq<EntryModel> {
    capped(seq![opened_entry(s, path, now_ms)] + others(s, path))
}

/// The list after progress was noted; an unknown length leaves the known one.
pub open spec fn progressed(
    s: Seq<EntryModel>,
    path: Seq<char>,
    position_ms: u64,
    duration_ms: u64,
) -> Seq<EntryModel> {
    let at = place_of(s, path);
    if at < s.len() {
        s.update(
            at,
            EntryModel {
                last_position_ms: position_ms,
                duration_ms: if duration_ms > 0 {
                    duration_ms
                } else {
                    s[at].duration_ms
                },
                ..s[at]
            },
        )
    } else {
        s
    }
}

/// How an entry is stored: the path stands last, so that it may hold tabs.
pub open spec fn entry_line(e: EntryModel) -> Seq<char> {
    digits(e.last_position_ms as nat) + seq!['\t'] + (digits(e.duration_ms as nat) + seq!['\t'] + (
    digits(e.last_opened_unix_ms as nat) + seq!['\t'] + e.path))
}

/// How the list is stored.
pub open spec fn entry_lines(s: Seq<EntryModel>) -> Seq<Seq<char>> {
    s.map_values(|e: EntryModel| entry_line(e))
}

/// The entry that a line stands for, if it stands for one.
pub open spec fn parsed_entry(line: Seq<char>) -> Option<EntryModel> {
    match split_once_seq(line, '\t') {
        Some((a, rest)) => match split_once_seq(rest, '\t') {
            Some((b, rest2)) => match split_once_seq(rest2, '\t') {
                Some((c, path)) => match (parse_u64_seq(a), parse_u64_seq(b), parse_u64_seq(c)) {
                    (Some(p), Some(d), Some(o)) => if path.len() > 0 {
                        Some(
                            EntryModel {
                                path,
                                last_position_ms: p,
                                duration_ms: d,
                                last_opened_unix_ms: o,
                            },
                        )
                    } else {
                        None
                    },
                    _ => None,
                },
                None => None,
            },
            None => None,
        },
        None => None,
    }
}

/// The entries that lines stand for; other lines are passed over.
pub open spec fn parsed_entries(lines: Seq<Seq<char>>) -> Seq<EntryModel>
    decreases lines.len(),
{
    if lines.len() == 0 {
        Seq::empty()
    } else {
        match parsed_entry(lines.last()) {
            Some(e) => parsed_entries(lines.drop_last()).push(e),
            None => parsed_entries(lines.drop_last()),
        }
    }
}

/// The entry that a line stands for, if it stands for one.
pub fn parse_line(line: &str) -> (r: Option<RecentEntry>)
    ensures
        match r {
            Some(e) => parsed_entry(line@) == Some(e@),
            None => parsed_entry(line@) is None,
        },
{
    let (a, rest) = match split_once(line, '\t') {
        Some(parts) => parts,
        None => {
            return None;
        },
    };
    let (b, rest2) = match split_once(rest.as_str(), '\t') {
        Some(parts) => parts,
        None => {
            return None;
        },
    };
    let (c, path) = match split_once(rest2.as_str(), '\t') {
        Some(parts) => parts,
        None => {
            return None;
        },
    };
    let last_position_ms: u64 = match parse_u64(a.as_str()) {
        Some(n) => n,
        None => {
            return None;
        },
    };
    let duration_ms: u64 = match parse_u64(b.as_str()) {
        Some(n) => n,
        None => {
            return None;
        },
    };
    let last_opened_unix_ms: u64 = match parse_u64(c.as_str()) {
        Some(n) => n,
        None => {
            return None;
        },
    };
    if path.as_str().unicode_len() == 0 {
        return None;
    }
    Some(RecentEntry { path, last_position_ms, duration_ms, last_opened_unix_ms })
}

impl Default for RecentFiles {
    fn default() -> (r: Self)
        ensures
            r@.len() == 0,
    {
        RecentFiles { entries: Vec::new() }
    }
}

/// Appends the line of an entry.
fn push_entry(out: &mut String, e: &RecentEntry)
    ensures
        final(out)@ == old(out)@ + entry_line(e@),
{
    let ghost before = out@;
    push_decimal(out, e.last_position_ms);
    out.push('\t');
    push_decimal(out, e.duration_ms);
    out.push('\t');
    push_decimal(out, e.last_opened_unix_ms);
    out.push('\t');
    out.append(e.path.as_str());
    assert(out@ =~= before + entry_line(e@));
}

impl RecentFiles {
    /// The list that stored text stands for; without text it is empty. Lines
    /// that stand for nothing are passed over.
    pub fn load(contents: Option<&str>) -> (r: Self)
        ensures
            r@ == (match contents {
                Some(text) => capped(parsed_entries(lines_of(text@))),
                None => Seq::empty(),
            }),
    {
        let text = match contents {
            Some(text) => text,
            None => {
                let entries: Vec<RecentEntry> = Vec::new();
                proof {
                    assert(models(entries@) =~= Seq::<EntryModel>::empty());
                }
                return RecentFiles { entries };
            },
        };
        let all = lines(text);
        let ghost list = texts(all@);
        let mut entries: Vec<RecentEntry> = Vec::new();
        let mut i: usize = 0;
        proof {
            assert(models(entries@) =~= parsed_entries(list.take(0)));
        }
        while i < all.len()
            invariant
                i <= all@.len(),
                list == texts(all@),
                models(entries@) == parsed_entries(list.take(i as int)),
            decreases all@.len() - i,
        {
            let ghost before = models(entries@);
            proof {
                assert(list.take(i + 1).drop_last() =~= list.take(i as int));
                assert(list.take(i + 1).last() == all@[i as int]@);
            }
            if let Some(entry) = parse_line(all[i].as_str()) {
                entries.push(entry);
                proof {
                    assert(models(entries@) =~= before.push(entry@));
                }
            }
            i = i + 1;
        }
        proof {
            assert(list.take(list.len() as int) =~= list);
        }
        let ghost parsed = models(entries@);
        if entries.len() > MAX_RECENT {
            entries.truncate(MAX_RECENT);
        }
        proof {
            assert(models(entries@) =~= capped(parsed));
        }
        RecentFiles { entries }
    }

    /// The text to store.
    pub fn serialize(&self) -> (r: String)
        ensures
            r@ == joined(entry_lines(self@)),
    {
        let mut out = String::new();
        let ghost all = entry_lines(self@);
        let mut i: usize = 0;
        proof {
            assert(out@ =~= joined(all.take(0)));
        }
        while i < self.entries.len()
            invariant
                i <= self.entries@.len(),
                all == entry_lines(self@),
                out@ == joined(all.take(i as int)),
            decreases self.entries@.len() - i,
        {
            let ghost before = out@;
            push_entry(&mut out, &self.entries[i]);
            out.push('\n');
            proof {
                let line = entry_line(self.entries@[i as int]@);
                assert(all[i as int] == line);
                assert(all.take(i + 1) =~= all.take(i as int).push(line));
                joined_push(all.take(i as int), line);
                assert(out@ =~= before + line + seq!['\n']);
            }
            i = i + 1;
        }
        proof {
            assert(all.take(all.len() as int) =~= all);
        }
        out
    }

    pub fn entries(&self) -> (r: &Vec<RecentEntry>)
        ensures
            models(r@) == self@,
    {
        &self.entries
    }

    pub fn is_empty(&self) -> (r: bool)
        ensures
            r == (self@.len() == 0),
    {
        self.entries.len() == 0
    }

    fn find(&self, path: &str) -> (r: usize)
        ensures
            r == place_of(self@, path@),
            r <= self.entries@.len(),
    {
        let ghost s = self@;
        let mut i: usize = 0;
        while i < self.entries.len()
            invariant
                i <= self.entries@.len(),
                s == self@,
                forall|k: int| 0 <= k < i ==> key_for((#[trigger] s[k]).path) != key_for(path@),
            decreases self.entries@.len() - i,
        {
            proof {
                assert(s[i as int].path == self.entries@[i as int].path@);
            }
            if eq_ignore_ascii_case(self.entries[i].path.as_str(), path) {
                proof {
                    place_of_is(s, path@, i as int);
                }
                return i;
            }
            i = i + 1;
        }
        proof {
            place_of_is(s, path@, i as int);
        }
        i
    }

    /// Notes that a file is opened now.
    pub fn touch_opened(&mut self, path: &str, now_ms: u64)
        ensures
            final(self)@ == touched(old(self)@, path@, now_ms),
    {
        let ghost s = self@;
        let at: usize = self.find(path);
        let entry: RecentEntry = if at < self.entries.len() {
            let known = self.entries.remove(at);
            RecentEntry {
                path: known.path,
                last_position_ms: known.last_position_ms,
                duration_ms: known.duration_ms,
                last_opened_unix_ms: now_ms,
            }
        } else {
            RecentEntry {
                path: from_chars(&to_chars(path)),
                last_position_ms: 0,
                duration_ms: 0,
                last_opened_unix_ms: now_ms,
            }
        };
        proof {
            assert(models(self.entries@) =~= others(s, path@));
            assert(entry@ == opened_entry(s, path@, now_ms));
        }
        self.entries.insert(0, entry);
        let ghost full = models(self.entries@);
        proof {
            assert(full =~= seq![opened_entry(s, path@, now_ms)] + others(s, path@));
        }
        if self.entries.len() > MAX_RECENT {
            self.entries.truncate(MAX_RECENT);
        }
        proof {
            assert(models(self.entries@) =~= capped(full));
        }
    }

    /// Notes how far a listed file was played.
    pub fn update_progress(&mut self, path: &str, position_ms: u64, duration_ms: u64)
        ensures
            final(self)@ == progressed(old(self)@, path@, position_ms, duration_ms),
    {
        let ghost s = self@;
        let at: usize = self.find(path);
        if at < self.entries.len() {
            let known = self.entries.remove(at);
            let entry = RecentEntry {
                path: known.path,
                last_position_ms: position_ms,
                duration_ms: if duration_ms > 0 {
                    duration_ms
                } else {
                    known.duration_ms
                },
                last_opened_unix_ms: known.last_opened_unix_ms,
            };
            self.entries.insert(at, entry);
        }
        proof {
            assert(self@ =~= progressed(s, path@, position_ms, duration_ms));
        }
    }

    /// Where a listed file resumes, if it does.
    pub fn resume_target(&self, path: &str) -> (r: Option<u64>)
        ensures
            r == ({
                let at = place_of(self@, path@);
                if at < self@.len() && resumes(self@[at].last_position_ms, self@[at].duration_ms) {
                    Some(self@[at].last_position_ms)
                } else {
                    None
                }
            }),
    {
        let at: usize = self.find(path);
        if at < self.entries.len() {
            resume_target_ms(self.entries[at].last_position_ms, self.entries[at].duration_ms)
        } else {
            None
        }
    }

    /// Removes the entry at a place, if there is one.
    pub fn remove_index(&mut self, index: usize)
        ensures
            final(self)@ == (if index < old(self)@.len() {
                old(self)@.remove(index as int)
            } else {
                old(self)@
            }),
    {
        if index < self.entries.len() {
            let _ = self.entries.remove(index);
            proof {
                assert(self@ =~= old(self)@.remove(index as int));
            }
        }
    }

    /// Forgets every file.
    pub fn clear(&mut self)
        ensures
            final(self)@.len() == 0,
    {
        self.entries.clear();
    }
}

/// Opening a file puts it first, lists nothing twice, and keeps the list within
/// its bound.
pub proof fn touched_is_bounded_and_distinct(s: Seq<EntryModel>, path: Seq<char>, now_ms: u64)
    requires
        keys_differ(s),
    ensures
        0 < touched(s, path, now_ms).len() <= MAX_RECENT,
        keys_differ(touched(s, path, now_ms)),
        key_for(touched(s, path, now_ms)[0].path) == key_for(path),
        touched(s, path, now_ms)[0].last_opened_unix_ms == now_ms,
{
    place_of_shape(s, path);
    let at = place_of(s, path);
    let rest = others(s, path);
    let full = seq![opened_entry(s, path, now_ms)] + rest;
    assert forall|k: int| 0 <= k < rest.len() implies key_for((#[trigger] rest[k]).path) != key_for(
        path,
    ) by {
        if at < s.len() {
            let o = if k < at {
                k
            } else {
                k + 1
            };
            assert(rest[k] == s[o]);
            if o < at {
                assert(key_for(s[o].path) != key_for(s[at].path));
            } else {
                assert(key_for(s[at].path) != key_for(s[o].path));
            }
        }
    }
    assert forall|i: int, j: int| 0 <= i < j < full.len() implies key_for(
        (#[trigger] full[i]).path,
    ) != key_for((#[trigger] full[j]).path) by {
        assert(full[j] == rest[j - 1]);
        if i > 0 {
            assert(full[i] == rest[i - 1]);
            if at < s.len() {
                let a = if i - 1 < at {
                    i - 1
                } else {
                    i
                };
                let b = if j - 1 < at {
                    j - 1
                } else {
                    j
                };
                assert(rest[i - 1] == s[a] && rest[j - 1] == s[b]);
            }
        }
    }
    assert(touched(s, path, now_ms)[0] == full[0]);
}

/// Whether the time of opening never rises along the list.
pub open spec fn newest_first(s: Seq<EntryModel>) -> bool {
    forall|i: int, j: int|
        0 <= i < j < s.len() ==> (#[trigger] s[i]).last_opened_unix_ms >= (
        #[trigger] s[j]).last_opened_unix_ms
}

/// Opening a file, at no earlier time than the others, keeps the newest first.
pub proof fn opening_keeps_the_newest_first(s: Seq<EntryModel>, path: Seq<char>, now_ms: u64)
    requires
        newest_first(s),
        s.len() > 0 ==> s[0].last_opened_unix_ms <= now_ms,
    ensures
        newest_first(touched(s, path, now_ms)),
{
    place_of_shape(s, path);
    let at = place_of(s, path);
    let rest = others(s, path);
    let full = seq![opened_entry(s, path, now_ms)] + rest;
    assert forall|k: int| 0 <= k < rest.len() implies #[trigger] rest[k] == s[if at < s.len() && k
        >= at {
        k + 1
    } else {
        k
    }] by {}
    assert(newest_first(full)) by {
        assert forall|i: int, j: int| 0 <= i < j < full.len() implies (
        #[trigger] full[i]).last_opened_unix_ms >= (#[trigger] full[j]).last_opened_unix_ms by {
            assert(full[j] == rest[j - 1]);
            let b = if at < s.len() && j - 1 >= at {
                j
            } else {
                j - 1
            };
            assert(rest[j - 1] == s[b]);
            if i == 0 {
                if b > 0 {
                    assert(s[0].last_opened_unix_ms >= s[b].last_opened_unix_ms);
                }
            } else {
                assert(full[i] == rest[i - 1]);
                let a = if at < s.len() && i - 1 >= at {
                    i
                } else {
                    i - 1
                };
                assert(rest[i - 1] == s[a]);
                assert(a < b);
            }
        }
    }
    let t = touched(s, path, now_ms);
    assert forall|i: int, j: int| 0 <= i < j < t.len() implies (
    #[trigger] t[i]).last_opened_unix_ms >= (#[trigger] t[j]).last_opened_unix_ms by {
        assert(t[i] == full[i] && t[j] == full[j]);
    }
}

/// Noting progress and removing an entry keep the newest first.
pub proof fn other_changes_keep_the_newest_first(
    s: Seq<EntryModel>,
    path: Seq<char>,
    position_ms: u64,
    duration_ms: u64,
    index: int,
)
    requires
        newest_first(s),
        0 <= index < s.len(),
    ensures
        newest_first(progressed(s, path, position_ms, duration_ms)),
        newest_first(s.remove(index)),
{
    place_of_shape(s, path);
    let t = progressed(s, path, position_ms, duration_ms);
    assert forall|k: int| 0 <= k < t.len() implies (#[trigger] t[k]).last_opened_unix_ms
        == s[k].last_opened_unix_ms by {}
    assert forall|i: int, j: int| 0 <= i < j < t.len() implies (
    #[trigger] t[i]).last_opened_unix_ms >= (#[trigger] t[j]).last_opened_unix_ms by {
        assert(s[i].last_opened_unix_ms >= s[j].last_opened_unix_ms);
    }
    let u = s.remove(index);
    assert forall|i: int, j: int| 0 <= i < j < u.len() implies (
    #[trigger] u[i]).last_opened_unix_ms >= (#[trigger] u[j]).last_opened_unix_ms by {
        let a = if i < index {
            i
        } else {
            i + 1
        };
        let b = if j < index {
            j
        } else {
            j + 1
        };
        assert(u[i] == s[a] && u[j] == s[b]);
    }
}

/// Opening a listed file again keeps its progress.
pub proof fn reopening_keeps_progress(s: Seq<EntryModel>, path: Seq<char>, now_ms: u64)
    requires
        place_of(s, path) < s.len(),
    ensures
        touched(s, path, now_ms)[0].last_position_ms == s[place_of(s, path)].last_position_ms,
        touched(s, path, now_ms)[0].duration_ms == s[place_of(s, path)].duration_ms,
        touched(s, path, now_ms)[0].path == s[place_of(s, path)].path,
{
    place_of_shape(s, path);
    let full = seq![opened_entry(s, path, now_ms)] + others(s, path);
    assert(touched(s, path, now_ms)[0] == full[0]);
}

/// What was noted as progress is what resuming goes by.
pub proof fn progress_is_read_back(
    s: Seq<EntryModel>,
    path: Seq<char>,
    position_ms: u64,
    duration_ms: u64,
)
    requires
        place_of(s, path) < s.len(),
        duration_ms > 0,
    ensures
        ({
            let t = progressed(s, path, position_ms, duration_ms);
            &&& place_of(t, path) == place_of(s, path)
            &&& t.len() == s.len()
            &&& t[place_of(t, path)].last_position_ms == position_ms
            &&& t[place_of(t, path)].duration_ms == duration_ms
        }),
{
    place_of_shape(s, path);
    let t = progressed(s, path, position_ms, duration_ms);
    assert forall|k: int| 0 <= k < place_of(s, path) implies key_for((#[trigger] t[k]).path)
        != key_for(path) by {
        assert(t[k] == s[k]);
    }
    place_of_is(t, path, place_of(s, path));
}

/// Whether an entry can be stored: its path is there, holds no line feed and
/// does not end in a carriage return. Paths of files never do.
pub open spec fn is_storable(e: EntryModel) -> bool {
    e.path.len() > 0 && is_plain_line(e.path)
}

/// A stored entry is read back as it was.
pub proof fn entry_line_is_read_back(e: EntryModel)
    requires
        is_storable(e),
    ensures
        parsed_entry(entry_line(e)) == Some(e),
        is_plain_line(entry_line(e)),
{
    let a = digits(e.last_position_ms as nat);
    let b = digits(e.duration_ms as nat);
    let c = digits(e.last_opened_unix_ms as nat);
    digits_are_clean(e.last_position_ms as nat);
    digits_are_clean(e.duration_ms as nat);
    digits_are_clean(e.last_opened_unix_ms as nat);
    parse_of_digits(e.last_position_ms);
    parse_of_digits(e.duration_ms);
    parse_of_digits(e.last_opened_unix_ms);
    split_once_of_join(c, '\t', e.path);
    split_once_of_join(b, '\t', c + seq!['\t'] + e.path);
    split_once_of_join(a, '\t', b + seq!['\t'] + (c + seq!['\t'] + e.path));
    let line = entry_line(e);
    assert(line.last() == e.path.last());
    assert forall|k: int| 0 <= k < line.len() implies line[k] != '\n' by {
        let x = a.len() + 1;
        let y = x + b.len() + 1;
        let z = y + c.len() + 1;
        if k < a.len() {
            assert(line[k] == a[k]);
        } else if x <= k < x + b.len() {
            assert(line[k] == b[k - x]);
        } else if y <= k < y + c.len() {
            assert(line[k] == c[k - y]);
        } else if k >= z {
            assert(line[k] == e.path[k - z]);
        }
    }
}

/// What was stored is read back as it was.
pub proof fn stored_list_is_read_back(s: Seq<EntryModel>)
    requires
        s.len() <= MAX_RECENT,
        forall|k: int| 0 <= k < s.len() ==> is_storable(#[trigger] s[k]),
    ensures
        capped(parsed_entries(lines_of(joined(entry_lines(s))))) == s,
{
    let all = entry_lines(s);
    assert forall|k: int| 0 <= k < all.len() implies is_plain_line(#[trigger] all[k]) by {
        assert(is_storable(s[k]));
        entry_line_is_read_back(s[k]);
    }
    lines_of_joined(all);
    parsed_of_lines(s);
}

proof fn parsed_of_lines(s: Seq<EntryModel>)
    requires
        forall|k: int| 0 <= k < s.len() ==> is_storable(#[trigger] s[k]),
    ensures
        parsed_entries(entry_lines(s)) == s,
    decreases s.len(),
{
    if s.len() == 0 {
        assert(parsed_entries(entry_lines(s)) =~= s);
    } else {
        let front = s.drop_last();
        assert forall|k: int| 0 <= k < front.len() implies is_storable(#[trigger] front[k]) by {
            assert(front[k] == s[k]);
        }
        parsed_of_lines(front);
        assert(entry_lines(s).drop_last() =~= entry_lines(front));
        assert(is_storable(s[s.len() - 1]));
        entry_line_is_read_back(s.last());
        assert(s =~= front.push(s.last()));
    }
}

/// A file that is new to the list goes to its front with no progress; the others keep
/// their order, and of twenty the oldest goes.
pub proof fn new_file_goes_to_the_front(s: Seq<EntryModel>, path: Seq<char>, now_ms: u64)
    requires
        forall|k: int| 0 <= k < s.len() ==> key_for((#[trigger] s[k]).path) != key_for(path),
        s.len() <= 20,
    ensures
        ({
            let t = touched(s, path, now_ms);
            let new = EntryModel {
                path,
                last_position_ms: 0,
                duration_ms: 0,
                last_opened_unix_ms: now_ms,
            };
            &&& (s.len() < 20 ==> t == seq![new] + s)
            &&& (s.len() == 20 ==> t == seq![new] + s.take(19))
        }),
{
    place_of_is(s, path, s.len() as int);
    let new = EntryModel { path, last_position_ms: 0, duration_ms: 0, last_opened_unix_ms: now_ms };
    assert((seq![new] + s).take(20) =~= seq![new] + s.take(19) || s.len() < 20);
}

/// A file that is listed already moves to the front; all others stay, in their order.
pub proof fn listed_file_moves_to_the_front(
    s: Seq<EntryModel>,
    path: Seq<char>,
    at: int,
    now_ms: u64,
)
    requires
        0 <= at < s.len() <= 20,
        key_for(s[at].path) == key_for(path),
        forall|k: int| 0 <= k < at ==> key_for((#[trigger] s[k]).path) != key_for(path),
    ensures
        ({
            let t = touched(s, path, now_ms);
            &&& t.len() == s.len()
            &&& t[0].path == s[at].path
            &&& t[0].last_position_ms == s[at].last_position_ms
            &&& t[0].duration_ms == s[at].duration_ms
            &&& t[0].last_opened_unix_ms == now_ms
            &&& (forall|k: int| 1 <= k <= at ==> #[trigger] t[k] == s[k - 1])
            &&& (forall|k: int| at < k < s.len() ==> #[trigger] t[k] == s[k])
        }),
{
    place_of_is(s, path, at);
    let full = seq![opened_entry(s, path, now_ms)] + others(s, path);
    assert(touched(s, path, now_ms) =~= full);
    assert forall|k: int| 1 <= k <= at implies #[trigger] full[k] == s[k - 1] by {}
    assert forall|k: int| at < k < s.len() implies #[trigger] full[k] == s[k] by {}
}

/// Progress is noted for its file alone; a length that is not known leaves the known
/// one, and a file that is not listed changes nothing.
pub proof fn progress_is_noted_for_its_file(
    s: Seq<EntryModel>,
    path: Seq<char>,
    at: int,
    position_ms: u64,
    duration_ms: u64,
)
    requires
        0 <= at <= s.len(),
        at < s.len() ==> key_for(s[at].path) == key_for(path),
        forall|k: int| 0 <= k < at ==> key_for((#[trigger] s[k]).path) != key_for(path),
    ensures
        ({
            let t = progressed(s, path, position_ms, duration_ms);
            &&& (at == s.len() ==> t == s)
            &&& t.len() == s.len()
            &&& (forall|k: int| 0 <= k < s.len() && k != at ==> #[trigger] t[k] == s[k])
            &&& (at < s.len() ==> t[at].last_position_ms == position_ms && t[at].path == s[at].path
                && t[at].last_opened_unix_ms == s[at].last_opened_unix_ms && t[at].duration_ms == (
            if duration_ms > 0 {
                duration_ms
            } else {
                s[at].duration_ms
            }))
        }),
{
    place_of_is(s, path, at);
}

/// Playback resumes from beyond thirty seconds and before nineteen twentieths of a
/// known length.
pub proof fn playback_resumes_from_the_middle(position_ms: u64, duration_ms: u64)
    ensures
        resumes(position_ms, duration_ms) <==> position_ms > 30_000 && 20 * position_ms < 19
            * duration_ms,
        duration_ms == 0 ==> !resumes(position_ms, duration_ms),
        resumes(position_ms, duration_ms) ==> position_ms < duration_ms,
{
}

} // verus!
