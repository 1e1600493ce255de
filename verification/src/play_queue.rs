//! The queue of files to play one after the other.
use std::cmp::Ordering;
use vstd::prelude::*;
use crate::fields::texts;
use crate::media_ext::{is_media, is_supported_media};
use crate::natural::{
    natural_cmp, natural_order, natural_order_antisymmetric, natural_order_reflexive,
    natural_order_transitive, natural_order_zero,
};
use crate::text::{eq_ignore_ascii_case, lower_seq};

verus! {

/// Files to play and the one that plays.
#[derive(Debug)]
pub struct PlayQueue {
    pub items: Vec<String>,
    pub cursor: usize,
}

/// What tells two paths apart: the path without regard to ASCII case.
pub open spec fn dedup_key(path: Seq<char>) -> Seq<char> {
    lower_seq(path)
}

/// Whether a path of this key is among some paths.
pub open spec fn has_key(paths: Seq<Seq<char>>, key: Seq<char>) -> bool {
    exists|i: int| 0 <= i < paths.len() && dedup_key(#[trigger] paths[i]) == key
}

/// Whether no two paths have one key.
pub open spec fn keys_differ(paths: Seq<Seq<char>>) -> bool {
    forall|i: int, j: int|
        0 <= i < j < paths.len() ==> dedup_key(#[trigger] paths[i]) != dedup_key(
            #[trigger] paths[j],
        )
}

/// Whether paths stand in natural order, each before the next.
pub open spec fn strictly_natural(paths: Seq<Seq<char>>) -> bool {
    forall|i: int, j: int|
        0 <= i < j < paths.len() ==> natural_order(#[trigger] paths[i], #[trigger] paths[j]) < 0
}

/// Whether paths stand in natural order; those that differ in case alone may
/// stand in either order.
pub open spec fn weakly_natural(paths: Seq<Seq<char>>) -> bool {
    forall|i: int, j: int|
        0 <= i < j < paths.len() ==> natural_order(#[trigger] paths[i], #[trigger] paths[j]) <= 0
}

/// Whether `at` is where the first media file of its key stands.
pub open spec fn is_first_of_key(paths: Seq<Seq<char>>, at: int) -> bool {
    &&& 0 <= at < paths.len()
    &&& is_media(paths[at])
    &&& forall|k: int|
        0 <= k < at && is_media(#[trigger] paths[k]) ==> dedup_key(paths[k]) != dedup_key(paths[at])
}

/// Whether a path is the first media file of its key among some paths.
pub open spec fn is_first_copy(paths: Seq<Seq<char>>, path: Seq<char>) -> bool {
    exists|at: int| #[trigger] is_first_of_key(paths, at) && paths[at] == path
}

/// Whether `items` are the media files among `paths` in natural order, of those
/// with one key the first alone.
pub open spec fn is_natural_selection(items: Seq<Seq<char>>, paths: Seq<Seq<char>>) -> bool {
    &&& strictly_natural(items)
    &&& forall|i: int| 0 <= i < items.len() ==> is_first_copy(paths, #[trigger] items[i])
    &&& forall|at: int|
        0 <= at < paths.len() && is_media(#[trigger] paths[at]) ==> has_key(
            items,
            dedup_key(paths[at]),
        )
}

/// The media files among `paths` in their order, of those with one key the
/// first alone.
pub open spec fn ordered_selection(paths: Seq<Seq<char>>) -> Seq<Seq<char>>
    decreases paths.len(),
{
    if paths.len() == 0 {
        Seq::empty()
    } else {
        let before = ordered_selection(paths.drop_last());
        let last = paths.last();
        if is_media(last) && !has_key(before, dedup_key(last)) {
            before.push(last)
        } else {
            before
        }
    }
}

/// The media files among `paths`.
pub open spec fn media_only(paths: Seq<Seq<char>>) -> Seq<Seq<char>>
    decreases paths.len(),
{
    if paths.len() == 0 {
        Seq::empty()
    } else if is_media(paths.last()) {
        media_only(paths.drop_last()).push(paths.last())
    } else {
        media_only(paths.drop_last())
    }
}

/// The paths of one key, in their order.
pub open spec fn of_key(paths: Seq<Seq<char>>, key: Seq<char>) -> Seq<Seq<char>>
    decreases paths.len(),
{
    if paths.len() == 0 {
        Seq::empty()
    } else if dedup_key(paths.last()) == key {
        of_key(paths.drop_last(), key).push(paths.last())
    } else {
        of_key(paths.drop_last(), key)
    }
}

proof fn of_key_concat(a: Seq<Seq<char>>, b: Seq<Seq<char>>, key: Seq<char>)
    ensures
        of_key(a + b, key) == of_key(a, key) + of_key(b, key),
    decreases b.len(),
{
    if b.len() == 0 {
        assert(a + b =~= a);
        assert(of_key(a, key) + of_key(b, key) =~= of_key(a, key));
    } else {
        assert((a + b).drop_last() =~= a + b.drop_last());
        of_key_concat(a, b.drop_last(), key);
        assert(of_key(a + b, key) =~= of_key(a, key) + of_key(b, key));
    }
}

proof fn of_key_none(b: Seq<Seq<char>>, key: Seq<char>)
    requires
        forall|i: int| 0 <= i < b.len() ==> dedup_key(#[trigger] b[i]) != key,
    ensures
        of_key(b, key).len() == 0,
    decreases b.len(),
{
    if b.len() > 0 {
        assert(b.last() == b[b.len() - 1]);
        assert forall|i: int| 0 <= i < b.len() - 1 implies dedup_key(
            #[trigger] b.drop_last()[i],
        ) != key by {
            assert(b.drop_last()[i] == b[i]);
        }
        of_key_none(b.drop_last(), key);
    }
}

fn is_listed(items: &Vec<String>, path: &str) -> (r: bool)
    ensures
        r == has_key(texts(items@), dedup_key(path@)),
{
    let ghost list = texts(items@);
    let mut i: usize = 0;
    while i < items.len()
        invariant
            i <= items@.len(),
            list == texts(items@),
            forall|k: int| 0 <= k < i ==> dedup_key(#[trigger] list[k]) != dedup_key(path@),
        decreases items@.len() - i,
    {
        if eq_ignore_ascii_case(items[i].as_str(), path) {
            proof {
                assert(dedup_key(list[i as int]) == dedup_key(path@));
            }
            return true;
        }
        i = i + 1;
    }
    false
}

impl PlayQueue {
    /// The cursor is on an item, unless there is none, and no path is there twice.
    pub open spec fn wf(self) -> bool {
        &&& (self.cursor < self@.len() || (self.cursor == 0 && self@.len() == 0))
        &&& keys_differ(self@)
    }
}

impl View for PlayQueue {
    type V = Seq<Seq<char>>;

    open spec fn view(&self) -> Seq<Seq<char>> {
        texts(self.items@)
    }
}

/// Finds where a path goes in a list in natural order, or that it is there.
fn natural_place(items: &Vec<String>, path: &str) -> (r: Result<usize, usize>)
    requires
        strictly_natural(texts(items@)),
    ensures
        match r {
            Ok(at) => at < items@.len() && natural_order(items@[int_at(at)]@, path@) == 0,
            Err(at) => {
                &&& at <= items@.len()
                &&& forall|k: int| 0 <= k < at ==> natural_order(#[trigger] items@[k]@, path@) < 0
                &&& forall|k: int|
                    at <= k < items@.len() ==> natural_order(#[trigger] items@[k]@, path@) > 0
            },
        },
{
    let mut i: usize = 0;
    while i < items.len()
        invariant
            i <= items@.len(),
            strictly_natural(texts(items@)),
            forall|k: int| 0 <= k < i ==> natural_order(#[trigger] items@[k]@, path@) < 0,
        decreases items@.len() - i,
    {
        match natural_cmp(items[i].as_str(), path) {
            Ordering::Less => {},
            Ordering::Equal => {
                return Ok(i);
            },
            Ordering::Greater => {
                proof {
                    let t = texts(items@);
                    assert forall|k: int| i <= k < items@.len() implies natural_order(
                        #[trigger] items@[k]@,
                        path@,
                    ) > 0 by {
                        if k > i {
                            assert(natural_order(t[int_at(i)], t[k]) < 0);
                            natural_order_antisymmetric(items@[int_at(i)]@, path@);
                            natural_order_transitive(path@, t[int_at(i)], t[k]);
                            natural_order_antisymmetric(path@, t[k]);
                        }
                    }
                }
                return Err(i);
            },
        }
        i = i + 1;
    }
    Err(i)
}

/// A place as an integer of the model.
pub open spec fn int_at(n: usize) -> int {
    n as int
}

proof fn insert_keeps_strict(t: Seq<Seq<char>>, at: int, path: Seq<char>)
    requires
        strictly_natural(t),
        0 <= at <= t.len(),
        forall|k: int| 0 <= k < at ==> natural_order(#[trigger] t[k], path) < 0,
        forall|k: int| at <= k < t.len() ==> natural_order(#[trigger] t[k], path) > 0,
    ensures
        strictly_natural(t.insert(at, path)),
{
    let n = t.insert(at, path);
    assert forall|i: int, j: int| 0 <= i < j < n.len() implies natural_order(
        #[trigger] n[i],
        #[trigger] n[j],
    ) < 0 by {
        let a = if i < at {
            i
        } else {
            i - 1
        };
        let b = if j < at {
            j
        } else {
            j - 1
        };
        if i == at {
            assert(n[j] == t[b]);
            natural_order_antisymmetric(path, t[b]);
        } else if j == at {
            assert(n[i] == t[a]);
        } else {
            assert(n[i] == t[a] && n[j] == t[b]);
        }
    }
}

proof fn strict_keys_differ(t: Seq<Seq<char>>)
    requires
        strictly_natural(t),
    ensures
        keys_differ(t),
{
    assert forall|i: int, j: int| 0 <= i < j < t.len() implies dedup_key(#[trigger] t[i])
        != dedup_key(#[trigger] t[j]) by {
        natural_order_zero(t[i], t[j]);
    }
}

proof fn selection_step(
    before: Seq<Seq<char>>,
    after: Seq<Seq<char>>,
    paths: Seq<Seq<char>>,
    n: int,
    at: int,
)
    requires
        0 <= n < paths.len(),
        is_natural_selection(before, paths.take(n)),
        0 <= at <= before.len(),
        is_media(paths[n]),
        after == before.insert(at, paths[n]),
        strictly_natural(after),
        !has_key(before, dedup_key(paths[n])),
    ensures
        is_natural_selection(after, paths.take(n + 1)),
{
    let p0 = paths.take(n);
    let p1 = paths.take(n + 1);
    assert forall|i: int| 0 <= i < after.len() implies is_first_copy(
        p1,
        #[trigger] after[i],
    ) by {
        if i == at {
            assert forall|k: int| 0 <= k < n && is_media(#[trigger] p1[k]) implies dedup_key(p1[k])
                != dedup_key(p1[n]) by {
                assert(p0[k] == p1[k]);
            }
            assert(is_first_of_key(p1, n) && p1[n] == after[i]);
        } else {
            let b = if i < at {
                i
            } else {
                i - 1
            };
            assert(after[i] == before[b]);
            let w = choose|w: int| #[trigger] is_first_of_key(p0, w) && p0[w] == before[b];
            assert(is_first_of_key(p1, w)) by {
                assert(p1[w] == p0[w]);
                assert forall|k: int| 0 <= k < w && is_media(#[trigger] p1[k]) implies dedup_key(
                    p1[k],
                ) != dedup_key(p1[w]) by {
                    assert(p0[k] == p1[k]);
                }
            }
            assert(p1[w] == after[i]);
        }
    }
    assert forall|w: int| 0 <= w < p1.len() && is_media(#[trigger] p1[w]) implies has_key(
        after,
        dedup_key(p1[w]),
    ) by {
        if w == n {
            assert(after[at] == p1[w]);
        } else {
            assert(p0[w] == p1[w]);
            let i = choose|i: int|
                0 <= i < before.len() && dedup_key(#[trigger] before[i]) == dedup_key(p0[w]);
            let a = if i < at {
                i
            } else {
                i + 1
            };
            assert(after[a] == before[i]);
        }
    }
}

proof fn selection_skip(items: Seq<Seq<char>>, paths: Seq<Seq<char>>, n: int)
    requires
        0 <= n < paths.len(),
        is_natural_selection(items, paths.take(n)),
        is_media(paths[n]) ==> has_key(items, dedup_key(paths[n])),
    ensures
        is_natural_selection(items, paths.take(n + 1)),
{
    let p0 = paths.take(n);
    let p1 = paths.take(n + 1);
    assert forall|i: int| 0 <= i < items.len() implies is_first_copy(
        p1,
        #[trigger] items[i],
    ) by {
        let w = choose|w: int| #[trigger] is_first_of_key(p0, w) && p0[w] == items[i];
        assert(is_first_of_key(p1, w)) by {
            assert(p1[w] == p0[w]);
            assert forall|k: int| 0 <= k < w && is_media(#[trigger] p1[k]) implies dedup_key(p1[k])
                != dedup_key(p1[w]) by {
                assert(p0[k] == p1[k]);
            }
        }
        assert(p1[w] == items[i]);
    }
    assert forall|w: int| 0 <= w < p1.len() && is_media(#[trigger] p1[w]) implies has_key(
        items,
        dedup_key(p1[w]),
    ) by {
        if w < n {
            assert(p0[w] == p1[w]);
        } else {
            assert(p1[w] == paths[n]);
        }
    }
}

impl PlayQueue {
    /// A queue of one file, which is taken as it is.
    pub fn single(path: String) -> (r: Self)
        ensures
            r.wf(),
            r@ == seq![path@],
            r.cursor == 0,
    {
        let mut items: Vec<String> = Vec::new();
        items.push(path);
        proof {
            assert(texts(items@) =~= seq![path@]);
        }
        PlayQueue { items, cursor: 0 }
    }

    /// A queue of the media files among some paths, in natural order, without
    /// duplicates.
    pub fn from_paths(paths: Vec<String>) -> (r: Self)
        ensures
            r.wf(),
            is_natural_selection(r@, texts(paths@)),
            r.cursor == 0,
    {
        let ghost all = texts(paths@);
        let mut items: Vec<String> = Vec::new();
        let mut i: usize = 0;
        while i < paths.len()
            invariant
                i <= paths@.len(),
                all == texts(paths@),
                is_natural_selection(texts(items@), all.take(int_at(i))),
            decreases paths@.len() - i,
        {
            let path = paths[i].as_str();
            let ghost before = texts(items@);
            proof {
                assert(all[int_at(i)] == path@);
            }
            if is_supported_media(path) {
                match natural_place(&items, path) {
                    Ok(at) => {
                        proof {
                            assert(before[int_at(at)] == items@[int_at(at)]@);
                            natural_order_zero(before[int_at(at)], path@);
                            assert(has_key(before, dedup_key(path@)));
                            selection_skip(before, all, int_at(i));
                        }
                    },
                    Err(at) => {
                        proof {
                            assert forall|k: int| 0 <= k < before.len() implies dedup_key(
                                #[trigger] before[k],
                            ) != dedup_key(path@) by {
                                assert(before[k] == items@[k]@);
                                natural_order_zero(before[k], path@);
                            }
                        }
                        items.insert(at, paths[i].clone());
                        proof {
                            let after = texts(items@);
                            assert(after =~= before.insert(int_at(at), path@));
                            insert_keeps_strict(before, int_at(at), path@);
                            selection_step(before, after, all, int_at(i), int_at(at));
                        }
                    },
                }
            } else {
                proof {
                    selection_skip(before, all, int_at(i));
                }
            }
            i = i + 1;
        }
        proof {
            assert(all.take(int_at(i)) =~= all);
            strict_keys_differ(texts(items@));
        }
        PlayQueue { items, cursor: 0 }
    }

    /// A queue of the media files among some paths, in the order given, without
    /// duplicates.
    pub fn from_ordered_paths(paths: Vec<String>) -> (r: Self)
        ensures
            r.wf(),
            r@ == ordered_selection(texts(paths@)),
            r.cursor == 0,
    {
        let ghost all = texts(paths@);
        let mut items: Vec<String> = Vec::new();
        let mut i: usize = 0;
        proof {
            assert(texts(items@) =~= ordered_selection(all.take(0)));
        }
        while i < paths.len()
            invariant
                i <= paths@.len(),
                all == texts(paths@),
                texts(items@) == ordered_selection(all.take(int_at(i))),
                keys_differ(texts(items@)),
            decreases paths@.len() - i,
        {
            let path = paths[i].as_str();
            let ghost before = texts(items@);
            proof {
                assert(all.take(i + 1).drop_last() =~= all.take(int_at(i)));
                assert(all.take(i + 1).last() == path@);
            }
            if is_supported_media(path) && !is_listed(&items, path) {
                items.push(paths[i].clone());
                proof {
                    assert(texts(items@) =~= before.push(path@));
                }
            }
            i = i + 1;
        }
        proof {
            assert(all.take(int_at(i)) =~= all);
        }
        PlayQueue { items, cursor: 0 }
    }

    /// A queue of the media files of a folder, given the files in it.
    pub fn from_folder(files: Vec<String>) -> (r: Self)
        ensures
            r.wf(),
            is_natural_selection(r@, texts(files@)),
            r.cursor == 0,
    {
        Self::from_paths(files)
    }

    pub fn is_empty(&self) -> (r: bool)
        ensures
            r == (self@.len() == 0),
    {
        self.items.len() == 0
    }

    pub fn len(&self) -> (r: usize)
        ensures
            r == self@.len(),
    {
        self.items.len()
    }

    /// The files in the order in which they play.
    pub fn items(&self) -> (r: &Vec<String>)
        ensures
            texts(r@) == self@,
    {
        &self.items
    }

    /// The place of the file that plays.
    pub fn cursor(&self) -> (r: usize)
        ensures
            r == self.cursor,
    {
        self.cursor
    }

    fn get(&self, index: usize) -> (r: Option<&str>)
        ensures
            match r {
                Some(path) => index < self@.len() && path@ == self@[int_at(index)],
                None => index >= self@.len(),
            },
    {
        if index < self.items.len() {
            Some(self.items[index].as_str())
        } else {
            None
        }
    }

    /// The file that plays.
    pub fn current(&self) -> (r: Option<&str>)
        ensures
            match r {
                Some(path) => self.cursor < self@.len() && path@ == self@[int_at(self.cursor)],
                None => self.cursor >= self@.len(),
            },
    {
        self.get(self.cursor)
    }

    /// Whether there is a file behind the one that plays.
    pub open spec fn has_next(self) -> bool {
        self.cursor + 1 < self@.len()
    }

    /// Whether there is a file before the one that plays.
    pub open spec fn has_previous(self) -> bool {
        self.cursor > 0 && self.cursor <= self@.len() && self@.len() > 1
    }

    /// The file to play next. The cursor stays.
    pub fn next_path(&self) -> (r: Option<&str>)
        ensures
            match r {
                Some(path) => self.has_next() && path@ == self@[self.cursor + 1],
                None => !self.has_next(),
            },
    {
        if self.items.len() <= 1 || self.cursor >= self.items.len() {
            return None;
        }
        self.get(self.cursor + 1)
    }

    /// The file that played before. The cursor stays.
    pub fn previous_path(&self) -> (r: Option<&str>)
        ensures
            match r {
                Some(path) => self.has_previous() && path@ == self@[self.cursor - 1],
                None => !self.has_previous(),
            },
    {
        if self.items.len() <= 1 || self.cursor == 0 {
            return None;
        }
        self.get(self.cursor - 1)
    }

    /// Moves to the next file, once it has been opened; at the last file it
    /// stays and returns `false`.
    pub fn commit_next(&mut self) -> (r: bool)
        ensures
            r == old(self).has_next(),
            final(self)@ == old(self)@,
            final(self).cursor == (if r {
                old(self).cursor + 1
            } else {
                int_at(old(self).cursor)
            }),
            old(self).wf() ==> final(self).wf(),
    {
        let len: usize = self.items.len();
        if self.next_path().is_some() {
            assert(self.cursor + 1 < len);
            self.cursor = self.cursor + 1;
            true
        } else {
            false
        }
    }

    /// Moves to the file before, once it has been opened; at the first file it
    /// stays and returns `false`.
    pub fn commit_previous(&mut self) -> (r: bool)
        ensures
            r == old(self).has_previous(),
            final(self)@ == old(self)@,
            final(self).cursor == (if r {
                old(self).cursor - 1
            } else {
                int_at(old(self).cursor)
            }),
            old(self).wf() ==> final(self).wf(),
    {
        if self.previous_path().is_some() {
            self.cursor = self.cursor - 1;
            true
        } else {
            false
        }
    }
}

/// The media files of a folder in natural order, given the files in it: a
/// rearrangement of them that keeps files of one key in their order.
pub fn media_files_in_folder(files: Vec<String>) -> (r: Vec<String>)
    ensures
        weakly_natural(texts(r@)),
        forall|key: Seq<char>| #[trigger]
            of_key(texts(r@), key) == of_key(media_only(texts(files@)), key),
{
    let ghost all = texts(files@);
    let mut items: Vec<String> = Vec::new();
    let mut i: usize = 0;
    proof {
        assert(media_only(all.take(0)) =~= texts(items@));
    }
    while i < files.len()
        invariant
            i <= files@.len(),
            all == texts(files@),
            weakly_natural(texts(items@)),
            forall|key: Seq<char>| #[trigger]
                of_key(texts(items@), key) == of_key(media_only(all.take(int_at(i))), key),
        decreases files@.len() - i,
    {
        let path = files[i].as_str();
        let ghost before = texts(items@);
        let ghost next = all.take(i + 1);
        proof {
            assert(next.drop_last() =~= all.take(int_at(i)));
            assert(next.last() == path@);
        }
        if is_supported_media(path) {
            let at: usize = weak_place(&items, path);
            items.insert(at, files[i].clone());
            proof {
                let after = texts(items@);
                assert(after =~= before.insert(int_at(at), path@));
                insert_keeps_weak(before, int_at(at), path@);
                assert(media_only(next) == media_only(all.take(int_at(i))).push(path@));
                assert forall|key: Seq<char>| #[trigger] of_key(after, key) == of_key(
                    media_only(next),
                    key,
                ) by {
                    insert_at_end_of_key(before, int_at(at), path@, key);
                    assert(of_key(before, key) == of_key(media_only(all.take(int_at(i))), key));
                    let m = media_only(all.take(int_at(i)));
                    assert(m.push(path@).drop_last() =~= m);
                }
            }
        }
        i = i + 1;
    }
    proof {
        assert(all.take(int_at(i)) =~= all);
    }
    items
}

/// Finds the place behind everything that stands at or before a path.
fn weak_place(items: &Vec<String>, path: &str) -> (r: usize)
    requires
        weakly_natural(texts(items@)),
    ensures
        r <= items@.len(),
        forall|k: int| 0 <= k < r ==> natural_order(#[trigger] items@[k]@, path@) <= 0,
        forall|k: int| r <= k < items@.len() ==> natural_order(#[trigger] items@[k]@, path@) > 0,
{
    let mut i: usize = 0;
    while i < items.len()
        invariant
            i <= items@.len(),
            weakly_natural(texts(items@)),
            forall|k: int| 0 <= k < i ==> natural_order(#[trigger] items@[k]@, path@) <= 0,
        decreases items@.len() - i,
    {
        match natural_cmp(items[i].as_str(), path) {
            Ordering::Greater => {
                proof {
                    let t = texts(items@);
                    assert forall|k: int| i <= k < items@.len() implies natural_order(
                        #[trigger] items@[k]@,
                        path@,
                    ) > 0 by {
                        if k > i {
                            assert(natural_order(t[int_at(i)], t[k]) <= 0);
                            natural_order_antisymmetric(items@[int_at(i)]@, path@);
                            natural_order_transitive(path@, t[int_at(i)], t[k]);
                            natural_order_antisymmetric(path@, t[k]);
                        }
                    }
                }
                return i;
            },
            _ => {},
        }
        i = i + 1;
    }
    i
}

proof fn insert_keeps_weak(t: Seq<Seq<char>>, at: int, path: Seq<char>)
    requires
        weakly_natural(t),
        0 <= at <= t.len(),
        forall|k: int| 0 <= k < at ==> natural_order(#[trigger] t[k], path) <= 0,
        forall|k: int| at <= k < t.len() ==> natural_order(#[trigger] t[k], path) > 0,
    ensures
        weakly_natural(t.insert(at, path)),
{
    let n = t.insert(at, path);
    assert forall|i: int, j: int| 0 <= i < j < n.len() implies natural_order(
        #[trigger] n[i],
        #[trigger] n[j],
    ) <= 0 by {
        let a = if i < at {
            i
        } else {
            i - 1
        };
        let b = if j < at {
            j
        } else {
            j - 1
        };
        if i == at {
            assert(n[j] == t[b]);
            natural_order_antisymmetric(path, t[b]);
        } else if j == at {
            assert(n[i] == t[a]);
        } else {
            assert(n[i] == t[a] && n[j] == t[b]);
        }
    }
}

proof fn insert_at_end_of_key(t: Seq<Seq<char>>, at: int, path: Seq<char>, key: Seq<char>)
    requires
        0 <= at <= t.len(),
        forall|k: int| at <= k < t.len() ==> natural_order(#[trigger] t[k], path) > 0,
    ensures
        of_key(t.insert(at, path), key) == if dedup_key(path) == key {
            of_key(t, key).push(path)
        } else {
            of_key(t, key)
        },
{
    let a = t.take(at);
    let b = t.skip(at);
    assert(t =~= a + b);
    assert(t.insert(at, path) =~= a.push(path) + b);
    of_key_concat(a, b, key);
    of_key_concat(a.push(path), b, key);
    assert(a.push(path).drop_last() =~= a);
    if dedup_key(path) == key {
        assert forall|i: int| 0 <= i < b.len() implies dedup_key(#[trigger] b[i]) != key by {
            assert(b[i] == t[at + i]);
            natural_order_zero(t[at + i], path);
        }
        of_key_none(b, key);
        assert(of_key(b, key) =~= Seq::<Seq<char>>::empty());
        assert(of_key(a.push(path), key) + of_key(b, key) =~= of_key(t, key).push(path));
    }
}

/// Moving on and back again ends where it began.
pub proof fn next_then_previous_restores(q: PlayQueue, moved: PlayQueue)
    requires
        q.wf(),
        q.has_next(),
        moved@ == q@,
        moved.cursor == q.cursor + 1,
    ensures
        moved.has_previous(),
        moved.cursor - 1 == q.cursor,
{
}

/// A queue of one file leads nowhere.
pub proof fn single_file_leads_nowhere(q: PlayQueue)
    requires
        q@.len() <= 1,
        q.wf(),
    ensures
        !q.has_next(),
        !q.has_previous(),
{
}

/// The selection in natural order is determined by the paths.
pub proof fn natural_selection_is_unique(
    a: Seq<Seq<char>>,
    b: Seq<Seq<char>>,
    paths: Seq<Seq<char>>,
)
    requires
        is_natural_selection(a, paths),
        is_natural_selection(b, paths),
    ensures
        a == b,
{
    selection_holds(a, b, paths);
    selection_holds(b, a, paths);
    strict_sequences_equal(a, b);
}

proof fn selection_holds(a: Seq<Seq<char>>, b: Seq<Seq<char>>, paths: Seq<Seq<char>>)
    requires
        is_natural_selection(a, paths),
        is_natural_selection(b, paths),
    ensures
        forall|i: int| 0 <= i < a.len() ==> b.contains(#[trigger] a[i]),
{
    assert forall|i: int| 0 <= i < a.len() implies b.contains(#[trigger] a[i]) by {
        let u = choose|u: int| #[trigger] is_first_of_key(paths, u) && paths[u] == a[i];
        assert(has_key(b, dedup_key(paths[u])));
        let j = choose|j: int|
            0 <= j < b.len() && dedup_key(#[trigger] b[j]) == dedup_key(paths[u]);
        let v = choose|v: int| #[trigger] is_first_of_key(paths, v) && paths[v] == b[j];
        if u < v {
            assert(is_media(paths[u]));
        } else if v < u {
            assert(is_media(paths[v]));
        }
        assert(b[j] == a[i]);
    }
}

/// The last of one list in natural order is that of another one with the same paths.
proof fn last_paths_equal(a: Seq<Seq<char>>, b: Seq<Seq<char>>)
    requires
        strictly_natural(a),
        strictly_natural(b),
        a.len() > 0,
        b.len() > 0,
        b.contains(a[a.len() - 1]),
        a.contains(b[b.len() - 1]),
    ensures
        a[a.len() - 1] == b[b.len() - 1],
{
    let m = a.len() - 1;
    let n = b.len() - 1;
    let i = choose|i: int| 0 <= i < b.len() && b[i] == a[m];
    let j = choose|j: int| 0 <= j < a.len() && a[j] == b[n];
    if i < n && j < m {
        assert(natural_order(b[i], b[n]) < 0);
        assert(natural_order(a[j], a[m]) < 0);
        natural_order_antisymmetric(a[m], b[n]);
    }
}

/// Without the last path that two lists share, one still holds what the other does.
proof fn rest_is_contained(a: Seq<Seq<char>>, b: Seq<Seq<char>>)
    requires
        strictly_natural(a),
        a.len() > 0,
        b.len() > 0,
        a[a.len() - 1] == b[b.len() - 1],
        forall|i: int| 0 <= i < a.len() ==> b.contains(#[trigger] a[i]),
    ensures
        forall|k: int| 0 <= k < a.len() - 1 ==> b.drop_last().contains(#[trigger] a.drop_last()[k]),
        strictly_natural(a.drop_last()),
{
    let m = a.len() - 1;
    let n = b.len() - 1;
    let a1 = a.drop_last();
    let b1 = b.drop_last();
    assert forall|k: int| 0 <= k < a.len() - 1 implies b1.contains(#[trigger] a1[k]) by {
        assert(a1[k] == a[k]);
        assert(b.contains(a[k]));
        let w = choose|w: int| 0 <= w < b.len() && b[w] == a[k];
        if w == n {
            assert(natural_order(a[k], a[m]) < 0);
            natural_order_reflexive(a[m]);
        }
        assert(b1[w] == a1[k]);
    }
    assert forall|x: int, y: int| 0 <= x < y < a1.len() implies natural_order(
        #[trigger] a1[x],
        #[trigger] a1[y],
    ) < 0 by {
        assert(a1[x] == a[x] && a1[y] == a[y]);
    }
}

proof fn strict_sequences_equal(a: Seq<Seq<char>>, b: Seq<Seq<char>>)
    requires
        strictly_natural(a),
        strictly_natural(b),
        forall|i: int| 0 <= i < a.len() ==> b.contains(#[trigger] a[i]),
        forall|i: int| 0 <= i < b.len() ==> a.contains(#[trigger] b[i]),
    ensures
        a == b,
    decreases a.len(),
{
    if a.len() == 0 {
        if b.len() > 0 {
            assert(a.contains(b[0]));
        }
        assert(a =~= b);
    } else {
        assert(b.contains(a[0]));
        let m = a.len() - 1;
        let n = b.len() - 1;
        assert(b.contains(a[m]));
        assert(a.contains(b[n]));
        last_paths_equal(a, b);
        rest_is_contained(a, b);
        rest_is_contained(b, a);
        let a1 = a.drop_last();
        let b1 = b.drop_last();
        strict_sequences_equal(a1, b1);
        assert(a =~= a1.push(a[m]));
        assert(b =~= b1.push(b[n]));
    }
}

} // verus!
