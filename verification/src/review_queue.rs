//! Named queues of files to review.
use vstd::prelude::*;
use crate::fields::{
    escape_field, escape_is_clean, escape_seq, is_plain_line, joined, joined_concat, joined_push,
    lines, lines_of, lines_of_joined, split_once, split_once_of_join, split_once_seq, texts,
    unescape_field, unescape_of_escape, unescape_seq,
};
use crate::text::{
    bounded, eq_ignore_ascii_case, is_blank, lower_seq, same_text, take_at_most, trim, trim_seq,
};

verus! {

/// The longest name, in characters.
pub const MAX_REVIEW_QUEUE_NAME_CHARS: usize = 80;

/// A named queue.
#[derive(Clone, Debug, PartialEq, Eq)]
pub struct SavedReviewQueue {
    pub name: String,
    pub items: Vec<String>,
}

/// The model of a queue.
#[verifier::ext_equal]
pub struct QueueModel {
    pub name: Seq<char>,
    pub items: Seq<Seq<char>>,
}

impl View for SavedReviewQueue {
    type V = QueueModel;

    open spec fn view(&self) -> QueueModel {
        QueueModel { name: self.name@, items: texts(self.items@) }
    }
}

/// The models of some queues.
pub open spec fn models(v: Seq<SavedReviewQueue>) -> Seq<QueueModel> {
    v.map_values(|q: SavedReviewQueue| q@)
}

/// All queues.
#[derive(Debug)]
pub struct SavedReviewQueues {
    pub queues: Vec<SavedReviewQueue>,
}

impl View for SavedReviewQueues {
    type V = Seq<QueueModel>;

    open spec fn view(&self) -> Seq<QueueModel> {
        models(self.queues@)
    }
}

/// Whether two names are the same, without regard to ASCII case.
pub open spec fn same_name(a: Seq<char>, b: Seq<char>) -> bool {
    lower_seq(a) == lower_seq(b)
}

/// The place of the first queue with a name; the length if there is none.
pub open spec fn place_of(s: Seq<QueueModel>, name: Seq<char>) -> int
    decreases s.len(),
{
    if s.len() == 0 {
        0
    } else if same_name(s[0].name, name) {
        0
    } else {
        1 + place_of(s.drop_first(), name)
    }
}

proof fn place_of_is(s: Seq<QueueModel>, name: Seq<char>, at: int)
    requires
        0 <= at <= s.len(),
        forall|k: int| 0 <= k < at ==> !same_name((#[trigger] s[k]).name, name),
        at < s.len() ==> same_name(s[at].name, name),
    ensures
        place_of(s, name) == at,
    decreases at,
{
    if at > 0 {
        let rest = s.drop_first();
        assert(!same_name(s[0].name, name));
        assert forall|k: int| 0 <= k < at - 1 implies !same_name((#[trigger] rest[k]).name, name) by {
            assert(rest[k] == s[k + 1]);
        }
        if at < s.len() {
            assert(rest[at - 1] == s[at]);
        }
        place_of_is(rest, name, at - 1);
    }
}

proof fn place_of_shape(s: Seq<QueueModel>, name: Seq<char>)
    ensures
        0 <= place_of(s, name) <= s.len(),
        forall|k: int| 0 <= k < place_of(s, name) ==> !same_name((#[trigger] s[k]).name, name),
        place_of(s, name) < s.len() ==> same_name(s[place_of(s, name)].name, name),
    decreases s.len(),
{
    if s.len() > 0 && !same_name(s[0].name, name) {
        let rest = s.drop_first();
        place_of_shape(rest, name);
        let at = place_of(s, name);
        assert forall|k: int| 0 <= k < at implies !same_name((#[trigger] s[k]).name, name) by {
            if k > 0 {
                assert(rest[k - 1] == s[k]);
            }
        }
        if at < s.len() {
            assert(rest[at - 1] == s[at]);
        }
    }
}

/// A name as it is kept: bounded and without white space at its ends; none if
/// nothing is left.
pub open spec fn normalized_name(name: Seq<char>) -> Option<Seq<char>> {
    let t = trim_seq(take_at_most(name, MAX_REVIEW_QUEUE_NAME_CHARS as int));
    if t.len() == 0 {
        None
    } else {
        Some(t)
    }
}

/// The queues after one was saved: it takes the place of one with its name. A
/// queue without a name or without items is not saved.
pub open spec fn upserted(s: Seq<QueueModel>, name: Seq<char>, items: Seq<Seq<char>>) -> Seq<
    QueueModel,
> {
    match normalized_name(name) {
        Some(kept) => if items.len() == 0 {
            s
        } else {
            let at = place_of(s, kept);
            let q = QueueModel { name: kept, items };
            if at < s.len() {
                s.update(at, q)
            } else {
                s.push(q)
            }
        },
        None => s,
    }
}

/// How the name of a queue is stored.
pub open spec fn name_line(name: Seq<char>) -> Seq<char> {
    seq!['Q', '\t'] + escape_seq(name)
}

/// How an item of a queue is stored.
pub open spec fn item_line(item: Seq<char>) -> Seq<char> {
    seq!['I', '\t'] + escape_seq(item)
}

/// How a queue is stored; one without items is not.
pub open spec fn queue_lines(q: QueueModel) -> Seq<Seq<char>> {
    if q.items.len() == 0 {
        Seq::empty()
    } else {
        seq![name_line(q.name)] + q.items.map_values(|item: Seq<char>| item_line(item))
    }
}

/// How queues are stored.
pub open spec fn all_lines(s: Seq<QueueModel>) -> Seq<Seq<char>>
    decreases s.len(),
{
    if s.len() == 0 {
        Seq::empty()
    } else {
        all_lines(s.drop_last()) + queue_lines(s.last())
    }
}

/// What was read so far: the queues that are complete, and the one at hand.
pub struct Reading {
    pub done: Seq<QueueModel>,
    pub current: Option<QueueModel>,
}

impl Reading {
    /// With the queue at hand completed; without items it is dropped.
    pub open spec fn completed(self) -> Seq<QueueModel> {
        match self.current {
            Some(q) => if q.items.len() > 0 {
                self.done.push(q)
            } else {
                self.done
            },
            None => self.done,
        }
    }

    /// After one more line. A name begins a queue, an item goes to the queue at
    /// hand, and any other line is passed over.
    pub open spec fn after(self, line: Seq<char>) -> Self {
        match split_once_seq(line, '\t') {
            Some((kind, value)) => if kind == "Q"@ {
                Reading {
                    done: self.completed(),
                    current: match unescape_seq(value) {
                        Some(name) => if trim_seq(name).len() > 0 {
                            Some(QueueModel { name, items: Seq::empty() })
                        } else {
                            None
                        },
                        None => None,
                    },
                }
            } else if kind == "I"@ {
                match (self.current, unescape_seq(value)) {
                    (Some(q), Some(item)) => if item.len() > 0 {
                        Reading {
                            done: self.done,
                            current: Some(QueueModel { name: q.name, items: q.items.push(item) }),
                        }
                    } else {
                        self
                    },
                    _ => self,
                }
            } else {
                self
            },
            None => self,
        }
    }

    /// After some more lines.
    pub open spec fn after_all(self, lines: Seq<Seq<char>>) -> Self
        decreases lines.len(),
    {
        if lines.len() == 0 {
            self
        } else {
            self.after_all(lines.drop_last()).after(lines.last())
        }
    }
}

/// Nothing read yet.
pub open spec fn fresh() -> Reading {
    Reading { done: Seq::empty(), current: None }
}

/// The queues that a text stands for.
pub open spec fn parsed_queues(text: Seq<char>) -> Seq<QueueModel> {
    fresh().after_all(lines_of(text)).completed()
}

/// The longest beginning of a name that may be kept.
pub fn bounded_queue_name(name: &str) -> (r: String)
    ensures
        r@ == take_at_most(name@, MAX_REVIEW_QUEUE_NAME_CHARS as int),
        r@.len() <= MAX_REVIEW_QUEUE_NAME_CHARS,
{
    bounded(name, MAX_REVIEW_QUEUE_NAME_CHARS)
}

fn normalize_queue_name(name: &str) -> (r: Option<String>)
    ensures
        match r {
            Some(kept) => normalized_name(name@) == Some(kept@),
            None => normalized_name(name@) is None,
        },
{
    let kept = bounded_queue_name(name);
    let trimmed = trim(kept.as_str());
    if trimmed.as_str().unicode_len() == 0 {
        None
    } else {
        Some(trimmed)
    }
}

impl Default for SavedReviewQueues {
    fn default() -> (r: Self)
        ensures
            r@.len() == 0,
    {
        SavedReviewQueues { queues: Vec::new() }
    }
}

impl SavedReviewQueues {
    /// The queues that stored text stands for; without text there are none.
    pub fn load(contents: Option<&str>) -> (r: Self)
        ensures
            r@ == (match contents {
                Some(text) => parsed_queues(text@),
                None => Seq::empty(),
            }),
    {
        match contents {
            Some(text) => Self::parse(text),
            None => {
                let queues: Vec<SavedReviewQueue> = Vec::new();
                proof {
                    assert(models(queues@) =~= Seq::<QueueModel>::empty());
                }
                SavedReviewQueues { queues }
            },
        }
    }

    /// The queues that a text stands for.
    pub fn parse(contents: &str) -> (r: Self)
        ensures
            r@ == parsed_queues(contents@),
    {
        let all = lines(contents);
        let ghost list = texts(all@);
        let mut queues: Vec<SavedReviewQueue> = Vec::new();
        let mut current: Option<SavedReviewQueue> = None;
        let mut i: usize = 0;
        proof {
            assert(models(queues@) =~= Seq::<QueueModel>::empty());
            assert(list.take(0) =~= Seq::<Seq<char>>::empty());
        }
        while i < all.len()
            invariant
                i <= all@.len(),
                list == texts(all@),
                (Reading { done: models(queues@), current: queue_view(current) })
                    == fresh().after_all(list.take(i as int)),
            decreases all@.len() - i,
        {
            let ghost before = fresh().after_all(list.take(i as int));
            proof {
                assert(list.take(i + 1).drop_last() =~= list.take(i as int));
                assert(list.take(i + 1).last() == all@[i as int]@);
            }
            if let Some((kind, value)) = split_once(all[i].as_str(), '\t') {
                if same_text(kind.as_str(), "Q") {
                    complete(&mut queues, current);
                    current = None;
                    if let Some(name) = unescape_field(value.as_str()) {
                        if !is_blank(name.as_str()) {
                            current = Some(SavedReviewQueue { name, items: Vec::new() });
                            proof {
                                assert(texts(current->Some_0.items@) =~= Seq::<Seq<char>>::empty());
                            }
                        }
                    }
                } else if same_text(kind.as_str(), "I") {
                    if let Some(item) = unescape_field(value.as_str()) {
                        if item.as_str().unicode_len() > 0 {
                            current = with_item(current, item);
                        }
                    }
                }
            }
            i = i + 1;
        }
        proof {
            assert(list.take(list.len() as int) =~= list);
        }
        complete(&mut queues, current);
        SavedReviewQueues { queues }
    }

    /// The text to store.
    pub fn serialize(&self) -> (r: String)
        ensures
            r@ == joined(all_lines(self@)),
    {
        let mut out = String::new();
        let mut i: usize = 0;
        proof {
            assert(self@.take(0) =~= Seq::<QueueModel>::empty());
            assert(out@ =~= joined(all_lines(self@.take(0))));
        }
        while i < self.queues.len()
            invariant
                i <= self.queues@.len(),
                out@ == joined(all_lines(self@.take(i as int))),
            decreases self.queues@.len() - i,
        {
            push_queue(&mut out, &self.queues[i]);
            proof {
                let q = self.queues@[i as int]@;
                assert(self@[i as int] == q);
                assert(self@.take(i + 1).drop_last() =~= self@.take(i as int));
                assert(self@.take(i + 1).last() == q);
                joined_concat(all_lines(self@.take(i as int)), queue_lines(q));
            }
            i = i + 1;
        }
        proof {
            assert(self@.take(self@.len() as int) =~= self@);
        }
        out
    }

    pub fn queues(&self) -> (r: &Vec<SavedReviewQueue>)
        ensures
            models(r@) == self@,
    {
        &self.queues
    }

    fn find(&self, name: &str) -> (r: usize)
        ensures
            r == place_of(self@, name@),
            r <= self.queues@.len(),
    {
        let ghost s = self@;
        let mut i: usize = 0;
        while i < self.queues.len()
            invariant
                i <= self.queues@.len(),
                s == self@,
                forall|k: int| 0 <= k < i ==> !same_name((#[trigger] s[k]).name, name@),
            decreases self.queues@.len() - i,
        {
            proof {
                assert(s[i as int].name == self.queues@[i as int].name@);
            }
            if eq_ignore_ascii_case(self.queues[i].name.as_str(), name) {
                proof {
                    place_of_is(s, name@, i as int);
                }
                return i;
            }
            i = i + 1;
        }
        proof {
            place_of_is(s, name@, i as int);
        }
        i
    }

    /// Saves a queue.
    pub fn upsert(&mut self, name: &str, items: Vec<String>)
        ensures
            final(self)@ == upserted(old(self)@, name@, texts(items@)),
    {
        let name = match normalize_queue_name(name) {
            Some(name) => name,
            None => {
                return;
            },
        };
        if items.len() == 0 {
            return;
        }
        let at: usize = self.find(name.as_str());
        let ghost kept = name@;
        let ghost list = texts(items@);
        let queue = SavedReviewQueue { name, items };
        if at < self.queues.len() {
            let _ = self.queues.remove(at);
            self.queues.insert(at, queue);
            proof {
                assert(self@ =~= old(self)@.update(
                    at as int,
                    QueueModel { name: kept, items: list },
                ));
            }
        } else {
            self.queues.push(queue);
            proof {
                assert(self@ =~= old(self)@.push(QueueModel { name: kept, items: list }));
            }
        }
    }

    /// Removes the queue at a place; returns whether there was one.
    pub fn remove_index(&mut self, index: usize) -> (r: bool)
        ensures
            r == (index < old(self)@.len()),
            final(self)@ == (if r {
                old(self)@.remove(index as int)
            } else {
                old(self)@
            }),
    {
        if index >= self.queues.len() {
            return false;
        }
        let _ = self.queues.remove(index);
        proof {
            assert(self@ =~= old(self)@.remove(index as int));
        }
        true
    }

    /// The first queue with a name.
    pub fn get(&self, name: &str) -> (r: Option<&SavedReviewQueue>)
        ensures
            match r {
                Some(q) => place_of(self@, name@) < self@.len() && q@ == self@[place_of(
                    self@,
                    name@,
                )],
                None => place_of(self@, name@) == self@.len(),
            },
    {
        let at: usize = self.find(name);
        if at < self.queues.len() {
            Some(&self.queues[at])
        } else {
            None
        }
    }

    /// The items of a queue whose files exist, given which of them do.
    pub fn existing_items(queue: &SavedReviewQueue, exists_on_disk: &Vec<bool>) -> (r: Vec<String>)
        requires
            exists_on_disk@.len() == queue.items@.len(),
        ensures
            texts(r@) == selected(texts(queue.items@), exists_on_disk@),
    {
        let ghost all = texts(queue.items@);
        let mut out: Vec<String> = Vec::new();
        let mut i: usize = 0;
        proof {
            assert(texts(out@) =~= selected(all.take(0), exists_on_disk@.take(0)));
        }
        while i < queue.items.len()
            invariant
                i <= queue.items@.len(),
                all == texts(queue.items@),
                exists_on_disk@.len() == queue.items@.len(),
                texts(out@) == selected(all.take(i as int), exists_on_disk@.take(i as int)),
            decreases queue.items@.len() - i,
        {
            let ghost before = texts(out@);
            proof {
                assert(all.take(i + 1).drop_last() =~= all.take(i as int));
                assert(exists_on_disk@.take(i + 1).drop_last() =~= exists_on_disk@.take(i as int));
                assert(all.take(i + 1).last() == queue.items@[i as int]@);
            }
            if exists_on_disk[i] {
                out.push(queue.items[i].clone());
                proof {
                    assert(texts(out@) =~= before.push(queue.items@[i as int]@));
                }
            }
            i = i + 1;
        }
        proof {
            assert(all.take(all.len() as int) =~= all);
            assert(exists_on_disk@.take(all.len() as int) =~= exists_on_disk@);
        }
        out
    }
}

/// The items whose flag is set, in their order.
pub open spec fn selected(items: Seq<Seq<char>>, flags: Seq<bool>) -> Seq<Seq<char>>
    decreases items.len(),
{
    if items.len() == 0 || flags.len() == 0 {
        Seq::empty()
    } else if flags.last() {
        selected(items.drop_last(), flags.drop_last()).push(items.last())
    } else {
        selected(items.drop_last(), flags.drop_last())
    }
}

/// The model of the queue at hand.
pub open spec fn queue_view(q: Option<SavedReviewQueue>) -> Option<QueueModel> {
    match q {
        Some(queue) => Some(queue@),
        None => None,
    }
}

fn complete(queues: &mut Vec<SavedReviewQueue>, current: Option<SavedReviewQueue>)
    ensures
        models(final(queues)@) == (Reading {
            done: models(old(queues)@),
            current: queue_view(current),
        }).completed(),
{
    if let Some(queue) = current {
        proof {
            assert(queue@.items.len() == queue.items@.len());
        }
        if queue.items.len() > 0 {
            queues.push(queue);
            proof {
                assert(models(queues@) =~= models(old(queues)@).push(queue@));
            }
        }
    }
}

fn with_item(current: Option<SavedReviewQueue>, item: String) -> (r: Option<SavedReviewQueue>)
    ensures
        queue_view(r) == (match queue_view(current) {
            Some(q) => Some(QueueModel { name: q.name, items: q.items.push(item@) }),
            None => None,
        }),
{
    match current {
        Some(queue) => {
            let mut items = queue.items;
            let ghost before = texts(items@);
            items.push(item);
            proof {
                assert(texts(items@) =~= before.push(item@));
            }
            Some(SavedReviewQueue { name: queue.name, items })
        },
        None => None,
    }
}

fn push_queue(out: &mut String, q: &SavedReviewQueue)
    ensures
        final(out)@ == old(out)@ + joined(queue_lines(q@)),
{
    let ghost start = out@;
    proof {
        assert(q@.items.len() == q.items@.len());
    }
    if q.items.len() == 0 {
        proof {
            assert(start + joined(queue_lines(q@)) =~= start);
        }
        return;
    }
    let ghost head = name_line(q@.name);
    let ghost rows = q@.items.map_values(|item: Seq<char>| item_line(item));
    let name = escape_field(q.name.as_str());
    out.push('Q');
    out.push('\t');
    out.append(name.as_str());
    out.push('\n');
    let mut i: usize = 0;
    proof {
        joined_push(Seq::<Seq<char>>::empty(), head);
        assert(seq![head] + rows.take(0) =~= Seq::<Seq<char>>::empty().push(head));
        assert(out@ =~= start + joined(seq![head] + rows.take(0)));
    }
    while i < q.items.len()
        invariant
            i <= q.items@.len(),
            rows == q@.items.map_values(|item: Seq<char>| item_line(item)),
            out@ == start + joined(seq![head] + rows.take(i as int)),
        decreases q.items@.len() - i,
    {
        let ghost before = out@;
        let item = escape_field(q.items[i].as_str());
        out.push('I');
        out.push('\t');
        out.append(item.as_str());
        out.push('\n');
        proof {
            let line = item_line(q.items@[i as int]@);
            assert(rows[i as int] == line);
            assert(seq![head] + rows.take(i + 1) =~= (seq![head] + rows.take(i as int)).push(line));
            joined_push(seq![head] + rows.take(i as int), line);
            assert(out@ =~= before + line + seq!['\n']);
            assert(out@ =~= start + joined(seq![head] + rows.take(i + 1)));
        }
        i = i + 1;
    }
    proof {
        assert(rows.take(rows.len() as int) =~= rows);
    }
}

/// Whether a queue can be stored: its name is not blank, it has items, and none
/// of them is empty.
pub open spec fn is_storable(q: QueueModel) -> bool {
    &&& trim_seq(q.name).len() > 0
    &&& q.items.len() > 0
    &&& forall|k: int| 0 <= k < q.items.len() ==> (#[trigger] q.items[k]).len() > 0
}

proof fn after_concat(r: Reading, a: Seq<Seq<char>>, b: Seq<Seq<char>>)
    ensures
        r.after_all(a + b) == r.after_all(a).after_all(b),
    decreases b.len(),
{
    if b.len() == 0 {
        assert(a + b =~= a);
    } else {
        assert((a + b).drop_last() =~= a + b.drop_last());
        after_concat(r, a, b.drop_last());
    }
}

proof fn name_line_is_read(r: Reading, name: Seq<char>)
    requires
        trim_seq(name).len() > 0,
    ensures
        r.after(name_line(name)) == (Reading {
            done: r.completed(),
            current: Some(QueueModel { name, items: Seq::empty() }),
        }),
        is_plain_line(name_line(name)),
{
    reveal_strlit("Q");
    let e = escape_seq(name);
    unescape_of_escape(name);
    escape_is_clean(name);
    assert(seq!['Q'] =~= "Q"@);
    assert(name_line(name) =~= seq!['Q'] + seq!['\t'] + e);
    split_once_of_join(seq!['Q'], '\t', e);
    line_is_plain('Q', e);
}

proof fn item_line_is_read(r: Reading, q: QueueModel, item: Seq<char>)
    requires
        r.current == Some(q),
        item.len() > 0,
    ensures
        r.after(item_line(item)) == (Reading {
            done: r.done,
            current: Some(QueueModel { name: q.name, items: q.items.push(item) }),
        }),
        is_plain_line(item_line(item)),
{
    reveal_strlit("Q");
    reveal_strlit("I");
    let e = escape_seq(item);
    unescape_of_escape(item);
    escape_is_clean(item);
    assert(seq!['I'] =~= "I"@);
    assert("Q"@[0] != "I"@[0]);
    assert(item_line(item) =~= seq!['I'] + seq!['\t'] + e);
    split_once_of_join(seq!['I'], '\t', e);
    line_is_plain('I', e);
}

proof fn line_is_plain(kind: char, e: Seq<char>)
    requires
        kind == 'Q' || kind == 'I',
        forall|k: int| 0 <= k < e.len() ==> e[k] != '\t' && e[k] != '\n' && e[k] != '\r',
    ensures
        is_plain_line(seq![kind, '\t'] + e),
{
    let line = seq![kind, '\t'] + e;
    assert forall|k: int| 0 <= k < line.len() implies line[k] != '\n' && line[k] != '\r' by {
        if k >= 2 {
            assert(line[k] == e[k - 2]);
        }
    }
}

proof fn items_are_read(r: Reading, name: Seq<char>, items: Seq<Seq<char>>)
    requires
        r.current == Some(QueueModel { name, items: Seq::empty() }),
        forall|k: int| 0 <= k < items.len() ==> (#[trigger] items[k]).len() > 0,
    ensures
        r.after_all(items.map_values(|item: Seq<char>| item_line(item))) == (Reading {
            done: r.done,
            current: Some(QueueModel { name, items }),
        }),
        forall|k: int| 0 <= k < items.len() ==> is_plain_line(item_line(#[trigger] items[k])),
    decreases items.len(),
{
    let rows = items.map_values(|item: Seq<char>| item_line(item));
    if items.len() == 0 {
        assert(items =~= Seq::<Seq<char>>::empty());
    } else {
        let front = items.drop_last();
        assert forall|k: int| 0 <= k < front.len() implies (#[trigger] front[k]).len() > 0 by {
            assert(front[k] == items[k]);
        }
        items_are_read(r, name, front);
        let last = items[items.len() - 1];
        assert(last.len() > 0);
        assert(rows.drop_last() =~= front.map_values(|item: Seq<char>| item_line(item)));
        let mid = r.after_all(rows.drop_last());
        item_line_is_read(mid, QueueModel { name, items: front }, last);
        assert(items =~= front.push(last));
        assert forall|k: int| 0 <= k < items.len() implies is_plain_line(
            item_line(#[trigger] items[k]),
        ) by {
            if k < front.len() {
                assert(front[k] == items[k]);
            }
        }
    }
}

proof fn queue_is_read(r: Reading, q: QueueModel)
    requires
        is_storable(q),
    ensures
        r.after_all(queue_lines(q)) == (Reading { done: r.completed(), current: Some(q) }),
        forall|k: int| 0 <= k < queue_lines(q).len() ==> is_plain_line(
            #[trigger] queue_lines(q)[k],
        ),
{
    let rows = q.items.map_values(|item: Seq<char>| item_line(item));
    let head = seq![name_line(q.name)];
    name_line_is_read(r, q.name);
    assert(head.drop_last() =~= Seq::<Seq<char>>::empty());
    reveal_with_fuel(Reading::after_all, 2);
    let mid = r.after_all(head);
    assert(mid == r.after(name_line(q.name)));
    after_concat(r, head, rows);
    items_are_read(mid, q.name, q.items);
    assert forall|k: int| 0 <= k < queue_lines(q).len() implies is_plain_line(
        #[trigger] queue_lines(q)[k],
    ) by {
        if k > 0 {
            assert(queue_lines(q)[k] == item_line(q.items[k - 1]));
        }
    }
}

proof fn queues_are_read(s: Seq<QueueModel>)
    requires
        forall|k: int| 0 <= k < s.len() ==> is_storable(#[trigger] s[k]),
    ensures
        fresh().after_all(all_lines(s)).completed() == s,
        forall|k: int| 0 <= k < all_lines(s).len() ==> is_plain_line(#[trigger] all_lines(s)[k]),
    decreases s.len(),
{
    if s.len() == 0 {
        assert(fresh().after_all(all_lines(s)).completed() =~= s);
    } else {
        let front = s.drop_last();
        assert forall|k: int| 0 <= k < front.len() implies is_storable(#[trigger] front[k]) by {
            assert(front[k] == s[k]);
        }
        queues_are_read(front);
        let last = s[s.len() - 1];
        assert(is_storable(last));
        let mid = fresh().after_all(all_lines(front));
        queue_is_read(mid, last);
        after_concat(fresh(), all_lines(front), queue_lines(last));
        assert(s =~= front.push(last));
        assert forall|k: int| 0 <= k < all_lines(s).len() implies is_plain_line(
            #[trigger] all_lines(s)[k],
        ) by {
            if k < all_lines(front).len() {
                assert(all_lines(s)[k] == all_lines(front)[k]);
            } else {
                assert(all_lines(s)[k] == queue_lines(last)[k - all_lines(front).len()]);
            }
        }
    }
}

/// What was stored is read back as it was.
pub proof fn stored_queues_are_read_back(s: Seq<QueueModel>)
    requires
        forall|k: int| 0 <= k < s.len() ==> is_storable(#[trigger] s[k]),
    ensures
        parsed_queues(joined(all_lines(s))) == s,
{
    queues_are_read(s);
    lines_of_joined(all_lines(s));
}

/// A saved queue is found under its name, however that is written.
pub proof fn saved_queue_is_found(
    s: Seq<QueueModel>,
    name: Seq<char>,
    items: Seq<Seq<char>>,
    asked: Seq<char>,
)
    requires
        normalized_name(name) is Some,
        items.len() > 0,
        same_name(asked, normalized_name(name).unwrap()),
    ensures
        ({
            let t = upserted(s, name, items);
            &&& place_of(t, asked) < t.len()
            &&& t[place_of(t, asked)] == QueueModel {
                name: normalized_name(name).unwrap(),
                items,
            }
        }),
{
    let kept = normalized_name(name).unwrap();
    let t = upserted(s, name, items);
    place_of_shape(s, kept);
    let at = place_of(s, kept);
    assert forall|k: int| 0 <= k < at implies !same_name((#[trigger] t[k]).name, asked) by {
        assert(t[k] == s[k]);
    }
    place_of_is(t, asked, at);
}

/// Saving under a name that is taken replaces that queue and adds none.
pub proof fn saving_again_adds_none(s: Seq<QueueModel>, name: Seq<char>, items: Seq<Seq<char>>)
    requires
        normalized_name(name) matches Some(kept) && place_of(s, kept) < s.len(),
    ensures
        upserted(s, name, items).len() == s.len(),
{
    place_of_shape(s, normalized_name(name).unwrap());
}

/// A kept name is within its bound, not blank, and kept as it is.
pub proof fn kept_name_is_bounded(name: Seq<char>)
    ensures
        normalized_name(name) matches Some(t) ==> {
            &&& 0 < t.len() <= MAX_REVIEW_QUEUE_NAME_CHARS
            &&& trim_seq(t) == t
            &&& normalized_name(t) == Some(t)
        },
{
    let b = take_at_most(name, MAX_REVIEW_QUEUE_NAME_CHARS as int);
    let _ = crate::text::trim_seq_shape(b);
    crate::text::trim_seq_idempotent(b);
}

/// A queue that is saved under a new name goes to the end; under a name that is there it
/// takes that place, and all others stay. Without a name or without items nothing is
/// saved.
pub proof fn saved_queue_takes_its_place(
    s: Seq<QueueModel>,
    name: Seq<char>,
    items: Seq<Seq<char>>,
    at: int,
)
    requires
        normalized_name(name) is Some,
        items.len() > 0,
        0 <= at <= s.len(),
        at < s.len() ==> same_name(s[at].name, normalized_name(name).unwrap()),
        forall|k: int|
            0 <= k < at ==> !same_name((#[trigger] s[k]).name, normalized_name(name).unwrap()),
    ensures
        ({
            let t = upserted(s, name, items);
            &&& t.len() == (if at < s.len() {
                s.len()
            } else {
                s.len() + 1
            })
            &&& t[at] == (QueueModel { name: normalized_name(name).unwrap(), items })
            &&& (forall|k: int| 0 <= k < s.len() && k != at ==> #[trigger] t[k] == s[k])
        }),
{
    place_is(s, normalized_name(name).unwrap(), at);
}

proof fn place_is(s: Seq<QueueModel>, name: Seq<char>, at: int)
    requires
        0 <= at <= s.len(),
        at < s.len() ==> same_name(s[at].name, name),
        forall|k: int| 0 <= k < at ==> !same_name((#[trigger] s[k]).name, name),
    ensures
        place_of(s, name) == at,
    decreases at,
{
    if at > 0 {
        let rest = s.drop_first();
        assert(!same_name(s[0].name, name));
        assert forall|k: int| 0 <= k < at - 1 implies !same_name(
            (#[trigger] rest[k]).name,
            name,
        ) by {
            assert(rest[k] == s[k + 1]);
        }
        if at < s.len() {
            assert(rest[at - 1] == s[at]);
        }
        place_is(rest, name, at - 1);
    }
}

/// A queue without a name or without items is not saved.
pub proof fn empty_queue_is_not_saved(
    s: Seq<QueueModel>,
    name: Seq<char>,
    items: Seq<Seq<char>>,
)
    requires
        trim_seq(name).len() == 0 || items.len() == 0,
        name.len() <= 64,
    ensures
        upserted(s, name, items) == s,
{
    assert(take_at_most(name, MAX_REVIEW_QUEUE_NAME_CHARS as int) =~= name);
}

/// Of a queue's items those that are still there stay, in their order.
pub proof fn items_that_are_there_stay(
    items: Seq<Seq<char>>,
    flags: Seq<bool>,
    item: Seq<char>,
    flag: bool,
)
    ensures
        selected(items.push(item), flags.push(flag)) == (if flag {
            selected(items, flags).push(item)
        } else {
            selected(items, flags)
        }),
        selected(Seq::<Seq<char>>::empty(), Seq::<bool>::empty()).len() == 0,
{
    assert(items.push(item).drop_last() =~= items);
    assert(flags.push(flag).drop_last() =~= flags);
}

} // verus!
