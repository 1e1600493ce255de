//! Markers at moments of media files, each with an optional note.
use vstd::prelude::*;
use crate::csv::{csv_field, field_text};
use crate::decimal::{digits, padded, parse_of_digits, parse_u64, parse_u64_seq, push_decimal, push_padded};
use crate::fields::{
    digits_are_clean, escape_field, escape_is_clean, escape_seq, is_plain_line, joined,
    joined_push, lines, lines_of, lines_of_joined, split_once, split_once_of_join, split_once_seq,
    texts, unescape_field, unescape_of_escape, unescape_seq,
};
use crate::lexical::{order_chars, text_order, text_order_antisymmetric, text_order_transitive};
use crate::stable::{
    insert_in_order, is_asymmetric, order_exists, order_is_unique, ordered_by, pick_next, picks,
    skip_next,
};
use crate::text::{
    bounded, from_chars, is_blank, is_control_char, lower_chars, lower_seq, same_chars,
    take_at_most, to_chars, trim, trim_seq,
};
use crate::winpath::{file_name, file_name_seq, file_stem, file_stem_seq};

verus! {

/// The longest note, in characters.
pub const MAX_MARKER_NOTE_CHARS: usize = 240;

/// A marker at a time of a file.
#[derive(Clone, Debug, PartialEq, Eq)]
pub struct ReviewMarker {
    pub media_path: String,
    pub timestamp_ms: u64,
    pub note: Option<String>,
}

/// The model of a marker.
pub struct MarkerModel {
    pub path: Seq<char>,
    pub timestamp_ms: u64,
    pub note: Option<Seq<char>>,
}

/// The text of a note.
pub open spec fn note_text(note: Option<String>) -> Option<Seq<char>> {
    match note {
        Some(t) => Some(t@),
        None => None,
    }
}

impl View for ReviewMarker {
    type V = MarkerModel;

    open spec fn view(&self) -> MarkerModel {
        MarkerModel {
            path: self.media_path@,
            timestamp_ms: self.timestamp_ms,
            note: note_text(self.note),
        }
    }
}

/// The models of some markers.
pub open spec fn models(v: Seq<ReviewMarker>) -> Seq<MarkerModel> {
    v.map_values(|m: ReviewMarker| m@)
}

/// All markers.
#[derive(Debug)]
pub struct ReviewMarkers {
    pub markers: Vec<ReviewMarker>,
}

impl View for ReviewMarkers {
    type V = Seq<MarkerModel>;

    open spec fn view(&self) -> Seq<MarkerModel> {
        models(self.markers@)
    }
}

/// What an export is written as.
#[derive(Clone, Copy, Debug, PartialEq, Eq, Structural)]
pub enum MarkerExportFormat {
    Txt,
    Csv,
}

/// What tells two paths apart: the path without regard to ASCII case.
pub open spec fn key_for(path: Seq<char>) -> Seq<char> {
    lower_seq(path)
}

/// Which markers belong to a file.
pub open spec fn belongs(s: Seq<MarkerModel>, path: Seq<char>) -> spec_fn(int) -> bool {
    |i: int| 0 <= i < s.len() && key_for(s[i].path) == key_for(path)
}

/// Which of two markers of a file comes first: the earlier one, and of two at
/// one time the one that is stored first.
pub open spec fn shown_before(s: Seq<MarkerModel>) -> spec_fn(int, int) -> bool {
    |i: int, j: int|
        s[i].timestamp_ms < s[j].timestamp_ms || (s[i].timestamp_ms == s[j].timestamp_ms && i < j)
}

/// Whether `idx` are the places of a file's markers, in the order in which they
/// are shown.
pub open spec fn is_shown_order(idx: Seq<int>, s: Seq<MarkerModel>, path: Seq<char>) -> bool {
    picks(idx, s.len() as int, belongs(s, path)) && ordered_by(idx, shown_before(s))
}

/// The places of a file's markers, in the order in which they are shown.
pub open spec fn shown_order(s: Seq<MarkerModel>, path: Seq<char>) -> Seq<int> {
    choose|idx: Seq<int>| is_shown_order(idx, s, path)
}

/// A file's markers in the order in which they are shown.
pub open spec fn shown(s: Seq<MarkerModel>, path: Seq<char>) -> Seq<MarkerModel> {
    shown_order(s, path).map_values(|i: int| s[i])
}

/// Where a marker is stored relative to another: by file, then by time.
pub open spec fn marker_order(a: MarkerModel, b: MarkerModel) -> int {
    let by_key = text_order(key_for(a.path), key_for(b.path));
    if by_key != 0 {
        by_key
    } else if a.timestamp_ms < b.timestamp_ms {
        -1
    } else if a.timestamp_ms > b.timestamp_ms {
        1
    } else {
        0
    }
}

/// Which of two places comes first when markers are sorted; markers that are at
/// one place of the order stay as they are.
pub open spec fn stored_before(s: Seq<MarkerModel>) -> spec_fn(int, int) -> bool {
    |i: int, j: int| marker_order(s[i], s[j]) < 0 || (marker_order(s[i], s[j]) == 0 && i < j)
}

/// Every place.
pub open spec fn every_place() -> spec_fn(int) -> bool {
    |i: int| true
}

/// Whether `idx` are all places, in the order of the sorted markers.
pub open spec fn is_sorted_order(idx: Seq<int>, s: Seq<MarkerModel>) -> bool {
    picks(idx, s.len() as int, every_place()) && ordered_by(idx, stored_before(s))
}

/// The markers sorted by file and time.
pub open spec fn sorted_markers(s: Seq<MarkerModel>) -> Seq<MarkerModel> {
    let idx = choose|idx: Seq<int>| is_sorted_order(idx, s);
    idx.map_values(|i: int| s[i])
}

/// Whether a file has a marker at a time.
pub open spec fn has_marker(s: Seq<MarkerModel>, path: Seq<char>, timestamp_ms: u64) -> bool {
    exists|i: int|
        0 <= i < s.len() && key_for((#[trigger] s[i]).path) == key_for(path) && s[i].timestamp_ms
            == timestamp_ms
}

/// The markers after one was set: a second one at one time is not.
pub open spec fn with_marker(s: Seq<MarkerModel>, path: Seq<char>, timestamp_ms: u64) -> Seq<
    MarkerModel,
> {
    if has_marker(s, path, timestamp_ms) {
        s
    } else {
        sorted_markers(s.push(MarkerModel { path, timestamp_ms, note: None }))
    }
}

/// A note as it is kept: bounded, without white space at its ends, and none if
/// nothing is left.
pub open spec fn normalized_note(note: Seq<char>) -> Option<Seq<char>> {
    let t = trim_seq(take_at_most(note, MAX_MARKER_NOTE_CHARS as int));
    if t.len() == 0 {
        None
    } else {
        Some(t)
    }
}

/// The text of a note, or nothing.
pub open spec fn note_or_empty(note: Option<Seq<char>>) -> Seq<char> {
    match note {
        Some(t) => t,
        None => Seq::empty(),
    }
}

/// How a marker is stored.
pub open spec fn marker_line(m: MarkerModel) -> Seq<char> {
    digits(m.timestamp_ms as nat) + seq!['\t'] + (escape_seq(m.path) + seq!['\t'] + escape_seq(
        note_or_empty(m.note),
    ))
}

/// How markers are stored.
pub open spec fn marker_lines(s: Seq<MarkerModel>) -> Seq<Seq<char>> {
    s.map_values(|m: MarkerModel| marker_line(m))
}

/// The marker that a line stands for, if it stands for one.
pub open spec fn parsed_marker(line: Seq<char>) -> Option<MarkerModel> {
    match split_once_seq(line, '\t') {
        Some((a, rest)) => match split_once_seq(rest, '\t') {
            Some((b, c)) => match (parse_u64_seq(a), unescape_seq(b), unescape_seq(c)) {
                (Some(timestamp_ms), Some(path), Some(note)) => if path.len() > 0 {
                    Some(
                        MarkerModel {
                            path,
                            timestamp_ms,
                            note: if note.len() == 0 {
                                None
                            } else {
                                Some(note)
                            },
                        },
                    )
                } else {
                    None
                },
                _ => None,
            },
            None => None,
        },
        None => None,
    }
}

/// The markers that lines stand for; other lines are passed over.
pub open spec fn parsed_markers(lines: Seq<Seq<char>>) -> Seq<MarkerModel>
    decreases lines.len(),
{
    if lines.len() == 0 {
        Seq::empty()
    } else {
        match parsed_marker(lines.last()) {
            Some(m) => parsed_markers(lines.drop_last()).push(m),
            None => parsed_markers(lines.drop_last()),
        }
    }
}

/// A time as hours, if there are any, minutes, seconds and milliseconds.
pub open spec fn timestamp_text(ms: u64) -> Seq<char> {
    let total = ms as nat / 1000;
    let tail = seq![':'] + padded(total % 60, 2) + seq!['.'] + padded(ms as nat % 1000, 3);
    if total / 3600 > 0 {
        digits(total / 3600) + seq![':'] + padded((total % 3600) / 60, 2) + tail
    } else {
        digits((total % 3600) / 60) + tail
    }
}

/// The name of a file for an export: the whole path if it has none.
pub open spec fn export_name(path: Seq<char>) -> Seq<char> {
    match file_name_seq(path) {
        Some(name) => name,
        None => path,
    }
}

/// One marker in a text export.
pub open spec fn txt_line(m: MarkerModel) -> Seq<char> {
    match m.note {
        Some(note) => timestamp_text(m.timestamp_ms) + seq!['\t'] + note,
        None => timestamp_text(m.timestamp_ms),
    }
}

/// A text export: the file's name, then a line for each marker.
pub open spec fn txt_export(path: Seq<char>, list: Seq<MarkerModel>) -> Seq<char> {
    joined(
        seq!["File: "@ + export_name(path)] + list.map_values(|m: MarkerModel| txt_line(m)),
    )
}

/// One marker in an export of comma-separated values.
pub open spec fn csv_line(m: MarkerModel) -> Seq<char> {
    field_text(export_name(m.path)) + seq![','] + digits(m.timestamp_ms as nat) + seq![',']
        + field_text(timestamp_text(m.timestamp_ms)) + seq![','] + field_text(
        note_or_empty(m.note),
    )
}

/// An export of comma-separated values: the columns, then a line for each marker.
pub open spec fn csv_export(list: Seq<MarkerModel>) -> Seq<char> {
    joined(
        seq!["file,timestamp_ms,timestamp_display,note"@] + list.map_values(
            |m: MarkerModel| csv_line(m),
        ),
    )
}

/// Whether a character may not stand in a file name.
pub open spec fn is_unsafe_in_name(c: char) -> bool {
    c == '<' || c == '>' || c == ':' || c == '"' || c == '/' || c == '\\' || c == '|' || c == '?'
        || c == '*' || is_control_char(c)
}

/// A character that may stand in a file name.
pub open spec fn safe_char(c: char) -> char {
    if is_unsafe_in_name(c) {
        '_'
    } else {
        c
    }
}

/// A file's name without extension, made safe; a stand-in if nothing is left.
pub open spec fn safe_stem(path: Seq<char>) -> Seq<char> {
    let stem = match file_stem_seq(path) {
        Some(s) => s.map_values(|c: char| safe_char(c)),
        None => "fastplay"@,
    };
    if trim_seq(stem).len() == 0 {
        "fastplay"@
    } else {
        stem
    }
}

/// The file name of an export.
pub open spec fn export_file_name(path: Seq<char>, format: MarkerExportFormat) -> Seq<char> {
    match format {
        MarkerExportFormat::Txt => safe_stem(path) + "-markers."@ + "txt"@,
        MarkerExportFormat::Csv => safe_stem(path) + "-markers."@ + "csv"@,
    }
}

proof fn shown_before_asymmetric(s: Seq<MarkerModel>)
    ensures
        is_asymmetric(shown_before(s)),
{
}

proof fn marker_order_antisymmetric(a: MarkerModel, b: MarkerModel)
    ensures
        marker_order(a, b) == -marker_order(b, a),
{
    text_order_antisymmetric(key_for(a.path), key_for(b.path));
}

proof fn marker_order_transitive(a: MarkerModel, b: MarkerModel, c: MarkerModel)
    requires
        marker_order(a, b) <= 0,
        marker_order(b, c) <= 0,
    ensures
        marker_order(a, c) <= 0,
        marker_order(a, b) < 0 || marker_order(b, c) < 0 ==> marker_order(a, c) < 0,
{
    text_order_transitive(key_for(a.path), key_for(b.path), key_for(c.path));
}

proof fn stored_before_asymmetric(s: Seq<MarkerModel>)
    ensures
        is_asymmetric(stored_before(s)),
{
    assert forall|i: int, j: int| #[trigger] stored_before(s)(i, j) implies !stored_before(s)(
        j,
        i,
    ) by {
        marker_order_antisymmetric(s[i], s[j]);
    }
}

/// The shown order of a file's markers is determined.
pub proof fn shown_order_is(idx: Seq<int>, s: Seq<MarkerModel>, path: Seq<char>)
    requires
        is_shown_order(idx, s, path),
    ensures
        shown_order(s, path) == idx,
{
    shown_before_asymmetric(s);
    order_is_unique(
        idx,
        shown_order(s, path),
        s.len() as int,
        belongs(s, path),
        shown_before(s),
    );
}

/// The sorted markers are determined.
pub proof fn sorted_markers_are(idx: Seq<int>, s: Seq<MarkerModel>)
    requires
        is_sorted_order(idx, s),
    ensures
        sorted_markers(s) == idx.map_values(|i: int| s[i]),
{
    stored_before_asymmetric(s);
    let other = choose|o: Seq<int>| is_sorted_order(o, s);
    order_is_unique(idx, other, s.len() as int, every_place(), stored_before(s));
}

fn copy_note(note: &Option<String>) -> (r: Option<String>)
    ensures
        note_text(r) == note_text(*note),
{
    match note {
        Some(t) => Some(t.clone()),
        None => None,
    }
}

fn copy_marker(m: &ReviewMarker) -> (r: ReviewMarker)
    ensures
        r@ == m@,
{
    ReviewMarker {
        media_path: m.media_path.clone(),
        timestamp_ms: m.timestamp_ms,
        note: copy_note(&m.note),
    }
}

/// Places as integers of the model.
pub open spec fn places(v: Seq<usize>) -> Seq<int> {
    v.map_values(|i: usize| i as int)
}

/// Where a marker is stored relative to another.
fn order_markers(a: &ReviewMarker, b: &ReviewMarker) -> (r: i8)
    ensures
        r == marker_order(a@, b@),
{
    let x = lower_chars(a.media_path.as_str());
    let y = lower_chars(b.media_path.as_str());
    let by_key: i8 = order_chars(&x, &y);
    if by_key != 0 {
        by_key
    } else if a.timestamp_ms < b.timestamp_ms {
        -1
    } else if a.timestamp_ms > b.timestamp_ms {
        1
    } else {
        0
    }
}

/// Sorts markers by file and time.
fn sort_markers(markers: &Vec<ReviewMarker>) -> (r: Vec<ReviewMarker>)
    ensures
        models(r@) == sorted_markers(models(markers@)),
{
    let ghost s = models(markers@);
    let mut idx: Vec<usize> = Vec::new();
    let mut i: usize = 0;
    while i < markers.len()
        invariant
            i <= markers@.len(),
            s == models(markers@),
            picks(places(idx@), i as int, every_place()),
            ordered_by(places(idx@), stored_before(s)),
        decreases markers@.len() - i,
    {
        let ghost before = places(idx@);
        let mut at: usize = idx.len();
        proof {
            assert(s[i as int] == markers@[i as int]@);
            assert forall|k: int| 0 <= k < idx@.len() implies (#[trigger] idx@[k]) < i by {
                assert(before[k] == idx@[k] as int);
            }
        }
        while at > 0 && order_markers(&markers[idx[at - 1]], &markers[i]) > 0
            invariant
                i < markers@.len(),
                at <= idx@.len(),
                s == models(markers@),
                before == places(idx@),
                picks(before, i as int, every_place()),
                ordered_by(before, stored_before(s)),
                forall|k: int| 0 <= k < idx@.len() ==> (#[trigger] idx@[k]) < i,
                forall|k: int|
                    at <= k < idx@.len() ==> stored_before(s)(i as int, #[trigger] before[k]),
            decreases at,
        {
            proof {
                let p = before[at - 1];
                assert(p == idx@[at - 1] as int);
                assert(s[p] == markers@[p]@ && s[i as int] == markers@[i as int]@);
                marker_order_antisymmetric(s[p], s[i as int]);
            }
            at = at - 1;
        }
        proof {
            if at > 0 {
                let p = before[at - 1];
                assert(p == idx@[at - 1] as int);
                assert(s[p] == markers@[p]@);
                assert forall|k: int| 0 <= k < at implies stored_before(s)(
                    #[trigger] before[k],
                    i as int,
                ) by {
                    assert(before[k] < i);
                    if k < at - 1 {
                        assert(stored_before(s)(before[k], before[at - 1]));
                        marker_order_transitive(s[before[k]], s[p], s[i as int]);
                    }
                }
            }
        }
        idx.insert(at, i);
        proof {
            assert(places(idx@) =~= before.insert(at as int, i as int));
            insert_in_order(before, at as int, i as int, stored_before(s));
            pick_next(before, at as int, i as int, every_place());
        }
        i = i + 1;
    }
    let ghost order = places(idx@);
    let mut out: Vec<ReviewMarker> = Vec::new();
    let mut k: usize = 0;
    while k < idx.len()
        invariant
            k <= idx@.len(),
            s == models(markers@),
            order == places(idx@),
            picks(order, s.len() as int, every_place()),
            models(out@) == order.take(k as int).map_values(|i: int| s[i]),
        decreases idx@.len() - k,
    {
        proof {
            assert(order[k as int] == idx@[k as int] as int);
        }
        let ghost done = models(out@);
        let m = copy_marker(&markers[idx[k]]);
        out.push(m);
        proof {
            assert(models(out@) =~= done.push(m@));
            assert(order.take(k + 1).map_values(|i: int| s[i]) =~= order.take(k as int).map_values(
                |i: int| s[i],
            ).push(s[order[k as int]]));
        }
        k = k + 1;
    }
    proof {
        assert(order.take(order.len() as int) =~= order);
        sorted_markers_are(order, s);
    }
    out
}

/// The longest beginning of a note that may be kept.
pub fn bounded_note_text(note: &str) -> (r: String)
    ensures
        r@ == take_at_most(note@, MAX_MARKER_NOTE_CHARS as int),
        r@.len() <= MAX_MARKER_NOTE_CHARS,
{
    bounded(note, MAX_MARKER_NOTE_CHARS)
}

fn normalize_note(note: &str) -> (r: Option<String>)
    ensures
        note_text(r) == normalized_note(note@),
{
    let kept = bounded_note_text(note);
    let trimmed = trim(kept.as_str());
    if trimmed.as_str().unicode_len() == 0 {
        None
    } else {
        Some(trimmed)
    }
}

/// The marker that a line stands for, if it stands for one.
pub fn parse_line(line: &str) -> (r: Option<ReviewMarker>)
    ensures
        match r {
            Some(m) => parsed_marker(line@) == Some(m@),
            None => parsed_marker(line@) is None,
        },
{
    let (a, rest) = match split_once(line, '\t') {
        Some(parts) => parts,
        None => {
            return None;
        },
    };
    let (b, c) = match split_once(rest.as_str(), '\t') {
        Some(parts) => parts,
        None => {
            return None;
        },
    };
    let timestamp_ms: u64 = match parse_u64(a.as_str()) {
        Some(n) => n,
        None => {
            return None;
        },
    };
    let media_path = match unescape_field(b.as_str()) {
        Some(p) => p,
        None => {
            return None;
        },
    };
    if media_path.as_str().unicode_len() == 0 {
        return None;
    }
    let note = match unescape_field(c.as_str()) {
        Some(n) => n,
        None => {
            return None;
        },
    };
    let note = if note.as_str().unicode_len() == 0 {
        None
    } else {
        Some(note)
    };
    Some(ReviewMarker { media_path, timestamp_ms, note })
}

/// A time as hours, if there are any, minutes, seconds and milliseconds.
pub fn format_marker_timestamp_ms(ms: u64) -> (r: String)
    ensures
        r@ == timestamp_text(ms),
{
    let total: u64 = ms / 1000;
    let mut out = String::new();
    if total / 3600 > 0 {
        push_decimal(&mut out, total / 3600);
        out.push(':');
        push_padded(&mut out, (total % 3600) / 60, 2);
    } else {
        push_decimal(&mut out, (total % 3600) / 60);
    }
    out.push(':');
    push_padded(&mut out, total % 60, 2);
    out.push('.');
    push_padded(&mut out, ms % 1000, 3);
    proof {
        assert(out@ =~= timestamp_text(ms));
    }
    out
}

fn name_for_export(path: &str) -> (r: String)
    ensures
        r@ == export_name(path@),
{
    match file_name(path) {
        Some(name) => name,
        None => from_chars(&to_chars(path)),
    }
}

/// The text of an export.
pub fn export_txt(media_path: &str, list: &Vec<ReviewMarker>) -> (r: String)
    ensures
        r@ == txt_export(media_path@, models(list@)),
{
    let ghost all = models(list@);
    let ghost head = "File: "@ + export_name(media_path@);
    let ghost rows = all.map_values(|m: MarkerModel| txt_line(m));
    let mut out = String::new();
    out.append("File: ");
    let name = name_for_export(media_path);
    out.append(name.as_str());
    out.push('\n');
    let mut i: usize = 0;
    proof {
        joined_push(Seq::<Seq<char>>::empty(), head);
        assert(seq![head] + rows.take(0) =~= Seq::<Seq<char>>::empty().push(head));
        assert(out@ =~= joined(seq![head] + rows.take(0)));
    }
    while i < list.len()
        invariant
            i <= list@.len(),
            all == models(list@),
            rows == all.map_values(|m: MarkerModel| txt_line(m)),
            out@ == joined(seq![head] + rows.take(i as int)),
        decreases list@.len() - i,
    {
        let ghost before = out@;
        let m = &list[i];
        let time = format_marker_timestamp_ms(m.timestamp_ms);
        out.append(time.as_str());
        if let Some(note) = &m.note {
            out.push('\t');
            out.append(note.as_str());
        }
        out.push('\n');
        proof {
            let line = txt_line(m@);
            assert(rows[i as int] == line);
            assert(seq![head] + rows.take(i + 1) =~= (seq![head] + rows.take(i as int)).push(line));
            joined_push(seq![head] + rows.take(i as int), line);
            assert(out@ =~= before + line + seq!['\n']);
        }
        i = i + 1;
    }
    proof {
        assert(rows.take(rows.len() as int) =~= rows);
    }
    out
}

fn push_csv_row(out: &mut String, m: &ReviewMarker)
    ensures
        final(out)@ == old(out)@ + csv_line(m@) + seq!['\n'],
{
    let ghost before = out@;
    let name = name_for_export(m.media_path.as_str());
    let time = format_marker_timestamp_ms(m.timestamp_ms);
    let file_field = csv_field(name.as_str());
    let time_field = csv_field(time.as_str());
    let note_field = match &m.note {
        Some(note) => csv_field(note.as_str()),
        None => csv_field(""),
    };
    proof {
        reveal_strlit("");
        assert(""@ =~= Seq::<char>::empty());
    }
    out.append(file_field.as_str());
    out.push(',');
    push_decimal(out, m.timestamp_ms);
    out.push(',');
    out.append(time_field.as_str());
    out.push(',');
    out.append(note_field.as_str());
    out.push('\n');
    proof {
        let f = field_text(export_name(m@.path));
        let d = digits(m@.timestamp_ms as nat);
        let t = field_text(timestamp_text(m@.timestamp_ms));
        let n = field_text(note_or_empty(m@.note));
        assert(out@ =~= before + (f + seq![','] + d + seq![','] + t + seq![','] + n) + seq!['\n']);
    }
}

/// The comma-separated values of an export.
pub fn export_csv(list: &Vec<ReviewMarker>) -> (r: String)
    ensures
        r@ == csv_export(models(list@)),
{
    let ghost all = models(list@);
    let ghost head = "file,timestamp_ms,timestamp_display,note"@;
    let ghost rows = all.map_values(|m: MarkerModel| csv_line(m));
    let mut out = String::new();
    out.append("file,timestamp_ms,timestamp_display,note");
    out.push('\n');
    let mut i: usize = 0;
    proof {
        joined_push(Seq::<Seq<char>>::empty(), head);
        assert(seq![head] + rows.take(0) =~= Seq::<Seq<char>>::empty().push(head));
        assert(out@ =~= joined(seq![head] + rows.take(0)));
    }
    while i < list.len()
        invariant
            i <= list@.len(),
            all == models(list@),
            rows == all.map_values(|m: MarkerModel| csv_line(m)),
            out@ == joined(seq![head] + rows.take(i as int)),
        decreases list@.len() - i,
    {
        let ghost before = out@;
        push_csv_row(&mut out, &list[i]);
        proof {
            let line = csv_line(list@[i as int]@);
            assert(rows[i as int] == line);
            assert(seq![head] + rows.take(i + 1) =~= (seq![head] + rows.take(i as int)).push(line));
            joined_push(seq![head] + rows.take(i as int), line);
        }
        i = i + 1;
    }
    proof {
        assert(rows.take(rows.len() as int) =~= rows);
    }
    out
}

fn is_unsafe(c: char) -> (r: bool)
    ensures
        r == is_unsafe_in_name(c),
{
    c == '<' || c == '>' || c == ':' || c == '"' || c == '/' || c == '\\' || c == '|' || c == '?'
        || c == '*' || c.is_control()
}

/// A file's name without extension, made safe for another file name.
pub fn sanitized_file_stem(path: &str) -> (r: String)
    ensures
        r@ == safe_stem(path@),
{
    let stem: String = match file_stem(path) {
        Some(stem) => {
            let x = to_chars(stem.as_str());
            let mut out: Vec<char> = Vec::new();
            let mut i: usize = 0;
            let ghost want = stem@.map_values(|c: char| safe_char(c));
            while i < x.len()
                invariant
                    i <= x@.len(),
                    x@ == stem@,
                    want == stem@.map_values(|c: char| safe_char(c)),
                    out@ == want.take(i as int),
                decreases x@.len() - i,
            {
                if is_unsafe(x[i]) {
                    out.push('_');
                } else {
                    out.push(x[i]);
                }
                proof {
                    assert(want.take(i + 1) =~= want.take(i as int).push(want[i as int]));
                }
                i = i + 1;
            }
            proof {
                assert(want.take(want.len() as int) =~= want);
            }
            from_chars(&out)
        },
        None => {
            let mut s = String::new();
            s.append("fastplay");
            proof {
                assert(s@ =~= "fastplay"@);
            }
            s
        },
    };
    if is_blank(stem.as_str()) {
        let mut s = String::new();
        s.append("fastplay");
        proof {
            assert(s@ =~= "fastplay"@);
        }
        s
    } else {
        stem
    }
}

impl Default for ReviewMarkers {
    fn default() -> (r: Self)
        ensures
            r@.len() == 0,
    {
        ReviewMarkers { markers: Vec::new() }
    }
}

impl ReviewMarkers {
    /// The markers that stored text stands for; without text there are none.
    /// Lines that stand for nothing are passed over.
    pub fn load(contents: Option<&str>) -> (r: Self)
        ensures
            r@ == (match contents {
                Some(text) => parsed_markers(lines_of(text@)),
                None => Seq::empty(),
            }),
    {
        let mut markers: Vec<ReviewMarker> = Vec::new();
        let text = match contents {
            Some(text) => text,
            None => {
                proof {
                    assert(models(markers@) =~= Seq::<MarkerModel>::empty());
                }
                return ReviewMarkers { markers };
            },
        };
        let all = lines(text);
        let ghost list = texts(all@);
        let mut i: usize = 0;
        proof {
            assert(models(markers@) =~= parsed_markers(list.take(0)));
        }
        while i < all.len()
            invariant
                i <= all@.len(),
                list == texts(all@),
                models(markers@) == parsed_markers(list.take(i as int)),
            decreases all@.len() - i,
        {
            let ghost before = models(markers@);
            proof {
                assert(list.take(i + 1).drop_last() =~= list.take(i as int));
                assert(list.take(i + 1).last() == all@[i as int]@);
            }
            if let Some(m) = parse_line(all[i].as_str()) {
                markers.push(m);
                proof {
                    assert(models(markers@) =~= before.push(m@));
                }
            }
            i = i + 1;
        }
        proof {
            assert(list.take(list.len() as int) =~= list);
        }
        ReviewMarkers { markers }
    }

    /// The text to store.
    pub fn serialize(&self) -> (r: String)
        ensures
            r@ == joined(marker_lines(self@)),
    {
        let mut out = String::new();
        let ghost all = marker_lines(self@);
        let mut i: usize = 0;
        proof {
            assert(out@ =~= joined(all.take(0)));
        }
        while i < self.markers.len()
            invariant
                i <= self.markers@.len(),
                all == marker_lines(self@),
                out@ == joined(all.take(i as int)),
            decreases self.markers@.len() - i,
        {
            let ghost before = out@;
            let m = &self.markers[i];
            let path = escape_field(m.media_path.as_str());
            let note = match &m.note {
                Some(note) => escape_field(note.as_str()),
                None => escape_field(""),
            };
            proof {
                reveal_strlit("");
                assert(""@ =~= Seq::<char>::empty());
            }
            push_decimal(&mut out, m.timestamp_ms);
            out.push('\t');
            out.append(path.as_str());
            out.push('\t');
            out.append(note.as_str());
            out.push('\n');
            proof {
                let line = marker_line(m@);
                assert(all[i as int] == line);
                assert(all.take(i + 1) =~= all.take(i as int).push(line));
                joined_push(all.take(i as int), line);
                assert(out@ =~= before + line + seq!['\n']);
            }
            i = i + 1;
        }
        proof {
            assert(all.take(all.len() as int) =~= all);
        }
        out
    }

    pub fn markers(&self) -> (r: &Vec<ReviewMarker>)
        ensures
            models(r@) == self@,
    {
        &self.markers
    }

    /// The places of a file's markers, in the order in which they are shown.
    fn places_for(&self, media_path: &str) -> (r: Vec<usize>)
        ensures
            places(r@) == shown_order(self@, media_path@),
            forall|k: int| 0 <= k < r@.len() ==> (#[trigger] r@[k]) < self.markers@.len(),
    {
        let ghost s = self@;
        let key = lower_chars(media_path);
        let mut idx: Vec<usize> = Vec::new();
        let mut i: usize = 0;
        while i < self.markers.len()
            invariant
                i <= self.markers@.len(),
                s == self@,
                key@ == key_for(media_path@),
                picks(places(idx@), i as int, belongs(s, media_path@)),
                ordered_by(places(idx@), shown_before(s)),
            decreases self.markers@.len() - i,
        {
            let ghost before = places(idx@);
            let other = lower_chars(self.markers[i].media_path.as_str());
            proof {
                assert(s[i as int].path == self.markers@[i as int].media_path@);
            }
            if same_chars(&other, &key) {
                proof {
                    assert(belongs(s, media_path@)(i as int));
                    assert forall|k: int| 0 <= k < idx@.len() implies (#[trigger] idx@[k]) < i by {
                        assert(before[k] == idx@[k] as int);
                    }
                }
                let mut at: usize = idx.len();
                while at > 0 && self.markers[idx[at - 1]].timestamp_ms
                    > self.markers[i].timestamp_ms
                    invariant
                        i < self.markers@.len(),
                        at <= idx@.len(),
                        s == self@,
                        before == places(idx@),
                        ordered_by(before, shown_before(s)),
                        forall|k: int| 0 <= k < idx@.len() ==> (#[trigger] idx@[k]) < i,
                        forall|k: int|
                            at <= k < idx@.len() ==> shown_before(s)(
                                i as int,
                                #[trigger] before[k],
                            ),
                    decreases at,
                {
                    proof {
                        let p = before[at - 1];
                        assert(p == idx@[at - 1] as int);
                        assert(s[p].timestamp_ms == self.markers@[p].timestamp_ms);
                        assert(s[i as int].timestamp_ms == self.markers@[i as int].timestamp_ms);
                    }
                    at = at - 1;
                }
                proof {
                    if at > 0 {
                        let p = before[at - 1];
                        assert(p == idx@[at - 1] as int);
                        assert(s[p].timestamp_ms == self.markers@[p].timestamp_ms);
                        assert forall|k: int| 0 <= k < at implies shown_before(s)(
                            #[trigger] before[k],
                            i as int,
                        ) by {
                            assert(before[k] == idx@[k] as int);
                            if k < at - 1 {
                                assert(shown_before(s)(before[k], before[at - 1]));
                            }
                        }
                    }
                }
                idx.insert(at, i);
                proof {
                    assert(places(idx@) =~= before.insert(at as int, i as int));
                    insert_in_order(before, at as int, i as int, shown_before(s));
                    pick_next(before, at as int, i as int, belongs(s, media_path@));
                }
            } else {
                proof {
                    assert(!belongs(s, media_path@)(i as int));
                    skip_next(before, i as int, belongs(s, media_path@));
                }
            }
            i = i + 1;
        }
        proof {
            let order = places(idx@);
            shown_order_is(order, s, media_path@);
            assert forall|k: int| 0 <= k < idx@.len() implies (#[trigger] idx@[k])
                < self.markers@.len() by {
                assert(order[k] == idx@[k] as int);
            }
        }
        idx
    }

    /// A file's markers in the order in which they are shown.
    pub fn markers_for(&self, media_path: &str) -> (r: Vec<ReviewMarker>)
        ensures
            models(r@) == shown(self@, media_path@),
    {
        let idx = self.places_for(media_path);
        let ghost s = self@;
        let ghost order = places(idx@);
        let mut out: Vec<ReviewMarker> = Vec::new();
        let mut k: usize = 0;
        while k < idx.len()
            invariant
                k <= idx@.len(),
                s == self@,
                order == places(idx@),
                forall|j: int| 0 <= j < idx@.len() ==> (#[trigger] idx@[j]) < self.markers@.len(),
                models(out@) == order.take(k as int).map_values(|i: int| s[i]),
            decreases idx@.len() - k,
        {
            let ghost done = models(out@);
            let m = copy_marker(&self.markers[idx[k]]);
            out.push(m);
            proof {
                assert(order[k as int] == idx@[k as int] as int);
                assert(models(out@) =~= done.push(m@));
                assert(order.take(k + 1).map_values(|i: int| s[i]) =~= order.take(
                    k as int,
                ).map_values(|i: int| s[i]).push(s[order[k as int]]));
            }
            k = k + 1;
        }
        proof {
            assert(order.take(order.len() as int) =~= order);
        }
        out
    }

    /// The place where the marker is stored that is shown at `selected`.
    fn storage_index_for_file_index(&self, media_path: &str, selected: usize) -> (r: Option<usize>)
        ensures
            match r {
                Some(at) => selected < shown_order(self@, media_path@).len() && at == shown_order(
                    self@,
                    media_path@,
                )[selected as int] && at < self.markers@.len(),
                None => selected >= shown_order(self@, media_path@).len(),
            },
    {
        let idx = self.places_for(media_path);
        proof {
            assert(places(idx@).len() == idx@.len());
        }
        if selected < idx.len() {
            proof {
                assert(places(idx@)[selected as int] == idx@[selected as int] as int);
            }
            Some(idx[selected])
        } else {
            None
        }
    }

    /// Sets a marker, unless the file has one at that time.
    pub fn add_marker(&mut self, media_path: &str, timestamp_ms: u64)
        ensures
            final(self)@ == with_marker(old(self)@, media_path@, timestamp_ms),
    {
        let ghost s = self@;
        let key = lower_chars(media_path);
        let mut i: usize = 0;
        while i < self.markers.len()
            invariant
                i <= self.markers@.len(),
                s == self@,
                s == old(self)@,
                key@ == key_for(media_path@),
                forall|k: int|
                    0 <= k < i ==> !(key_for((#[trigger] s[k]).path) == key_for(media_path@)
                        && s[k].timestamp_ms == timestamp_ms),
            decreases self.markers@.len() - i,
        {
            let other = lower_chars(self.markers[i].media_path.as_str());
            proof {
                assert(s[i as int] == self.markers@[i as int]@);
            }
            if same_chars(&other, &key) && self.markers[i].timestamp_ms == timestamp_ms {
                proof {
                    assert(has_marker(s, media_path@, timestamp_ms));
                }
                return;
            }
            i = i + 1;
        }
        self.markers.push(
            ReviewMarker {
                media_path: from_chars(&to_chars(media_path)),
                timestamp_ms,
                note: None,
            },
        );
        proof {
            assert(models(self.markers@) =~= s.push(
                MarkerModel { path: media_path@, timestamp_ms, note: None },
            ));
        }
        let sorted = sort_markers(&self.markers);
        self.markers = sorted;
    }

    /// Removes the marker that is shown at `selected`; returns whether there
    /// was one.
    pub fn remove_for_file_index(&mut self, media_path: &str, selected: usize) -> (r: bool)
        ensures
            r == (selected < shown_order(old(self)@, media_path@).len()),
            final(self)@ == (if r {
                old(self)@.remove(shown_order(old(self)@, media_path@)[selected as int])
            } else {
                old(self)@
            }),
    {
        match self.storage_index_for_file_index(media_path, selected) {
            Some(at) => {
                let _ = self.markers.remove(at);
                proof {
                    assert(self@ =~= old(self)@.remove(at as int));
                }
                true
            },
            None => false,
        }
    }

    /// Sets the note of the marker that is shown at `selected`; returns whether
    /// there was one. A blank note removes the note.
    pub fn set_note_for_file_index(&mut self, media_path: &str, selected: usize, note: &str) -> (r:
        bool)
        ensures
            r == (selected < shown_order(old(self)@, media_path@).len()),
            final(self)@ == (if r {
                let at = shown_order(old(self)@, media_path@)[selected as int];
                old(self)@.update(
                    at,
                    MarkerModel { note: normalized_note(note@), ..old(self)@[at] },
                )
            } else {
                old(self)@
            }),
    {
        match self.storage_index_for_file_index(media_path, selected) {
            Some(at) => {
                let m = self.markers.remove(at);
                self.markers.insert(
                    at,
                    ReviewMarker {
                        media_path: m.media_path,
                        timestamp_ms: m.timestamp_ms,
                        note: normalize_note(note),
                    },
                );
                proof {
                    assert(self@ =~= old(self)@.update(
                        at as int,
                        MarkerModel { note: normalized_note(note@), ..old(self)@[at as int] },
                    ));
                }
                true
            },
            None => false,
        }
    }

    /// The file name and the contents of an export of a file's markers.
    pub fn export_for_file(&self, media_path: &str, format: MarkerExportFormat) -> (r: (
        String,
        String,
    ))
        ensures
            r.0@ == export_file_name(media_path@, format),
            r.1@ == (match format {
                MarkerExportFormat::Txt => txt_export(media_path@, shown(self@, media_path@)),
                MarkerExportFormat::Csv => csv_export(shown(self@, media_path@)),
            }),
    {
        let mut name = sanitized_file_stem(media_path);
        name.append("-markers.");
        let list = self.markers_for(media_path);
        match format {
            MarkerExportFormat::Txt => {
                name.append("txt");
                (name, export_txt(media_path, &list))
            },
            MarkerExportFormat::Csv => {
                name.append("csv");
                (name, export_csv(&list))
            },
        }
    }
}

/// The shown order is one.
pub proof fn shown_order_exists(s: Seq<MarkerModel>, path: Seq<char>)
    ensures
        is_shown_order(shown_order(s, path), s, path),
{
    let idx = order_exists(s.len() as int, belongs(s, path), shown_before(s));
    assert(is_shown_order(idx, s, path));
}

proof fn sorted_order_exists(s: Seq<MarkerModel>) -> (idx: Seq<int>)
    ensures
        is_sorted_order(idx, s),
        sorted_markers(s) == idx.map_values(|i: int| s[i]),
{
    let before = stored_before(s);
    assert forall|i: int, j: int| i != j implies #[trigger] before(i, j) || before(j, i) by {
        marker_order_antisymmetric(s[i], s[j]);
    }
    assert forall|i: int, j: int, k: int| #[trigger] before(i, j) && #[trigger] before(
        j,
        k,
    ) implies before(i, k) by {
        marker_order_transitive(s[i], s[j], s[k]);
    }
    let idx = order_exists(s.len() as int, every_place(), before);
    sorted_markers_are(idx, s);
    idx
}

/// A file's markers are shown in the order of their times, and each is a marker
/// of that file.
pub proof fn shown_in_time_order(s: Seq<MarkerModel>, path: Seq<char>)
    ensures
        forall|i: int, j: int|
            0 <= i < j < shown(s, path).len() ==> (#[trigger] shown(s, path)[i]).timestamp_ms <= (
            #[trigger] shown(s, path)[j]).timestamp_ms,
        forall|i: int|
            0 <= i < shown(s, path).len() ==> key_for((#[trigger] shown(s, path)[i]).path)
                == key_for(path),
{
    shown_order_exists(s, path);
    let idx = shown_order(s, path);
    assert forall|i: int, j: int| 0 <= i < j < shown(s, path).len() implies (#[trigger] shown(
        s,
        path,
    )[i]).timestamp_ms <= (#[trigger] shown(s, path)[j]).timestamp_ms by {
        assert(shown_before(s)(idx[i], idx[j]));
    }
    assert forall|i: int| 0 <= i < shown(s, path).len() implies key_for(
        (#[trigger] shown(s, path)[i]).path,
    ) == key_for(path) by {
        assert(belongs(s, path)(idx[i]));
    }
}

/// Whether no file has two markers at one time.
pub open spec fn markers_differ(s: Seq<MarkerModel>) -> bool {
    forall|i: int, j: int|
        0 <= i < j < s.len() ==> !(key_for((#[trigger] s[i]).path) == key_for(
            (#[trigger] s[j]).path,
        ) && s[i].timestamp_ms == s[j].timestamp_ms)
}

/// Whether markers are sorted by file and time.
pub open spec fn is_sorted(s: Seq<MarkerModel>) -> bool {
    forall|i: int, j: int|
        0 <= i < j < s.len() ==> marker_order(#[trigger] s[i], #[trigger] s[j]) <= 0
}

/// Setting a marker where there is none sorts the markers and keeps all others.
pub proof fn added_marker_is_sorted_in(s: Seq<MarkerModel>, path: Seq<char>, timestamp_ms: u64)
    requires
        !has_marker(s, path, timestamp_ms),
    ensures
        is_sorted(with_marker(s, path, timestamp_ms)),
        has_marker(with_marker(s, path, timestamp_ms), path, timestamp_ms),
        forall|i: int|
            0 <= i < s.len() ==> with_marker(s, path, timestamp_ms).contains(#[trigger] s[i]),
        markers_differ(s) ==> markers_differ(with_marker(s, path, timestamp_ms)),
{
    let new = MarkerModel { path, timestamp_ms, note: None };
    let t = s.push(new);
    let idx = sorted_order_exists(t);
    let r = with_marker(s, path, timestamp_ms);
    assert(r == idx.map_values(|i: int| t[i]));
    assert forall|i: int, j: int| 0 <= i < j < r.len() implies marker_order(
        #[trigger] r[i],
        #[trigger] r[j],
    ) <= 0 by {
        assert(stored_before(t)(idx[i], idx[j]));
    }
    assert forall|i: int| 0 <= i < t.len() implies r.contains(#[trigger] t[i]) by {
        assert(every_place()(i));
        assert(idx.contains(i));
        let k = choose|k: int| 0 <= k < idx.len() && idx[k] == i;
        assert(r[k] == t[i]);
    }
    assert forall|i: int| 0 <= i < s.len() implies r.contains(#[trigger] s[i]) by {
        assert(t[i] == s[i]);
    }
    assert(r.contains(t[s.len() as int]));
    let k = choose|k: int| 0 <= k < r.len() && r[k] == new;
    assert(key_for(r[k].path) == key_for(path));
    if markers_differ(s) {
        assert forall|i: int, j: int| 0 <= i < j < r.len() implies !(key_for((#[trigger] r[i]).path)
            == key_for((#[trigger] r[j]).path) && r[i].timestamp_ms == r[j].timestamp_ms) by {
            let a = idx[i];
            let b = idx[j];
            assert(stored_before(t)(a, b));
            stored_before_asymmetric(t);
            assert(a != b);
            assert(every_place()(a) && 0 <= a < t.len() && 0 <= b < t.len());
            if a < s.len() && b < s.len() {
                if a < b {
                    assert(t[a] == s[a] && t[b] == s[b]);
                } else {
                    assert(t[a] == s[a] && t[b] == s[b]);
                }
            } else if a < s.len() {
                assert(t[a] == s[a]);
            } else {
                assert(t[b] == s[b]);
            }
        }
    }
}

/// Setting a marker twice is setting it once.
pub proof fn adding_twice_is_adding_once(s: Seq<MarkerModel>, path: Seq<char>, timestamp_ms: u64)
    ensures
        with_marker(with_marker(s, path, timestamp_ms), path, timestamp_ms) == with_marker(
            s,
            path,
            timestamp_ms,
        ),
{
    if !has_marker(s, path, timestamp_ms) {
        added_marker_is_sorted_in(s, path, timestamp_ms);
    }
}

/// A kept note is within its bound, not blank, and kept as it is when it is set
/// again.
pub proof fn kept_note_is_bounded(note: Seq<char>)
    ensures
        normalized_note(note) matches Some(t) ==> {
            &&& 0 < t.len() <= MAX_MARKER_NOTE_CHARS
            &&& normalized_note(t) == Some(t)
        },
{
    let b = take_at_most(note, MAX_MARKER_NOTE_CHARS as int);
    let _ = crate::text::trim_seq_shape(b);
    crate::text::trim_seq_idempotent(b);
}

/// Whether a marker can be stored: it names a file, and its note is not empty.
pub open spec fn is_storable(m: MarkerModel) -> bool {
    m.path.len() > 0 && (m.note matches Some(note) ==> note.len() > 0)
}

/// A stored marker is read back as it was.
pub proof fn marker_line_is_read_back(m: MarkerModel)
    requires
        is_storable(m),
    ensures
        parsed_marker(marker_line(m)) == Some(m),
        is_plain_line(marker_line(m)),
{
    let a = digits(m.timestamp_ms as nat);
    let b = escape_seq(m.path);
    let c = escape_seq(note_or_empty(m.note));
    digits_are_clean(m.timestamp_ms as nat);
    parse_of_digits(m.timestamp_ms);
    escape_is_clean(m.path);
    escape_is_clean(note_or_empty(m.note));
    unescape_of_escape(m.path);
    unescape_of_escape(note_or_empty(m.note));
    split_once_of_join(b, '\t', c);
    split_once_of_join(a, '\t', b + seq!['\t'] + c);
    let line = marker_line(m);
    assert forall|k: int| 0 <= k < line.len() implies line[k] != '\n' && line[k] != '\r' by {
        let x = a.len() + 1;
        let y = x + b.len() + 1;
        if k < a.len() {
            assert(line[k] == a[k]);
        } else if x <= k < x + b.len() {
            assert(line[k] == b[k - x]);
        } else if k >= y {
            assert(line[k] == c[k - y]);
        }
    }
}

/// What was stored is read back as it was.
pub proof fn stored_markers_are_read_back(s: Seq<MarkerModel>)
    requires
        forall|k: int| 0 <= k < s.len() ==> is_storable(#[trigger] s[k]),
    ensures
        parsed_markers(lines_of(joined(marker_lines(s)))) == s,
{
    let all = marker_lines(s);
    assert forall|k: int| 0 <= k < all.len() implies is_plain_line(#[trigger] all[k]) by {
        assert(is_storable(s[k]));
        marker_line_is_read_back(s[k]);
    }
    lines_of_joined(all);
    parsed_of_lines(s);
}

proof fn parsed_of_lines(s: Seq<MarkerModel>)
    requires
        forall|k: int| 0 <= k < s.len() ==> is_storable(#[trigger] s[k]),
    ensures
        parsed_markers(marker_lines(s)) == s,
    decreases s.len(),
{
    if s.len() == 0 {
        assert(parsed_markers(marker_lines(s)) =~= s);
    } else {
        let front = s.drop_last();
        assert forall|k: int| 0 <= k < front.len() implies is_storable(#[trigger] front[k]) by {
            assert(front[k] == s[k]);
        }
        parsed_of_lines(front);
        assert(marker_lines(s).drop_last() =~= marker_lines(front));
        assert(is_storable(s[s.len() - 1]));
        marker_line_is_read_back(s.last());
        assert(s =~= front.push(s.last()));
    }
}

/// The stem of an export's file name holds no character that a file name may
/// not hold, and is not blank.
pub proof fn safe_stem_is_safe(path: Seq<char>)
    ensures
        forall|k: int| 0 <= k < safe_stem(path).len() ==> !is_unsafe_in_name(
            #[trigger] safe_stem(path)[k],
        ),
        trim_seq(safe_stem(path)).len() > 0,
{
    stand_in_is_safe();
    match file_stem_seq(path) {
        Some(stem) => {
            let t = stem.map_values(|c: char| safe_char(c));
            assert forall|k: int| 0 <= k < t.len() implies !is_unsafe_in_name(#[trigger] t[k]) by {
                assert(t[k] == safe_char(stem[k]));
            }
        },
        None => {},
    }
}

proof fn stand_in_is_safe()
    ensures
        forall|k: int| 0 <= k < "fastplay"@.len() ==> !is_unsafe_in_name(
            #[trigger] "fastplay"@[k],
        ),
        trim_seq("fastplay"@).len() > 0,
{
    reveal_strlit("fastplay");
    let f = "fastplay"@;
    crate::text::trim_seq_fixed(f);
    assert(f.len() == 8);
}

/// Every marker of a file is shown for it, whatever the case of the path, and
/// none of another file.
pub proof fn every_marker_of_a_file_is_shown(s: Seq<MarkerModel>, path: Seq<char>, i: int)
    requires
        0 <= i < s.len(),
    ensures
        lower_seq(s[i].path) == lower_seq(path) <==> shown_order(s, path).contains(i),
{
    shown_order_exists(s, path);
    let idx = shown_order(s, path);
    if lower_seq(s[i].path) == lower_seq(path) {
        assert(belongs(s, path)(i));
    }
    if idx.contains(i) {
        let k = choose|k: int| 0 <= k < idx.len() && idx[k] == i;
        assert(belongs(s, path)(idx[k]));
    }
}

/// A time is shown in minutes, seconds and milliseconds, and from an hour on in
/// hours as well; the parts make up the time.
pub proof fn shown_time_is_made_of_its_parts(h: u64, m: u64, sec: u64, milli: u64)
    requires
        h <= 5_000_000_000_000,
        m < 60,
        sec < 60,
        milli < 1000,
    ensures
        ({
            let ms = (3_600_000 * h + 60_000 * m + 1000 * sec + milli) as u64;
            let rest = seq![':'] + padded(sec as nat, 2) + seq!['.'] + padded(milli as nat, 3);
            &&& h == 0 ==> timestamp_text(ms) == digits(m as nat) + rest
            &&& h > 0 ==> timestamp_text(ms) == digits(h as nat) + seq![':'] + padded(m as nat, 2)
                + rest
        }),
{
    let ms = (3_600_000 * h + 60_000 * m + 1000 * sec + milli) as u64;
    let total = ms as nat / 1000;
    assert(total == 3600 * h + 60 * m + sec);
    assert(ms as nat % 1000 == milli);
    assert(total / 3600 == h);
    assert(total % 3600 == 60 * m + sec);
    assert((total % 3600) / 60 == m);
    assert(total % 60 == sec);
}

/// A note of at most 240 characters is kept without the white space around it, a
/// longer one as its first 240 characters are, and a blank one not at all.
pub proof fn note_is_kept_without_white_space(note: Seq<char>)
    ensures
        note.len() <= 240 && trim_seq(note).len() > 0 ==> normalized_note(note) == Some(
            trim_seq(note),
        ),
        note.len() <= 240 && trim_seq(note).len() == 0 ==> normalized_note(note) is None,
        note.len() > 240 ==> normalized_note(note) == normalized_note(note.take(240)),
{
    if note.len() > 240 {
        assert(note.take(240).len() == 240);
    }
}

/// A marker's line in a text export is its time, with its note behind a tab where
/// it has one; in an export of comma-separated values the fields are the file,
/// the milliseconds, the time and the note.
pub proof fn exported_line_holds_time_and_note(path: Seq<char>, timestamp_ms: u64, note: Seq<char>)
    ensures
        ({
            let bare = MarkerModel { path, timestamp_ms, note: None };
            let noted = MarkerModel { path, timestamp_ms, note: Some(note) };
            &&& txt_line(bare) == timestamp_text(timestamp_ms)
            &&& txt_line(noted) == timestamp_text(timestamp_ms) + seq!['\t'] + note
            &&& csv_line(noted) == field_text(export_name(path)) + seq![','] + digits(
                timestamp_ms as nat,
            ) + seq![','] + field_text(timestamp_text(timestamp_ms)) + seq![','] + field_text(note)
            &&& csv_line(bare) == csv_line(
                MarkerModel { path, timestamp_ms, note: Some(Seq::empty()) },
            )
            &&& file_name_seq(path) is None ==> export_name(path) == path
            &&& file_name_seq(path) matches Some(name) ==> export_name(path) == name
        }),
{
}

/// Of two stored markers of one file the earlier one comes first; markers of two
/// files come in the order of the paths, whatever the case and the times.
pub proof fn markers_are_stored_by_file_and_time(a: MarkerModel, b: MarkerModel)
    ensures
        lower_seq(a.path) == lower_seq(b.path) && a.timestamp_ms < b.timestamp_ms ==> marker_order(
            a,
            b,
        ) < 0,
        lower_seq(a.path) == lower_seq(b.path) && a.timestamp_ms == b.timestamp_ms
            ==> marker_order(a, b) == 0,
        lower_seq(a.path) == lower_seq(b.path) && a.timestamp_ms > b.timestamp_ms ==> marker_order(
            a,
            b,
        ) > 0,
        text_order(lower_seq(a.path), lower_seq(b.path)) != 0 ==> marker_order(a, b) == text_order(
            lower_seq(a.path),
            lower_seq(b.path),
        ),
{
    text_order_antisymmetric(lower_seq(a.path), lower_seq(b.path));
}

/// A character of a file name stays unless it is one of those that may not stand
/// in one, which become underscores.
pub proof fn unsafe_characters_become_underscores(c: char)
    ensures
        c == '<' || c == '>' || c == ':' || c == '"' || c == '/' || c == '\\' || c == '|' || c
            == '?' || c == '*' || is_control_char(c) ==> safe_char(c) == '_',
        c != '<' && c != '>' && c != ':' && c != '"' && c != '/' && c != '\\' && c != '|' && c
            != '?' && c != '*' && !is_control_char(c) ==> safe_char(c) == c,
{
}

} // verus!
