//! The stored settings.
use vstd::prelude::*;
use crate::fields::{is_plain_line, joined, joined_push, lacks, lines, lines_of, lines_of_joined, texts};
use crate::text::{chars_at, from_range, occurs_at, same_text, to_chars, trim, trim_seq};

verus! {

/// What the stored settings say. The volume is left as text: of several values
/// the last one that is a volume counts.
#[derive(Debug)]
pub struct SettingsText {
    pub volumes: Vec<String>,
    pub frameless_windowed: bool,
}

/// The model of that.
#[verifier::ext_equal]
pub struct SettingsModel {
    pub volumes: Seq<Seq<char>>,
    pub frameless_windowed: bool,
}

impl View for SettingsText {
    type V = SettingsModel;

    open spec fn view(&self) -> SettingsModel {
        SettingsModel {
            volumes: texts(self.volumes@),
            frameless_windowed: self.frameless_windowed,
        }
    }
}

/// The rest of a line behind a prefix, if the line has it.
pub open spec fn behind(line: Seq<char>, prefix: Seq<char>) -> Option<Seq<char>> {
    if occurs_at(line, prefix, 0) {
        Some(line.skip(prefix.len() as int))
    } else {
        None
    }
}

/// The truth value that a text stands for.
pub open spec fn truth(text: Seq<char>) -> Option<bool> {
    if text == "true"@ {
        Some(true)
    } else if text == "false"@ {
        Some(false)
    } else {
        None
    }
}

impl SettingsModel {
    /// After a line: values that stand for nothing leave what was.
    pub open spec fn after(self, line: Seq<char>) -> Self {
        match behind(line, "volume="@) {
            Some(value) => SettingsModel { volumes: self.volumes.push(trim_seq(value)), ..self },
            None => match behind(line, "frameless_windowed="@) {
                Some(value) => match truth(trim_seq(value)) {
                    Some(b) => SettingsModel { frameless_windowed: b, ..self },
                    None => self,
                },
                None => self,
            },
        }
    }
}

/// The settings that nothing says anything of.
pub open spec fn unset() -> SettingsModel {
    SettingsModel { volumes: Seq::empty(), frameless_windowed: false }
}

/// What lines say of the settings.
pub open spec fn settings_of(lines: Seq<Seq<char>>) -> SettingsModel
    decreases lines.len(),
{
    if lines.len() == 0 {
        unset()
    } else {
        settings_of(lines.drop_last()).after(lines.last())
    }
}

fn strip_prefix(line: &str, prefix: &str) -> (r: Option<String>)
    ensures
        match r {
            Some(rest) => behind(line@, prefix@) == Some(rest@),
            None => behind(line@, prefix@) is None,
        },
{
    let x = to_chars(line);
    let p = to_chars(prefix);
    if chars_at(&x, &p, 0) {
        let r = from_range(&x, p.len(), x.len());
        proof {
            assert(r@ =~= line@.skip(prefix@.len() as int));
        }
        Some(r)
    } else {
        None
    }
}

/// What stored text says of the settings; without text nothing is said.
pub fn load(contents: Option<&str>) -> (r: SettingsText)
    ensures
        r@ == loaded(contents),
{
    match contents {
        Some(text) => parse(text),
        None => {
            let volumes: Vec<String> = Vec::new();
            proof {
                assert(texts(volumes@) =~= Seq::<Seq<char>>::empty());
            }
            SettingsText { volumes, frameless_windowed: false }
        },
    }
}

/// What a text says of the settings.
pub fn parse(contents: &str) -> (r: SettingsText)
    ensures
        r@ == settings_of(lines_of(contents@)),
{
    let all = lines(contents);
    let ghost list = texts(all@);
    let mut volumes: Vec<String> = Vec::new();
    let mut frameless_windowed = false;
    let mut i: usize = 0;
    proof {
        assert(list.take(0) =~= Seq::<Seq<char>>::empty());
        assert(texts(volumes@) =~= Seq::<Seq<char>>::empty());
    }
    while i < all.len()
        invariant
            i <= all@.len(),
            list == texts(all@),
            (SettingsModel { volumes: texts(volumes@), frameless_windowed }) == settings_of(
                list.take(i as int),
            ),
        decreases all@.len() - i,
    {
        let ghost before = texts(volumes@);
        proof {
            assert(list.take(i + 1).drop_last() =~= list.take(i as int));
            assert(list.take(i + 1).last() == all@[i as int]@);
        }
        if let Some(value) = strip_prefix(all[i].as_str(), "volume=") {
            let t = trim(value.as_str());
            volumes.push(t);
            proof {
                assert(texts(volumes@) =~= before.push(t@));
            }
        } else if let Some(value) = strip_prefix(all[i].as_str(), "frameless_windowed=") {
            let t = trim(value.as_str());
            if same_text(t.as_str(), "true") {
                frameless_windowed = true;
            } else if same_text(t.as_str(), "false") {
                proof {
                    reveal_strlit("true");
                    reveal_strlit("false");
                    assert("true"@.len() != "false"@.len());
                }
                frameless_windowed = false;
            }
        }
        i = i + 1;
    }
    proof {
        assert(list.take(list.len() as int) =~= list);
    }
    SettingsText { volumes, frameless_windowed }
}

/// The lines of stored settings.
pub open spec fn settings_lines(volume: Seq<char>, frameless_windowed: bool) -> Seq<Seq<char>> {
    seq![
        "volume="@ + volume,
        "frameless_windowed="@ + if frameless_windowed {
            "true"@
        } else {
            "false"@
        },
    ]
}

/// The text to store, given the text of the volume.
pub fn serialize(volume: &str, frameless_windowed: bool) -> (r: String)
    ensures
        r@ == joined(settings_lines(volume@, frameless_windowed)),
{
    let ghost l = settings_lines(volume@, frameless_windowed);
    let mut out = String::new();
    out.append("volume=");
    out.append(volume);
    out.push('\n');
    proof {
        joined_push(Seq::<Seq<char>>::empty(), l[0]);
        assert(out@ =~= joined(Seq::<Seq<char>>::empty().push(l[0])));
    }
    let ghost first = out@;
    out.append("frameless_windowed=");
    if frameless_windowed {
        out.append("true");
    } else {
        out.append("false");
    }
    out.push('\n');
    proof {
        joined_push(Seq::<Seq<char>>::empty().push(l[0]), l[1]);
        assert(l =~= Seq::<Seq<char>>::empty().push(l[0]).push(l[1]));
        assert(out@ =~= first + l[1] + seq!['\n']);
    }
    out
}

/// Stored settings are read back as they were. The text of a number holds no
/// white space and no line break.
pub proof fn stored_settings_are_read_back(volume: Seq<char>, frameless_windowed: bool)
    requires
        lacks(volume, '\n'),
        trim_seq(volume) == volume,
    ensures
        settings_of(lines_of(joined(settings_lines(volume, frameless_windowed)))) == (
        SettingsModel { volumes: seq![volume], frameless_windowed }),
{
    let l = settings_lines(volume, frameless_windowed);
    reveal_strlit("volume=");
    reveal_strlit("frameless_windowed=");
    reveal_strlit("true");
    reveal_strlit("false");
    let word = if frameless_windowed {
        "true"@
    } else {
        "false"@
    };
    let v = "volume="@;
    let f = "frameless_windowed="@;
    assert(l[0].take(v.len() as int) =~= v);
    assert(l[0].subrange(0, v.len() as int) =~= v);
    assert(l[0].skip(v.len() as int) =~= volume);
    assert(l[1].subrange(0, f.len() as int) =~= f);
    assert(l[1].skip(f.len() as int) =~= word);
    assert(l[1][0] == 'f');
    if occurs_at(l[1], v, 0) {
        assert(l[1].subrange(0, v.len() as int)[0] == 'v');
    }
    crate::text::trim_seq_fixed(word);
    assert("true"@.len() != "false"@.len());
    assert(is_plain_line(l[0])) by {
        assert forall|k: int| 0 <= k < l[0].len() implies l[0][k] != '\n' by {
            if k >= v.len() {
                assert(l[0][k] == volume[k - v.len()]);
            }
        }
        if volume.len() > 0 {
            let _ = crate::text::trim_seq_shape(volume);
            assert(l[0].last() == volume.last());
            assert(!crate::text::is_white_space(volume.last()));
        }
    }
    assert(is_plain_line(l[1])) by {
        assert forall|k: int| 0 <= k < l[1].len() implies l[1][k] != '\n' by {
            if k >= f.len() {
                assert(l[1][k] == word[k - f.len()]);
            }
        }
        assert(l[1].last() == word.last());
    }
    lines_of_joined(l);
    assert(l.drop_last() =~= seq![l[0]]);
    assert(seq![l[0]].drop_last() =~= Seq::<Seq<char>>::empty());
    reveal_with_fuel(settings_of, 3);
    assert(unset().volumes.push(volume) =~= seq![volume]);
}

/// What stored text says of the settings; without text nothing is said.
pub open spec fn loaded(contents: Option<&str>) -> SettingsModel {
    match contents {
        Some(text) => settings_of(lines_of(text@)),
        None => unset(),
    }
}

/// The volume that texts give, where `value` tells which of them stand for one:
/// that of the last of these, or the usual volume.
pub open spec fn volume_in(
    volumes: Seq<Seq<char>>,
    value: spec_fn(Seq<char>) -> Option<int>,
    usual: int,
) -> int
    decreases volumes.len(),
{
    if volumes.len() == 0 {
        usual
    } else {
        match value(volumes.last()) {
            Some(v) => v,
            None => volume_in(volumes.drop_last(), value, usual),
        }
    }
}

/// The text whose volume counts: the last one that stands for a volume. For each
/// text `is_volume` tells whether it does.
pub fn volume_in_force(settings: &SettingsText, is_volume: &Vec<bool>) -> (r: Option<usize>)
    requires
        is_volume@.len() == settings.volumes@.len(),
    ensures
        match r {
            Some(i) => {
                &&& i < is_volume@.len() && is_volume@[i as int]
                &&& forall|k: int| i < k < is_volume@.len() ==> !#[trigger] is_volume@[k]
            },
            None => forall|k: int| 0 <= k < is_volume@.len() ==> !#[trigger] is_volume@[k],
        },
{
    let mut i: usize = is_volume.len();
    while i > 0
        invariant
            i <= is_volume@.len(),
            forall|k: int| i <= k < is_volume@.len() ==> !#[trigger] is_volume@[k],
        decreases i,
    {
        i = i - 1;
        if is_volume[i] {
            return Some(i);
        }
    }
    None
}

/// The text whose volume counts gives the volume.
pub proof fn counting_text_gives_the_volume(
    volumes: Seq<Seq<char>>,
    value: spec_fn(Seq<char>) -> Option<int>,
    usual: int,
    counting: Option<int>,
)
    requires
        match counting {
            Some(i) => 0 <= i < volumes.len() && value(volumes[i]) is Some && forall|k: int|
                i < k < volumes.len() ==> value(#[trigger] volumes[k]) is None,
            None => forall|k: int| 0 <= k < volumes.len() ==> value(#[trigger] volumes[k]) is None,
        },
    ensures
        volume_in(volumes, value, usual) == (match counting {
            Some(i) => value(volumes[i]).unwrap(),
            None => usual,
        }),
    decreases volumes.len(),
{
    if volumes.len() > 0 {
        let last = volumes.len() - 1;
        assert(volumes[last] == volumes.last());
        if counting != Some(last) {
            let rest = volumes.drop_last();
            assert(value(volumes[last]) is None);
            assert forall|k: int| 0 <= k < rest.len() implies #[trigger] rest[k] == volumes[k] by {}
            counting_text_gives_the_volume(rest, value, usual, counting);
        }
    }
}

/// The text to store after a change of the volume: the preference stays as the
/// stored text has it.
pub fn save_volume(contents: Option<&str>, volume: &str) -> (r: String)
    ensures
        r@ == joined(settings_lines(volume@, loaded(contents).frameless_windowed)),
{
    let settings = load(contents);
    serialize(volume, settings.frameless_windowed)
}

/// The text of the usual volume.
pub open spec fn usual_text() -> Seq<char> {
    seq!['1']
}

/// The text of the volume that counts: the last one that stands for a volume, or
/// that of the usual volume.
pub open spec fn counting_text(
    volumes: Seq<Seq<char>>,
    value: spec_fn(Seq<char>) -> Option<int>,
) -> Seq<char>
    decreases volumes.len(),
{
    if volumes.len() == 0 {
        usual_text()
    } else if value(volumes.last()) is Some {
        volumes.last()
    } else {
        counting_text(volumes.drop_last(), value)
    }
}

/// The text of the volume that counts, given which texts stand for one.
pub open spec fn text_in_force(volumes: Seq<Seq<char>>, is_volume: Seq<bool>) -> Seq<char>
    decreases volumes.len(),
{
    if volumes.len() == 0 || volumes.len() != is_volume.len() {
        usual_text()
    } else if is_volume.last() {
        volumes.last()
    } else {
        text_in_force(volumes.drop_last(), is_volume.drop_last())
    }
}

proof fn text_in_force_is(volumes: Seq<Seq<char>>, is_volume: Seq<bool>, counting: Option<int>)
    requires
        volumes.len() == is_volume.len(),
        match counting {
            Some(i) => 0 <= i < volumes.len() && is_volume[i] && forall|k: int|
                i < k < volumes.len() ==> !#[trigger] is_volume[k],
            None => forall|k: int| 0 <= k < volumes.len() ==> !#[trigger] is_volume[k],
        },
    ensures
        text_in_force(volumes, is_volume) == (match counting {
            Some(i) => volumes[i],
            None => usual_text(),
        }),
    decreases volumes.len(),
{
    if volumes.len() > 0 {
        let last = volumes.len() - 1;
        if counting != Some(last) {
            assert(!is_volume[last]);
            let rest = is_volume.drop_last();
            assert forall|k: int| 0 <= k < rest.len() implies #[trigger] rest[k] == is_volume[k] by {}
            text_in_force_is(volumes.drop_last(), rest, counting);
        }
    }
}

/// The text to store after a change of the preference: the volume that counts
/// stays as it is written. For each text of `loaded(contents)` `is_volume` tells
/// whether it stands for a volume.
pub fn save_frameless_windowed(contents: Option<&str>, is_volume: &Vec<bool>, enabled: bool) -> (r:
    String)
    requires
        is_volume@.len() == loaded(contents).volumes.len(),
    ensures
        r@ == joined(
            settings_lines(text_in_force(loaded(contents).volumes, is_volume@), enabled),
        ),
{
    let settings = load(contents);
    let counting = volume_in_force(&settings, is_volume);
    proof {
        text_in_force_is(
            settings@.volumes,
            is_volume@,
            match counting {
                Some(i) => Some(i as int),
                None => None,
            },
        );
    }
    match counting {
        Some(i) => serialize(settings.volumes[i].as_str(), enabled),
        None => {
            proof {
                reveal_strlit("1");
                assert("1"@ =~= usual_text());
            }
            serialize("1", enabled)
        },
    }
}

/// Whether a text can stand behind an equals sign in a line and be read back.
pub open spec fn is_value(text: Seq<char>) -> bool {
    lacks(text, '\n') && trim_seq(text) == text
}

proof fn lines_lack_line_feeds(s: Seq<char>)
    ensures
        forall|k: int| 0 <= k < lines_of(s).len() ==> lacks(#[trigger] lines_of(s)[k], '\n'),
    decreases s.len(),
{
    if s.len() > 0 {
        let end = crate::text::find_from(s, '\n', 0);
        crate::text::find_from_shape(s, '\n', 0);
        if end < 0 || end >= s.len() {
            assert(lines_of(s) =~= seq![s]);
        } else {
            lines_lack_line_feeds(s.skip(end + 1));
            let first = crate::fields::without_cr(s.take(end));
            assert(lacks(first, '\n'));
            let rest = lines_of(s.skip(end + 1));
            assert forall|k: int| 0 <= k < lines_of(s).len() implies lacks(
                #[trigger] lines_of(s)[k],
                '\n',
            ) by {
                if k > 0 {
                    assert(lines_of(s)[k] == rest[k - 1]);
                }
            }
        }
    }
}

proof fn loaded_volumes_are_values(lines: Seq<Seq<char>>)
    requires
        forall|k: int| 0 <= k < lines.len() ==> lacks(#[trigger] lines[k], '\n'),
    ensures
        forall|k: int|
            0 <= k < settings_of(lines).volumes.len() ==> is_value(
                #[trigger] settings_of(lines).volumes[k],
            ),
    decreases lines.len(),
{
    if lines.len() > 0 {
        let before = settings_of(lines.drop_last());
        let line = lines.last();
        assert forall|k: int| 0 <= k < lines.drop_last().len() implies lacks(
            #[trigger] lines.drop_last()[k],
            '\n',
        ) by {
            assert(lines.drop_last()[k] == lines[k]);
        }
        loaded_volumes_are_values(lines.drop_last());
        if let Some(value) = behind(line, "volume="@) {
            let t = trim_seq(value);
            crate::text::trim_seq_idempotent(value);
            let b = crate::text::trim_seq_shape(value);
            assert(lacks(line, '\n'));
            assert forall|k: int| 0 <= k < t.len() implies t[k] != '\n' by {
                assert(t[k] == value[b.0 + k]);
                assert(value[b.0 + k] == line["volume="@.len() + b.0 + k]);
            }
        }
    }
}

proof fn counting_text_is_a_value(
    volumes: Seq<Seq<char>>,
    value: spec_fn(Seq<char>) -> Option<int>,
    usual: int,
)
    requires
        forall|k: int| 0 <= k < volumes.len() ==> is_value(#[trigger] volumes[k]),
        value(usual_text()) == Some(usual),
    ensures
        is_value(counting_text(volumes, value)),
        value(counting_text(volumes, value)) == Some(volume_in(volumes, value, usual)),
    decreases volumes.len(),
{
    if volumes.len() == 0 {
        crate::text::trim_seq_fixed(usual_text());
    } else {
        assert(volumes.last() == volumes[volumes.len() - 1]);
        if value(volumes.last()) is None {
            let rest = volumes.drop_last();
            assert forall|k: int| 0 <= k < rest.len() implies is_value(#[trigger] rest[k]) by {
                assert(rest[k] == volumes[k]);
            }
            counting_text_is_a_value(rest, value, usual);
        }
    }
}

proof fn counting_text_is_in_force(
    volumes: Seq<Seq<char>>,
    value: spec_fn(Seq<char>) -> Option<int>,
    is_volume: Seq<bool>,
)
    requires
        is_volume.len() == volumes.len(),
        forall|k: int|
            0 <= k < volumes.len() ==> #[trigger] is_volume[k] == value(volumes[k]) is Some,
    ensures
        text_in_force(volumes, is_volume) == counting_text(volumes, value),
    decreases volumes.len(),
{
    if volumes.len() > 0 {
        let last = volumes.len() - 1;
        assert(is_volume[last] == value(volumes[last]) is Some);
        if !is_volume.last() {
            let v = volumes.drop_last();
            let b = is_volume.drop_last();
            assert forall|k: int| 0 <= k < v.len() implies #[trigger] b[k] == value(v[k]) is Some by {
                assert(b[k] == is_volume[k] && v[k] == volumes[k]);
            }
            counting_text_is_in_force(v, value, b);
        }
    }
}

/// Saving the preference changes the preference alone. Whatever is stored and
/// whatever number each text stands for, what is read back then has the volume that
/// was read before, and the new preference.
pub proof fn saving_the_preference_keeps_the_volume(
    contents: Option<&str>,
    value: spec_fn(Seq<char>) -> Option<int>,
    usual: int,
    is_volume: Seq<bool>,
    enabled: bool,
)
    requires
        value(usual_text()) == Some(usual),
        is_volume.len() == loaded(contents).volumes.len(),
        forall|k: int|
            0 <= k < is_volume.len() ==> #[trigger] is_volume[k] == value(
                loaded(contents).volumes[k],
            ) is Some,
    ensures
        ({
            let before = loaded(contents);
            let saved = settings_of(
                lines_of(
                    joined(settings_lines(text_in_force(before.volumes, is_volume), enabled)),
                ),
            );
            &&& saved.frameless_windowed == enabled
            &&& volume_in(saved.volumes, value, usual) == volume_in(before.volumes, value, usual)
        }),
{
    let before = loaded(contents);
    if let Some(text) = contents {
        lines_lack_line_feeds(text@);
        loaded_volumes_are_values(lines_of(text@));
    }
    counting_text_is_a_value(before.volumes, value, usual);
    counting_text_is_in_force(before.volumes, value, is_volume);
    let text = counting_text(before.volumes, value);
    stored_settings_are_read_back(text, enabled);
    assert(seq![text].last() == text);
}

/// Saving the volume changes the volume alone.
pub proof fn saving_the_volume_keeps_the_preference(
    contents: Option<&str>,
    value: spec_fn(Seq<char>) -> Option<int>,
    usual: int,
    volume: Seq<char>,
)
    requires
        lacks(volume, '\n'),
        trim_seq(volume) == volume,
        value(volume) is Some,
    ensures
        ({
            let before = loaded(contents);
            let saved = settings_of(
                lines_of(joined(settings_lines(volume, before.frameless_windowed))),
            );
            &&& saved.frameless_windowed == before.frameless_windowed
            &&& Some(volume_in(saved.volumes, value, usual)) == value(volume)
        }),
{
    stored_settings_are_read_back(volume, loaded(contents).frameless_windowed);
    assert(seq![volume].last() == volume);
}

/// A line that gives the volume adds its text, one that gives the preference sets
/// it where it says true or false, and any other line says nothing.
pub proof fn setting_is_taken_from_its_line(m: SettingsModel, line: Seq<char>, value: Seq<char>)
    ensures
        ({
            let v = m.after("volume="@ + value);
            let on = m.after("frameless_windowed="@ + value);
            &&& v.volumes == m.volumes.push(trim_seq(value))
            &&& v.frameless_windowed == m.frameless_windowed
            &&& on.volumes == m.volumes
            &&& trim_seq(value) == "true"@ ==> on.frameless_windowed
            &&& trim_seq(value) == "false"@ ==> !on.frameless_windowed
            &&& trim_seq(value) != "true"@ && trim_seq(value) != "false"@ ==> on == m
        }),
        !occurs_at(line, "volume="@, 0) && !occurs_at(line, "frameless_windowed="@, 0) ==> m.after(
            line,
        ) == m,
        unset().volumes.len() == 0,
        !unset().frameless_windowed,
{
    reveal_strlit("volume=");
    reveal_strlit("frameless_windowed=");
    reveal_strlit("true");
    reveal_strlit("false");
    let a = "volume="@ + value;
    let b = "frameless_windowed="@ + value;
    assert(a.subrange(0, 7) =~= "volume="@);
    assert(a.skip(7) =~= value);
    assert(b.subrange(0, 19) =~= "frameless_windowed="@);
    assert(b.skip(19) =~= value);
    assert(b.subrange(0, 7)[0] == 'f');
    assert("volume="@[0] == 'v');
    assert("true"@.len() != "false"@.len());
}

/// The last text that stands for a volume counts, whatever stands before it; with
/// none of them the usual volume does.
pub proof fn last_volume_counts(
    volumes: Seq<Seq<char>>,
    text: Seq<char>,
    value: spec_fn(Seq<char>) -> Option<int>,
    usual: int,
)
    ensures
        volume_in(Seq::empty(), value, usual) == usual,
        value(text) matches Some(v) ==> volume_in(volumes.push(text), value, usual) == v,
        value(text) is None ==> volume_in(volumes.push(text), value, usual) == volume_in(
            volumes,
            value,
            usual,
        ),
        value(text) is Some ==> counting_text(volumes.push(text), value) == text,
        value(text) is None ==> counting_text(volumes.push(text), value) == counting_text(
            volumes,
            value,
        ),
        counting_text(Seq::empty(), value) == seq!['1'],
{
    assert(volumes.push(text).drop_last() =~= volumes);
}

} // verus!
