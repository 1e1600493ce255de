//! Which files count as media, by their extension.
use vstd::prelude::*;
use crate::text::{eq_ignore_ascii_case, lower_seq};
use crate::winpath::{extension, extension_seq};

verus! {

/// The extensions of files that can be played, in the order of the open dialog.
pub open spec fn media_extensions() -> Seq<Seq<char>> {
    seq![
        "mp4"@,
        "mkv"@,
        "avi"@,
        "mov"@,
        "webm"@,
        "wmv"@,
        "flv"@,
        "m4v"@,
        "ts"@,
        "mpg"@,
        "mpeg"@,
        "mp3"@,
        "flac"@,
        "wav"@,
        "ogg"@,
        "aac"@,
        "m4a"@,
        "opus"@,
    ]
}

/// The extensions of subtitle files. They can be opened but not played.
pub open spec fn subtitle_extensions() -> Seq<Seq<char>> {
    seq!["srt"@]
}

/// The texts of a sequence of literals.
pub open spec fn literal_texts(v: Seq<&'static str>) -> Seq<Seq<char>> {
    v.map_values(|x: &'static str| x@)
}

/// The extensions of files that can be played.
pub fn supported_media_extensions() -> (r: Vec<&'static str>)
    ensures
        literal_texts(r@) == media_extensions(),
{
    let r: Vec<&'static str> = vec![
        "mp4", "mkv", "avi", "mov", "webm", "wmv", "flv", "m4v", "ts", "mpg", "mpeg", "mp3",
        "flac", "wav", "ogg", "aac", "m4a", "opus",
    ];
    proof {
        assert(literal_texts(r@) =~= media_extensions());
    }
    r
}

/// The extensions of subtitle files.
pub fn supported_subtitle_extensions() -> (r: Vec<&'static str>)
    ensures
        literal_texts(r@) == subtitle_extensions(),
{
    let r: Vec<&'static str> = vec!["srt"];
    proof {
        assert(literal_texts(r@) =~= subtitle_extensions());
    }
    r
}

/// Whether a list holds an extension, without regard to ASCII case.
pub open spec fn lists(extensions: Seq<Seq<char>>, ext: Seq<char>) -> bool {
    exists|i: int|
        0 <= i < extensions.len() && #[trigger] lower_seq(extensions[i]) == lower_seq(ext)
}

/// Whether the extension of a path is in a list.
pub open spec fn has_extension(path: Seq<char>, extensions: Seq<Seq<char>>) -> bool {
    extension_seq(path) matches Some(ext) && lists(extensions, ext)
}

/// Whether a path names a file that can be played.
pub open spec fn is_media(path: Seq<char>) -> bool {
    has_extension(path, media_extensions())
}

/// Whether a path names a subtitle file.
pub open spec fn is_subtitle_path(path: Seq<char>) -> bool {
    has_extension(path, subtitle_extensions())
}

fn extension_matches(path: &str, extensions: &Vec<&'static str>) -> (r: bool)
    ensures
        r == has_extension(path@, literal_texts(extensions@)),
{
    let ext = match extension(path) {
        Some(ext) => ext,
        None => {
            return false;
        },
    };
    let ghost list = literal_texts(extensions@);
    let mut i: usize = 0;
    while i < extensions.len()
        invariant
            i <= extensions@.len(),
            list == literal_texts(extensions@),
            extension_seq(path@) == Some(ext@),
            forall|k: int| 0 <= k < i ==> lower_seq(#[trigger] list[k]) != lower_seq(ext@),
        decreases extensions@.len() - i,
    {
        if eq_ignore_ascii_case(extensions[i], ext.as_str()) {
            proof {
                assert(lower_seq(list[i as int]) == lower_seq(ext@));
            }
            return true;
        }
        i = i + 1;
    }
    false
}

/// Whether a path names a file that can be played.
pub fn is_supported_media(path: &str) -> (r: bool)
    ensures
        r == is_media(path@),
{
    extension_matches(path, &supported_media_extensions())
}

/// Whether a path names a subtitle file.
pub fn is_subtitle(path: &str) -> (r: bool)
    ensures
        r == is_subtitle_path(path@),
{
    extension_matches(path, &supported_subtitle_extensions())
}

/// The patterns `*.` and extension, with semicolons between them.
pub open spec fn filter_text(extensions: Seq<Seq<char>>) -> Seq<char>
    decreases extensions.len(),
{
    if extensions.len() == 0 {
        Seq::empty()
    } else if extensions.len() == 1 {
        "*."@ + extensions[0]
    } else {
        filter_text(extensions.drop_last()) + ";"@ + "*."@ + extensions.last()
    }
}

/// The filter of the open dialog: every file that can be played, and subtitles.
pub fn media_dialog_filter_spec() -> (r: String)
    ensures
        r@ == filter_text(media_extensions() + subtitle_extensions()),
{
    let mut all: Vec<&'static str> = supported_media_extensions();
    let mut more: Vec<&'static str> = supported_subtitle_extensions();
    let ghost list = media_extensions() + subtitle_extensions();
    all.append(&mut more);
    proof {
        assert(literal_texts(all@) =~= list);
    }
    let mut out = String::new();
    let mut i: usize = 0;
    proof {
        assert(filter_text(list.take(0)) =~= out@);
    }
    while i < all.len()
        invariant
            i <= all@.len(),
            list == literal_texts(all@),
            out@ == filter_text(list.take(i as int)),
        decreases all@.len() - i,
    {
        let ghost before = out@;
        if i > 0 {
            out.append(";");
        }
        out.append("*.");
        out.append(all[i]);
        proof {
            let next = list.take(i + 1);
            assert(next.drop_last() =~= list.take(i as int));
            assert(next.last() == all@[i as int]@);
            if i == 0 {
                assert(out@ =~= "*."@ + next[0]);
            }
        }
        i = i + 1;
    }
    proof {
        assert(list.take(list.len() as int) =~= list);
    }
    out
}

/// A subtitle is never something to play.
pub proof fn subtitles_are_not_media(path: Seq<char>)
    requires
        is_subtitle_path(path),
    ensures
        !is_media(path),
{
    let ext = extension_seq(path).unwrap();
    reveal_strlit("srt");
    reveal_strlit("mp4");
    reveal_strlit("mkv");
    reveal_strlit("avi");
    reveal_strlit("mov");
    reveal_strlit("webm");
    reveal_strlit("wmv");
    reveal_strlit("flv");
    reveal_strlit("m4v");
    reveal_strlit("ts");
    reveal_strlit("mpg");
    reveal_strlit("mpeg");
    reveal_strlit("mp3");
    reveal_strlit("flac");
    reveal_strlit("wav");
    reveal_strlit("ogg");
    reveal_strlit("aac");
    reveal_strlit("m4a");
    reveal_strlit("opus");
    let srt = subtitle_extensions();
    let k = choose|k: int| 0 <= k < srt.len() && #[trigger] lower_seq(srt[k]) == lower_seq(ext);
    assert(srt[k] == "srt"@);
    assert(lower_seq("srt"@)[0] == 's' && lower_seq("srt"@).len() == 3);
    let m = media_extensions();
    assert forall|i: int| 0 <= i < m.len() implies #[trigger] lower_seq(m[i]) != lower_seq(
        ext,
    ) by {
        let first = lower_seq(m[i]);
        assert(first.len() == m[i].len());
        assert(first[0] == crate::text::lower(m[i][0]));
        assert(m[i][0] != 's');
    }
}

/// A path names a file to play where its extension is one of the known ones, in
/// whatever case, and a subtitle file where it is `srt`.
pub proof fn extension_tells_what_can_be_played(path: Seq<char>, ext: Seq<char>)
    requires
        extension_seq(path) == Some(ext),
    ensures
        is_media(path) <==> {
            let e = lower_seq(ext);
            ||| e == lower_seq("mp4"@)
            ||| e == lower_seq("mkv"@)
            ||| e == lower_seq("avi"@)
            ||| e == lower_seq("mov"@)
            ||| e == lower_seq("webm"@)
            ||| e == lower_seq("wmv"@)
            ||| e == lower_seq("flv"@)
            ||| e == lower_seq("m4v"@)
            ||| e == lower_seq("ts"@)
            ||| e == lower_seq("mpg"@)
            ||| e == lower_seq("mpeg"@)
            ||| e == lower_seq("mp3"@)
            ||| e == lower_seq("flac"@)
            ||| e == lower_seq("wav"@)
            ||| e == lower_seq("ogg"@)
            ||| e == lower_seq("aac"@)
            ||| e == lower_seq("m4a"@)
            ||| e == lower_seq("opus"@)
        },
        is_subtitle_path(path) <==> lower_seq(ext) == lower_seq("srt"@),
{
    let list = media_extensions();
    assert(list[0] == "mp4"@ && list[1] == "mkv"@ && list[2] == "avi"@ && list[3] == "mov"@);
    assert(list[4] == "webm"@ && list[5] == "wmv"@ && list[6] == "flv"@ && list[7] == "m4v"@);
    assert(list[8] == "ts"@ && list[9] == "mpg"@ && list[10] == "mpeg"@ && list[11] == "mp3"@);
    assert(list[12] == "flac"@ && list[13] == "wav"@ && list[14] == "ogg"@ && list[15] == "aac"@);
    assert(list[16] == "m4a"@ && list[17] == "opus"@);
    assert(subtitle_extensions()[0] == "srt"@);
}

/// A path without an extension names nothing to play.
pub proof fn path_without_extension_is_not_played(path: Seq<char>)
    requires
        extension_seq(path) is None,
    ensures
        !is_media(path),
        !is_subtitle_path(path),
{
}

/// The patterns of a dialog stand in the order of the extensions, each behind an
/// asterisk and a dot, with semicolons between them.
pub proof fn patterns_stand_in_order(extensions: Seq<Seq<char>>, ext: Seq<char>)
    ensures
        filter_text(seq![ext]) == "*."@ + ext,
        extensions.len() > 0 ==> filter_text(extensions.push(ext)) == filter_text(extensions)
            + ";"@ + "*."@ + ext,
{
    assert(extensions.push(ext).drop_last() =~= extensions);
}

} // verus!
