use fastplay::media_ext::{is_subtitle, is_supported_media, media_dialog_filter_spec};

#[test]
fn supported_media_matches_case_insensitively() {
    assert!(is_supported_media("clip.mp4"));
    assert!(is_supported_media("clip.MP4"));
    assert!(is_supported_media("song.Flac"));
    assert!(is_supported_media(r"C:\Videos\Movie.MKV"));
}

#[test]
fn unsupported_and_extensionless_are_rejected() {
    assert!(!is_supported_media("notes.txt"));
    assert!(!is_supported_media("archive.zip"));
    assert!(!is_supported_media("no_extension"));
}

#[test]
fn subtitles_are_not_supported_media() {
    assert!(!is_supported_media("episode.srt"));
    assert!(is_subtitle("episode.srt"));
    assert!(is_subtitle("episode.SRT"));
    assert!(!is_subtitle("episode.mp4"));
}

#[test]
fn dialog_filter_spec_matches_legacy_literal() {
    assert_eq!(
        media_dialog_filter_spec(),
        "*.mp4;*.mkv;*.avi;*.mov;*.webm;*.wmv;*.flv;*.m4v;*.ts;*.mpg;*.mpeg;*.mp3;\
         *.flac;*.wav;*.ogg;*.aac;*.m4a;*.opus;*.srt"
    );
}
