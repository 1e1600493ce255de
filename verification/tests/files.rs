use fastplay::calendar::{civil_from_days, CivilDate};
use fastplay::csv::csv_field;
use fastplay::media_ext::{is_subtitle, is_supported_media};
use fastplay::natural::natural_cmp;
use fastplay::settings::{
    load, parse, save_frameless_windowed, save_volume, serialize, volume_in_force, SettingsText,
};
use fastplay::shell::{open_result, url_to_open};
use fastplay::winpath::{extension, file_name, file_stem};

fn volume_of(settings: &SettingsText) -> f32 {
    let value = |text: &String| {
        text.parse::<f32>()
            .ok()
            .filter(|v| (0.0..=1.5).contains(v))
    };
    let is_volume: Vec<bool> = settings.volumes.iter().map(|t| value(t).is_some()).collect();
    match volume_in_force(settings, &is_volume) {
        Some(i) => value(&settings.volumes[i]).unwrap(),
        None => 1.0,
    }
}

#[test]
fn missing_values_use_backwards_compatible_defaults() {
    let settings = parse("");
    assert_eq!((volume_of(&settings), settings.frameless_windowed), (1.0, false));
    let settings = parse("volume=0.75\n");
    assert_eq!((volume_of(&settings), settings.frameless_windowed), (0.75, false));
}

#[test]
fn parses_persisted_frameless_preference_without_losing_volume() {
    let settings = parse("volume=0.8\nframeless_windowed=true\n");
    assert_eq!((volume_of(&settings), settings.frameless_windowed), (0.8, true));
}

#[test]
fn invalid_values_fall_back_independently() {
    let settings = parse("volume=2.0\nframeless_windowed=maybe\n");
    assert_eq!((volume_of(&settings), settings.frameless_windowed), (1.0, false));
}

#[test]
fn settings_are_stored_line_by_line() {
    let text = serialize("0.5", true);
    assert_eq!(text, "volume=0.5\nframeless_windowed=true\n");
    let loaded = load(Some(&text));
    assert_eq!(loaded.volumes, vec!["0.5".to_string()]);
    assert!(loaded.frameless_windowed);
    assert!(!load(None).frameless_windowed);
    let last = parse("frameless_windowed=true\nframeless_windowed= false \n");
    assert!(!last.frameless_windowed);
}

#[test]
fn windows_paths_are_taken_apart() {
    assert_eq!(file_name(r"C:\a\b.mp4").as_deref(), Some("b.mp4"));
    assert_eq!(file_name("a/b/").as_deref(), Some("b"));
    assert_eq!(file_name(r"C:\"), None);
    assert_eq!(file_name(r"a\.."), None);
    assert_eq!(extension("a.tar.gz").as_deref(), Some("gz"));
    assert_eq!(file_stem("a.tar.gz").as_deref(), Some("a.tar"));
    assert_eq!(extension(".hidden"), None);
    assert_eq!(file_stem(".hidden").as_deref(), Some(".hidden"));
}

#[test]
fn fields_are_quoted_where_they_must_be() {
    assert_eq!(csv_field("plain"), "plain");
    assert_eq!(csv_field("a,b"), "\"a,b\"");
    assert_eq!(csv_field("say \"hi\""), "\"say \"\"hi\"\"\"");
    assert_eq!(csv_field("a\nb"), "\"a\nb\"");
}

#[test]
fn numbers_in_names_count() {
    assert_eq!(natural_cmp("clip2", "clip10"), std::cmp::Ordering::Less);
    assert_eq!(natural_cmp("Clip", "clip"), std::cmp::Ordering::Equal);
    assert_eq!(
        natural_cmp("a99999999999999999999999", "a100000000000000000000000"),
        std::cmp::Ordering::Less
    );
}

#[test]
fn days_become_dates() {
    let date = |year, month, day| CivilDate { year, month, day };
    assert_eq!(civil_from_days(0), date(1970, 1, 1));
    assert_eq!(civil_from_days(11_016), date(2000, 2, 29));
    assert_eq!(civil_from_days(11_017), date(2000, 3, 1));
    assert_eq!(civil_from_days(47_540), date(2100, 2, 28));
    assert_eq!(civil_from_days(47_541), date(2100, 3, 1));
}

#[test]
fn a_blank_address_is_not_opened() {
    assert_eq!(url_to_open("  "), Err("URL required".to_string()));
    assert_eq!(url_to_open(" https://x.y "), Ok("https://x.y".to_string()));
    assert_eq!(
        open_result(2),
        Err("ShellExecuteW failed with code 2".to_string())
    );
    assert_eq!(
        open_result(-1),
        Err("ShellExecuteW failed with code -1".to_string())
    );
    assert!(open_result(32).is_err());
    assert_eq!(open_result(33), Ok(()));
}

#[test]
fn saving_one_setting_keeps_the_other() {
    let stored = "volume=0.25\nvolume=9\nframeless_windowed=true\n";
    let text = save_frameless_windowed(Some(stored), &vec![true, false], false);
    assert_eq!(text, "volume=0.25\nframeless_windowed=false\n");
    let saved = parse(&text);
    assert_eq!((volume_of(&saved), saved.frameless_windowed), (0.25, false));
    let fresh = save_frameless_windowed(None, &Vec::new(), true);
    assert_eq!(fresh, "volume=1\nframeless_windowed=true\n");
    let saved = parse(&save_volume(Some(stored), "0.5"));
    assert_eq!((volume_of(&saved), saved.frameless_windowed), (0.5, true));
    let fresh = parse(&save_volume(None, "0.5"));
    assert!(!fresh.frameless_windowed);
}

#[test]
fn literal_and_device_paths_have_their_own_volumes() {
    assert_eq!(file_name(r"\\?\UNC\s\f.mp4"), None);
    assert_eq!(extension(r"\\?\UNC\s\f.srt"), None);
    assert_eq!(file_name(r"\\?\UNC\s\d\f.mp4").as_deref(), Some("f.mp4"));
    assert_eq!(file_name(r"\\?\C:\a/.mp4").as_deref(), Some("a/.mp4"));
    assert_eq!(extension(r"\\?\C:\a/.mp4").as_deref(), Some("mp4"));
    assert_eq!(file_name(r"\\?\C:\a.mp4\."), None);
    assert_eq!(file_name(r"\\?\C:\a.mp4\").as_deref(), Some("a.mp4"));
    assert_eq!(file_name(r"\\?\C:/a.mp4").as_deref(), Some("a.mp4"));
    assert_eq!(file_name(r"\\?\C:"), None);
    assert_eq!(file_name(r"\\?\C:a.mp4"), None);
    assert_eq!(file_name(r"\\?\volume\a.mp4").as_deref(), Some("a.mp4"));
    assert_eq!(file_name(r"\\?\a.mp4"), None);
    assert_eq!(file_name(r"\\.\COM1"), None);
    assert_eq!(file_name(r"\\.\disk\a.mp4").as_deref(), Some("a.mp4"));
    assert_eq!(file_name("//?/C:/a.mp4").as_deref(), Some("a.mp4"));
    assert_eq!(file_name("//?/a.mp4"), None);
    assert_eq!(file_name(r"\\server\share.mp4"), None);
    assert_eq!(file_name(r"\\server\share\f.mp4").as_deref(), Some("f.mp4"));
    assert_eq!(file_name(r"C:\a.mp4\.").as_deref(), Some("a.mp4"));
    assert_eq!(file_name("C:a.mp4").as_deref(), Some("a.mp4"));
}

#[test]
fn a_share_named_like_a_file_is_no_media() {
    assert!(!is_supported_media(r"\\?\UNC\s\f.mp4"));
    assert!(!is_subtitle(r"\\?\UNC\s\f.srt"));
    assert!(is_supported_media(r"\\?\C:\v\clip.MP4"));
    assert!(is_supported_media(r"\\?\C:\a/.mp4"));
    assert!(is_subtitle(r"\\?\UNC\s\d\f.srt"));
}
