use fastplay::csv::csv_field;
use fastplay::review_markers::{
    format_marker_timestamp_ms, sanitized_file_stem, MarkerExportFormat, ReviewMarker, ReviewMarkers,
    MAX_MARKER_NOTE_CHARS,
};

#[test]
fn timestamp_format_includes_milliseconds() {
    assert_eq!(format_marker_timestamp_ms(83_456), "1:23.456");
    assert_eq!(format_marker_timestamp_ms(3_723_004), "1:02:03.004");
}

#[test]
fn csv_escapes_quotes_commas_and_newlines() {
    assert_eq!(csv_field("plain"), "plain");
    assert_eq!(csv_field("a,b"), "\"a,b\"");
    assert_eq!(csv_field("say \"hi\""), "\"say \"\"hi\"\"\"");
    assert_eq!(csv_field("two\nlines"), "\"two\nlines\"");
}

#[test]
fn marker_storage_roundtrips_notes_with_escapes() {
    let mut markers = ReviewMarkers::default();
    markers.markers.push(ReviewMarker {
        media_path: r"C:\Videos\clip.mp4".to_string(),
        timestamp_ms: 42_000,
        note: Some("quote, tab\tnewline\nslash\\".to_string()),
    });
    let stored = markers.serialize();
    let loaded = ReviewMarkers::load(Some(&stored));
    assert_eq!(loaded.markers, markers.markers);
}

#[test]
fn markers_for_sorts_by_time_and_matches_case_insensitively() {
    let mut markers = ReviewMarkers::default();
    markers.add_marker(r"C:\V\Clip.MP4", 2_000);
    markers.add_marker(r"c:\v\clip.mp4", 1_000);
    let got: Vec<u64> = markers
        .markers_for(r"C:\v\CLIP.mp4")
        .iter()
        .map(|marker| marker.timestamp_ms)
        .collect();
    assert_eq!(got, vec![1_000, 2_000]);
}

#[test]
fn remove_selected_marker_uses_visible_sorted_order() {
    let mut markers = ReviewMarkers::default();
    let media = "clip.mp4";
    markers.add_marker(media, 3_000);
    markers.add_marker(media, 1_000);
    markers.add_marker(media, 2_000);
    assert!(markers.remove_for_file_index(media, 1));
    let got: Vec<u64> = markers
        .markers_for(media)
        .iter()
        .map(|marker| marker.timestamp_ms)
        .collect();
    assert_eq!(got, vec![1_000, 3_000]);
}

#[test]
fn marker_note_is_bounded_and_persisted() {
    let media = "clip.mp4";
    let mut markers = ReviewMarkers::default();
    markers.add_marker(media, 1_000);
    let long_note = "x".repeat(MAX_MARKER_NOTE_CHARS + 20);
    assert!(markers.set_note_for_file_index(media, 0, &long_note));
    assert_eq!(
        markers.markers_for(media)[0]
            .note
            .as_ref()
            .unwrap()
            .chars()
            .count(),
        MAX_MARKER_NOTE_CHARS
    );

    let stored = markers.serialize();
    let loaded = ReviewMarkers::load(Some(&stored));
    assert_eq!(
        loaded.markers_for(media)[0]
            .note
            .as_ref()
            .unwrap()
            .chars()
            .count(),
        MAX_MARKER_NOTE_CHARS
    );
}

#[test]
fn blank_marker_note_clears_note() {
    let media = "clip.mp4";
    let mut markers = ReviewMarkers::default();
    markers.add_marker(media, 1_000);
    assert!(markers.set_note_for_file_index(media, 0, "needs review"));
    assert!(markers.set_note_for_file_index(media, 0, "   "));
    assert_eq!(markers.markers_for(media)[0].note, None);
}

#[test]
fn export_txt_includes_marker_notes() {
    let media = r"C:\Videos\clip.mp4";
    let mut markers = ReviewMarkers::default();
    markers.add_marker(media, 1_234);
    markers.set_note_for_file_index(media, 0, "tighten this cut");
    let (name, contents) = markers.export_for_file(media, MarkerExportFormat::Txt);
    assert!(contents.contains("0:01.234\ttighten this cut"));
    assert_eq!(contents, "File: clip.mp4\n0:01.234\ttighten this cut\n");
    assert_eq!(name, "clip-markers.txt");
}

#[test]
fn export_csv_writes_expected_columns() {
    let mut markers = ReviewMarkers::default();
    markers.markers.push(ReviewMarker {
        media_path: r"C:\Videos\clip, one.mp4".to_string(),
        timestamp_ms: 1_234,
        note: Some("needs \"review\"".to_string()),
    });
    let (name, contents) =
        markers.export_for_file(r"C:\Videos\clip, one.mp4", MarkerExportFormat::Csv);
    assert!(contents.contains("file,timestamp_ms,timestamp_display,note"));
    assert!(contents.contains("\"clip, one.mp4\",1234,0:01.234,\"needs \"\"review\"\"\""));
    assert_eq!(name, "clip, one-markers.csv");
}

#[test]
fn a_marker_is_set_once_per_time() {
    let mut markers = ReviewMarkers::default();
    markers.add_marker("b.mp4", 7);
    markers.add_marker("A.mp4", 9);
    markers.add_marker("B.MP4", 7);
    markers.add_marker("a.mp4", 3);
    let stored: Vec<(&str, u64)> = markers
        .markers()
        .iter()
        .map(|m| (m.media_path.as_str(), m.timestamp_ms))
        .collect();
    assert_eq!(stored, vec![("a.mp4", 3), ("A.mp4", 9), ("b.mp4", 7)]);
}

#[test]
fn lines_that_stand_for_no_marker_are_passed_over() {
    let text = "x\ta\t\n5\tclip.mp4\t\r\n6\t\tnote\n7\ta\\qb\tnote\n8\tb.mp4\n+9\tc.mp4\thi\tyou";
    let markers = ReviewMarkers::load(Some(text));
    assert_eq!(
        markers.markers,
        vec![
            ReviewMarker {
                media_path: "clip.mp4".to_string(),
                timestamp_ms: 5,
                note: None
            },
            ReviewMarker {
                media_path: "c.mp4".to_string(),
                timestamp_ms: 9,
                note: Some("hi\tyou".to_string())
            },
        ]
    );
    assert!(ReviewMarkers::load(None).markers().is_empty());
}

#[test]
fn a_place_without_a_marker_is_refused() {
    let mut markers = ReviewMarkers::default();
    markers.add_marker("clip.mp4", 1);
    assert!(!markers.remove_for_file_index("clip.mp4", 1));
    assert!(!markers.remove_for_file_index("other.mp4", 0));
    assert!(!markers.set_note_for_file_index("clip.mp4", 1, "x"));
    assert_eq!(markers.markers().len(), 1);
}

#[test]
fn unsafe_characters_leave_the_file_name() {
    assert_eq!(sanitized_file_stem("C:\\a\\b:c?d.mp4"), "b_c_d");
    assert_eq!(sanitized_file_stem("   .mp4"), "fastplay");
    assert_eq!(sanitized_file_stem("C:\\"), "fastplay");
    assert_eq!(sanitized_file_stem("a\u{7}b.mp4"), "a_b");
}
