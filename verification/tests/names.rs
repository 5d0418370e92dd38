use media_sidecar::staging::{
    generate_output_filename, next_stamp, purge_targets, staged_file_name, temp_output_file_name,
};
use media_sidecar::text::{decimal, ends_with_ignoring_case, find_last_dot, same_text, to_folded};

#[test]
fn convert_takes_the_requested_format() {
    assert_eq!(generate_output_filename("movie.mov", "convert", "mp4"), "movie_converted.mp4");
}

#[test]
fn trim_keeps_the_original_extension() {
    assert_eq!(generate_output_filename("input.mov", "trim", ""), "input_trimmed.mov");
    assert_eq!(generate_output_filename("input.mov", "trim", "mp4"), "input_trimmed.mov");
}

#[test]
fn other_operations_are_named_processed() {
    assert_eq!(generate_output_filename("clip.mkv", "remux", "mp4"), "clip_processed.mkv");
    assert_eq!(generate_output_filename("clip.mkv", "", ""), "clip_processed.mkv");
}

#[test]
fn only_the_last_dot_splits_the_name() {
    assert_eq!(generate_output_filename("a.b.c", "trim", ""), "a.b_trimmed.c");
    assert_eq!(generate_output_filename("a.b.c", "convert", "wav"), "a.b_converted.wav");
}

#[test]
fn name_without_dot_is_its_own_extension() {
    assert_eq!(generate_output_filename("file", "trim", ""), "file_trimmed.file");
    assert_eq!(generate_output_filename("file", "convert", "mp3"), "file_converted.mp3");
}

#[test]
fn name_with_edge_dots() {
    assert_eq!(generate_output_filename(".hidden", "trim", ""), "_trimmed.hidden");
    assert_eq!(generate_output_filename("name.", "trim", ""), "name_trimmed.");
    assert_eq!(generate_output_filename("", "trim", ""), "_trimmed.");
}

#[test]
fn name_with_wide_characters() {
    assert_eq!(generate_output_filename("vidéo.mov", "trim", ""), "vidéo_trimmed.mov");
}

#[test]
fn staged_name_is_timestamp_underscore_name() {
    assert_eq!(staged_file_name(1700000000, "input.mov"), "1700000000_input.mov");
    assert_eq!(staged_file_name(0, ""), "0_");
}

#[test]
fn temp_output_name_joins_both_rules() {
    assert_eq!(
        temp_output_file_name(1700000005, "input.mov", "trim", ""),
        "1700000005_input_trimmed.mov"
    );
    assert_eq!(
        temp_output_file_name(42, "song.flac", "convert", "mp3"),
        "42_song_converted.mp3"
    );
}

#[test]
fn decimal_numerals() {
    assert_eq!(decimal(0), "0");
    assert_eq!(decimal(7), "7");
    assert_eq!(decimal(10), "10");
    assert_eq!(decimal(1234567890), "1234567890");
    assert_eq!(decimal(u64::MAX), "18446744073709551615");
}

#[test]
fn last_dot_positions() {
    assert_eq!(find_last_dot("a.b.c"), Some(3));
    assert_eq!(find_last_dot(".x"), Some(0));
    assert_eq!(find_last_dot("x."), Some(1));
    assert_eq!(find_last_dot("none"), None);
    assert_eq!(find_last_dot(""), None);
    assert_eq!(find_last_dot("é.x"), Some(1));
}

#[test]
fn same_text_compares_characters() {
    assert!(same_text("trim", "trim"));
    assert!(same_text("", ""));
    assert!(!same_text("trim", "Trim"));
    assert!(!same_text("trim", "trims"));
    assert!(!same_text("trims", "trim"));
}

#[test]
fn folding_touches_only_ascii_capitals() {
    assert_eq!(to_folded('A'), 'a');
    assert_eq!(to_folded('Z'), 'z');
    assert_eq!(to_folded('m'), 'm');
    assert_eq!(to_folded('3'), '3');
    assert_eq!(to_folded('.'), '.');
    assert_eq!(to_folded('É'), 'É');
}

#[test]
fn suffix_match_ignores_case_of_the_text() {
    assert!(ends_with_ignoring_case("SONG.MP3", ".mp3"));
    assert!(ends_with_ignoring_case("song.Mp3", ".mp3"));
    assert!(ends_with_ignoring_case(".mp3", ".mp3"));
    assert!(ends_with_ignoring_case("anything", ""));
    assert!(!ends_with_ignoring_case("mp3", ".mp3"));
    assert!(!ends_with_ignoring_case("song.mp4", ".mp3"));
    assert!(!ends_with_ignoring_case("song.mp3", ".MP3"));
}

#[test]
fn purge_takes_regular_files_only() {
    assert_eq!(purge_targets(&vec![true, false, true, true, false]), vec![0, 2, 3]);
    assert_eq!(purge_targets(&vec![false, false]), Vec::<usize>::new());
    assert_eq!(purge_targets(&vec![]), Vec::<usize>::new());
    assert_eq!(purge_targets(&vec![true]), vec![0]);
}

#[test]
fn staged_names_differ_with_timestamp_or_name() {
    assert_ne!(staged_file_name(1, "1_a"), staged_file_name(11, "a"));
    assert_ne!(staged_file_name(1700000000, "a.mov"), staged_file_name(1700000001, "a.mov"));
    assert_ne!(staged_file_name(5, "a.mov"), staged_file_name(5, "b.mov"));
}

#[test]
fn stamp_is_the_time_when_the_time_has_moved_on() {
    assert_eq!(next_stamp(0, 1700000000), Some(1700000000));
    assert_eq!(next_stamp(1700000000, 1700000001), Some(1700000001));
    assert_eq!(next_stamp(5, u64::MAX), Some(u64::MAX));
}

#[test]
fn stamp_is_one_more_when_the_time_has_not_moved_on() {
    assert_eq!(next_stamp(1700000000, 1700000000), Some(1700000001));
    assert_eq!(next_stamp(1700000005, 1700000000), Some(1700000006));
    assert_eq!(next_stamp(0, 0), Some(1));
    assert_eq!(next_stamp(u64::MAX - 1, 3), Some(u64::MAX));
}

#[test]
fn no_stamp_is_left_after_the_greatest() {
    assert_eq!(next_stamp(u64::MAX, 0), None);
    assert_eq!(next_stamp(u64::MAX, u64::MAX), None);
}

#[test]
fn two_stagings_of_one_name_in_one_second_get_two_names() {
    let now = 1700000000;
    let first = next_stamp(0, now).unwrap();
    let second = next_stamp(first, now).unwrap();
    let third = next_stamp(second, now).unwrap();
    let names = [
        staged_file_name(first, "clip.mov"),
        staged_file_name(second, "clip.mov"),
        staged_file_name(third, "clip.mov"),
    ];
    assert_eq!(names[0], "1700000000_clip.mov");
    assert_eq!(names[1], "1700000001_clip.mov");
    assert_eq!(names[2], "1700000002_clip.mov");
    assert_ne!(names[0], names[1]);
    assert_ne!(names[1], names[2]);
    assert_ne!(names[0], names[2]);
}

#[test]
fn stamps_keep_growing_when_the_clock_goes_back() {
    let mut last = 0;
    let mut seen = Vec::new();
    for now in [100, 100, 99, 100, 101, 101, 50, 103] {
        let stamp = next_stamp(last, now).unwrap();
        assert!(stamp > last);
        assert!(stamp >= now);
        seen.push(stamp);
        last = stamp;
    }
    assert_eq!(seen, vec![100, 101, 102, 103, 104, 105, 106, 107]);
}
