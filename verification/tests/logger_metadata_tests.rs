use rustwav::cli::{HeadlessConfig, OutputFormat};
use rustwav::logger::{JsonEvent, LogValue, Logger, Output};
use rustwav::metadata::{
    next_cover_quality, reading_format_of, sanitize_vorbis_string, writing_format_of,
    year_from_date, AudioTags, TagFormat,
};

fn config(enabled: bool, quiet: bool, verbose: bool, output_format: OutputFormat) -> HeadlessConfig {
    HeadlessConfig { enabled, quiet, verbose, output_format }
}

fn line(text: &str) -> Option<Output> {
    Some(Output::Line(text.to_string()))
}

#[test]
fn lines_carry_a_mark_where_that_is_asked_for() {
    let l = Logger::new(config(true, false, true, OutputFormat::Text));
    assert_eq!(l.info("hello"), line("[INFO] hello"));
    assert_eq!(l.progress("working"), line("[...] working"));
    assert_eq!(l.success("done"), line("[OK] done"));
    assert_eq!(l.warn("careful"), Output::Line("[WARN] careful".to_string()));
    assert_eq!(l.error("broken"), Output::Line("[ERROR] broken".to_string()));
    assert_eq!(l.debug("detail"), line("[DEBUG] detail"));
    assert_eq!(l.track_start("A", "T"), line("[...] Downloading: A \u{2014} T"));
    assert_eq!(l.track_skip("A", "T"), line("[SKIP] Skipping: A \u{2014} T"));
    assert_eq!(l.track_complete("A", "T", "p"), line("[OK] Complete: A \u{2014} T"));
    assert_eq!(l.album_complete("N", "A", 3), Output::Line("[OK] Album 'N' by A finished.".to_string()));
    assert_eq!(
        l.playlist_complete("N", 12),
        Output::Line("[OK] Playlist 'N' with 12 tracks finished.".to_string())
    );
    assert_eq!(l.output("something", "m", None), Output::Line("[INFO] m".to_string()));
    let plain = Logger::new(config(false, false, false, OutputFormat::Text));
    assert_eq!(plain.info("hello"), line("hello"));
    assert_eq!(plain.debug("detail"), None);
}

#[test]
fn a_quiet_run_reports_warnings_errors_and_summaries_only() {
    let l = Logger::new(config(true, true, true, OutputFormat::Text));
    assert_eq!(l.info("x"), None);
    assert_eq!(l.progress("x"), None);
    assert_eq!(l.success("x"), None);
    assert_eq!(l.track_start("A", "T"), None);
    assert_eq!(l.track_skip("A", "T"), None);
    assert_eq!(l.track_complete("A", "T", "p"), None);
    assert_eq!(l.warn("w"), Output::Line("[WARN] w".to_string()));
    assert_eq!(l.error("e"), Output::Line("[ERROR] e".to_string()));
    assert_eq!(l.debug("d"), line("[DEBUG] d"));
    assert_eq!(l.album_complete("N", "A", 1), Output::Line("[OK] Album 'N' by A finished.".to_string()));
}

#[test]
fn structured_reports_carry_their_values() {
    let l = Logger::new(config(true, false, false, OutputFormat::Json));
    assert_eq!(
        l.info("hello"),
        Some(Output::Json(JsonEvent {
            event_type: "info".to_string(),
            message: "hello".to_string(),
            data: None,
        }))
    );
    assert_eq!(
        l.track_complete("A", "T", "p"),
        Some(Output::Json(JsonEvent {
            event_type: "track_complete".to_string(),
            message: "Complete: A \u{2014} T".to_string(),
            data: Some(vec![
                ("artist".to_string(), LogValue::Text("A".to_string())),
                ("title".to_string(), LogValue::Text("T".to_string())),
                ("path".to_string(), LogValue::Text("p".to_string())),
            ]),
        }))
    );
    assert_eq!(
        l.playlist_complete("N", 2),
        Output::Json(JsonEvent {
            event_type: "playlist_complete".to_string(),
            message: "Playlist 'N' with 2 tracks finished.".to_string(),
            data: Some(vec![
                ("playlist".to_string(), LogValue::Text("N".to_string())),
                ("tracks".to_string(), LogValue::Count(2)),
            ]),
        })
    );
}

#[test]
fn tags_read_as_lines_of_text() {
    let tags = AudioTags {
        title: Some("T".to_string()),
        artist: None,
        album: Some("L".to_string()),
        genre: None,
        track: Some(7),
        year: Some(-44),
        has_cover: true,
    };
    assert_eq!(
        tags.to_text(),
        "  Title:  T\n  Artist: (none)\n  Album:  L\n  Genre:  (none)\n  Track:  7\n  Year:   -44\n  Cover:  Yes\n"
    );
    assert_eq!(
        AudioTags::empty().to_text(),
        "  Title:  (none)\n  Artist: (none)\n  Album:  (none)\n  Genre:  (none)\n  Track:  (none)\n  Year:   (none)\n  Cover:  No\n"
    );
    let mut far = AudioTags::empty();
    far.year = Some(i32::MIN);
    far.track = Some(u32::MAX);
    assert!(far.to_text().contains("Year:   -2147483648\n"));
    assert!(far.to_text().contains("Track:  4294967295\n"));
}

#[test]
fn the_kind_of_tag_goes_by_the_extension() {
    assert_eq!(reading_format_of("a/b.FLAC"), Some(TagFormat::Flac));
    assert_eq!(reading_format_of("a/b.mp3"), Some(TagFormat::Id3));
    assert_eq!(reading_format_of("a/b.wav"), Some(TagFormat::Wav));
    assert_eq!(reading_format_of("a/b.aif"), Some(TagFormat::Aiff));
    assert_eq!(reading_format_of("a/b.Aiff"), Some(TagFormat::Aiff));
    assert_eq!(reading_format_of("a/b.ogg"), None);
    assert_eq!(reading_format_of("a/b"), None);
    assert_eq!(writing_format_of("a/b.flac"), TagFormat::Flac);
    assert_eq!(writing_format_of("a/b.WAV"), TagFormat::Wav);
    assert_eq!(writing_format_of("a/b.aiff"), TagFormat::Aiff);
    assert_eq!(writing_format_of("a/b.mp3"), TagFormat::Id3);
    assert_eq!(writing_format_of("a/b.ogg"), TagFormat::Id3);
    assert_eq!(writing_format_of("a/b"), TagFormat::Id3);
}

#[test]
fn null_characters_are_left_out_of_comments() {
    assert_eq!(sanitize_vorbis_string("a\0b\0\0c"), "abc");
    assert_eq!(sanitize_vorbis_string("\0"), "");
    assert_eq!(sanitize_vorbis_string("caf\u{e9}"), "caf\u{e9}");
}

#[test]
fn the_year_is_read_off_the_first_four_characters() {
    assert_eq!(year_from_date("2001-03-12"), Some(2001));
    assert_eq!(year_from_date("1999"), Some(1999));
    assert_eq!(year_from_date("87"), Some(87));
    assert_eq!(year_from_date("0005"), Some(5));
    assert_eq!(year_from_date("+123"), Some(123));
    assert_eq!(year_from_date("-123"), Some(-123));
    assert_eq!(year_from_date("-1234"), Some(-123));
    assert_eq!(year_from_date(""), None);
    assert_eq!(year_from_date("-"), None);
    assert_eq!(year_from_date("20a1"), None);
    assert_eq!(year_from_date("12-3"), None);
    assert_eq!(year_from_date(" 201"), None);
}

#[test]
fn a_cover_is_encoded_again_until_it_fits() {
    assert_eq!(next_cover_quality(85, 100, 100), None);
    assert_eq!(next_cover_quality(85, 101, 100), Some(80));
    assert_eq!(next_cover_quality(80, 101, 100), Some(70));
    assert_eq!(next_cover_quality(40, 101, 100), Some(30));
    assert_eq!(next_cover_quality(30, 101, 100), None);
    assert_eq!(next_cover_quality(30, 99, 100), None);
}
