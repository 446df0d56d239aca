use rustwav::converter::{
    conclude_conversion, format_to_codec, get_format_from_path, is_audio_file,
    is_supported_format,
    log_message, plan_conversion, prepare_conversion, progress_message, quality_to_bitrate,
    ConvertError,
};

#[test]
fn test_quality_to_bitrate() {
    assert_eq!(quality_to_bitrate("mp3", "high"), Some("320k"));
    assert_eq!(quality_to_bitrate("mp3", "medium"), Some("192k"));
    assert_eq!(quality_to_bitrate("mp3", "low"), Some("128k"));
    assert_eq!(quality_to_bitrate("aac", "high"), Some("256k"));
    assert_eq!(quality_to_bitrate("flac", "high"), None);
    assert_eq!(quality_to_bitrate("wav", "high"), None);
}

#[test]
fn test_is_supported_format() {
    assert!(is_supported_format("mp3"));
    assert!(is_supported_format("MP3"));
    assert!(is_supported_format("flac"));
    assert!(is_supported_format("wav"));
    assert!(is_supported_format("aac"));
    assert!(!is_supported_format("ogg"));
    assert!(!is_supported_format("wma"));
}

#[test]
fn test_format_to_codec() {
    assert_eq!(format_to_codec("mp3"), "libmp3lame");
    assert_eq!(format_to_codec("flac"), "flac");
    assert_eq!(format_to_codec("wav"), "pcm_s16le");
    assert_eq!(format_to_codec("aac"), "aac");
}

#[test]
fn unknown_quality_falls_back_to_the_best_bitrate() {
    assert_eq!(quality_to_bitrate("mp3", "ultra"), Some("320k"));
    assert_eq!(quality_to_bitrate("aac", "medium"), Some("192k"));
    assert_eq!(quality_to_bitrate("aac", "low"), Some("128k"));
    assert_eq!(quality_to_bitrate("aac", ""), Some("256k"));
    assert_eq!(quality_to_bitrate("ogg", "high"), None);
}

#[test]
fn unknown_format_uses_the_mp3_codec() {
    assert_eq!(format_to_codec("ogg"), "libmp3lame");
    assert_eq!(format_to_codec(""), "libmp3lame");
}

#[test]
fn format_is_read_off_the_extension_in_lower_case() {
    assert_eq!(get_format_from_path("music/Song.MP3"), Some("mp3".to_string()));
    assert_eq!(get_format_from_path("a/b.c/track.flac"), Some("flac".to_string()));
    assert_eq!(get_format_from_path("a/b.c/track"), None);
    assert_eq!(get_format_from_path(".hidden"), None);
    assert_eq!(get_format_from_path("dir/"), None);
    assert_eq!(get_format_from_path("archive.tar.gz"), Some("gz".to_string()));
}

#[test]
fn plan_lists_the_encoder_arguments_in_order() {
    let plan = plan_conversion("music/a/song.flac", "mp3", "medium", true).unwrap();
    assert_eq!(plan.input_path, "music/a/song.flac");
    assert_eq!(plan.output_path, "music/a/song.mp3");
    assert_eq!(plan.codec, "libmp3lame");
    assert_eq!(
        plan.args,
        vec![
            "-i",
            "music/a/song.flac",
            "-codec:a",
            "libmp3lame",
            "-b:a",
            "192k",
            "-y",
            "-progress",
            "pipe:1",
            "music/a/song.mp3"
        ]
    );
    assert_eq!(
        plan.announcement,
        "Converting music/a/song.flac -> music/a/song.mp3 (codec: libmp3lame)"
    );
}

#[test]
fn lossless_plan_has_no_bitrate() {
    let plan = plan_conversion("song.mp3", "wav", "high", true).unwrap();
    assert_eq!(
        plan.args,
        vec!["-i", "song.mp3", "-codec:a", "pcm_s16le", "-y", "-progress", "pipe:1", "song.wav"]
    );
}

#[test]
fn plan_is_refused_for_each_reason() {
    match plan_conversion("song.mp3", "ogg", "high", true) {
        Err(ConvertError::UnsupportedFormat(f)) => assert_eq!(f, "ogg"),
        other => panic!("unexpected: {:?}", other),
    }
    match plan_conversion("song.mp3", "flac", "high", false) {
        Err(ConvertError::MissingInput(p)) => assert_eq!(p, "song.mp3"),
        other => panic!("unexpected: {:?}", other),
    }
    match plan_conversion("song.mp3", "mp3", "high", true) {
        Err(ConvertError::SameFormat) => {}
        other => panic!("unexpected: {:?}", other),
    }
    // The format is judged before the input is looked at.
    match plan_conversion("song.mp3", "ogg", "high", false) {
        Err(ConvertError::UnsupportedFormat(_)) => {}
        other => panic!("unexpected: {:?}", other),
    }
}

#[test]
fn prepare_lowers_the_format_and_asks_the_disk() {
    match prepare_conversion("/surely/not/there/song.mp3", "FLAC", "high") {
        Err(ConvertError::MissingInput(p)) => assert_eq!(p, "/surely/not/there/song.mp3"),
        other => panic!("unexpected: {:?}", other),
    }
    match prepare_conversion("/surely/not/there/song.mp3", "OGG", "high") {
        Err(ConvertError::UnsupportedFormat(f)) => assert_eq!(f, "ogg"),
        other => panic!("unexpected: {:?}", other),
    }
}

#[test]
fn convert_errors_read_as_the_encoder_reports() {
    assert_eq!(
        ConvertError::UnsupportedFormat("ogg".to_string()).message(),
        "Unsupported output format: ogg. Supported: [\"mp3\", \"flac\", \"wav\", \"aac\"]"
    );
    assert_eq!(
        ConvertError::MissingInput("a.mp3".to_string()).message(),
        "Input file does not exist: a.mp3"
    );
    assert_eq!(ConvertError::SameFormat.message(), "Input and output formats are the same");
    assert_eq!(ConvertError::SpawnFailed.message(), "Failed to spawn FFmpeg. Is it installed?");
    assert_eq!(ConvertError::WaitFailed.message(), "Failed to wait for FFmpeg");
    assert_eq!(
        ConvertError::EncoderFailed("a.mp3".to_string()).message(),
        "FFmpeg conversion failed for: a.mp3"
    );
    assert_eq!(
        ConvertError::MissingOutput("a.flac".to_string()).message(),
        "FFmpeg completed but output file was not created: a.flac"
    );
}

#[test]
fn a_run_is_judged_by_status_and_output() {
    let plan = plan_conversion("a.mp3", "flac", "high", true).unwrap();
    assert_eq!(conclude_conversion(&plan, true, true).unwrap(), "a.flac");
    match conclude_conversion(&plan, false, true) {
        Err(ConvertError::EncoderFailed(p)) => assert_eq!(p, "a.mp3"),
        other => panic!("unexpected: {:?}", other),
    }
    match conclude_conversion(&plan, true, false) {
        Err(ConvertError::MissingOutput(p)) => assert_eq!(p, "a.flac"),
        other => panic!("unexpected: {:?}", other),
    }
}

#[test]
fn encoder_lines_are_filtered() {
    assert_eq!(
        progress_message("  out_time=00:01:23.456\n"),
        Some("Progress: 00:01:23.456".to_string())
    );
    assert_eq!(progress_message("out_time="), Some("Progress: ".to_string()));
    assert_eq!(progress_message("frame=12"), None);
    assert_eq!(progress_message("x out_time=1"), None);
    assert_eq!(log_message("  Stream #0:0: Audio  "), Some("Stream #0:0: Audio".to_string()));
    assert_eq!(log_message("an error occurred"), Some("an error occurred".to_string()));
    assert_eq!(log_message("Warning: late"), Some("Warning: late".to_string()));
    assert_eq!(log_message("Output #0"), Some("Output #0".to_string()));
    assert_eq!(log_message("Error!"), Some("Error!".to_string()));
    assert_eq!(log_message("size=   1kB"), None);
    assert_eq!(log_message("   "), None);
    assert_eq!(log_message("warning: lower case is not passed on"), None);
}

#[test]
fn audio_files_are_told_by_their_extension() {
    assert!(is_audio_file("a/b/song.mp3"));
    assert!(is_audio_file("song.FLAC"));
    assert!(is_audio_file("song.m4a"));
    assert!(is_audio_file("song.Wav"));
    assert!(!is_audio_file("song.txt"));
    assert!(!is_audio_file("song"));
    assert!(!is_audio_file("dir.mp3/song"));
}
