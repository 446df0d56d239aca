use rustwav::cli::{Cli, PortableConfig};
use rustwav::file_utils::{
    build_filename, m3u_file_name, m3u_text, relative_components, sanitize_filename,
    sanitize_filename_portable, sanitize_filename_with_len,
};
use rustwav::paths::{extension, join, with_extension, with_file_name};

#[test]
fn safe_characters_stay() {
    assert_eq!(sanitize_filename("Abc xyz-09_.()"), "Abc xyz-09_.()");
}

#[test]
fn reserved_and_foreign_characters_become_underscores() {
    assert_eq!(sanitize_filename("AC/DC: Back?"), "AC_DC_ Back_");
    assert_eq!(sanitize_filename("a\\b%c*d|e\"f<g>h"), "a_b_c_d_e_f_g_h");
    assert_eq!(sanitize_filename("tab\there\nnew\rline"), "tab_here_new_line");
    assert_eq!(sanitize_filename("Sigur R\u{f3}s"), "Sigur R_s");
    assert_eq!(sanitize_filename("bell\u{7}del\u{7f}"), "bell_del_");
    assert_eq!(sanitize_filename("mix & match + more!"), "mix & match + more!");
}

#[test]
fn names_are_trimmed_then_clipped() {
    assert_eq!(sanitize_filename("   padded   "), "padded");
    assert_eq!(sanitize_filename_with_len("  abcdef  ", 3), "abc");
    assert_eq!(sanitize_filename_with_len("abc", 3), "abc");
    assert_eq!(sanitize_filename_with_len("abc", 0), "");
    assert_eq!(sanitize_filename_with_len("", 5), "");
    assert_eq!(sanitize_filename_with_len("   ", 5), "");
    // A newline at the end is an underscore by the time the name is trimmed.
    assert_eq!(sanitize_filename("name\n"), "name_");
    let long = "x".repeat(150);
    assert_eq!(sanitize_filename(&long), "x".repeat(100));
}

#[test]
fn portable_names_keep_letters_digits_hyphens_and_underscores() {
    assert_eq!(sanitize_filename_portable("Hello World", 64), "Hello_World");
    assert_eq!(sanitize_filename_portable("AC/DC", 64), "ACDC");
    assert_eq!(sanitize_filename_portable("  a   b  ", 64), "a_b");
    assert_eq!(sanitize_filename_portable("a _ _ b", 64), "a_b");
    assert_eq!(sanitize_filename_portable("__x__", 64), "x");
    assert_eq!(sanitize_filename_portable("caf\u{e9} - t\u{ea}te", 64), "caf_-_tte");
    assert_eq!(sanitize_filename_portable("!!!", 64), "");
    assert_eq!(sanitize_filename_portable("ab_cd", 3), "ab_");
    assert_eq!(sanitize_filename_portable("abcdef", 0), "");
}

#[test]
fn file_names_for_both_profiles() {
    let normal = PortableConfig::for_mode(false);
    assert_eq!(
        build_filename("Daft Punk", "One More Time", "mp3", &normal),
        "Daft Punk - One More Time.mp3"
    );
    assert_eq!(build_filename("AC/DC", "T.N.T.", "flac", &normal), "AC_DC - T.N.T..flac");
    let portable = PortableConfig::for_mode(true);
    assert_eq!(
        build_filename("Daft Punk", "One More Time", "mp3", &portable),
        "Daft_Punk_-_One_More_Time.mp3"
    );
    // The artist is clipped to 20 characters, the title to 64 - 25 = 39.
    assert_eq!(
        build_filename(
            "An Artist With A Very Long Name",
            "A Title That Goes On And On And On Beyond All Reason",
            "mp3",
            &portable
        ),
        "An_Artist_With_A_Ver_-_A_Title_That_Goes_On_And_On_And_On_Beyo.mp3"
    );
}

#[test]
fn profiles_hold_the_limits_of_each_mode() {
    let on = PortableConfig::for_mode(true);
    assert!(on.enabled);
    assert_eq!(on.max_cover_dim, 128);
    assert_eq!(on.max_cover_bytes, 64 * 1024);
    assert_eq!(on.max_filename_len, 64);
    let off = PortableConfig::from_cli(&Cli { command: None, portable: false });
    assert!(!off.enabled);
    assert_eq!(off.max_cover_dim, 500);
    assert_eq!(off.max_cover_bytes, 300 * 1024);
    assert_eq!(off.max_filename_len, 100);
    assert_eq!(PortableConfig::from_cli(&Cli { command: None, portable: true }), on);
}

#[test]
fn paths_are_joined_with_one_slash() {
    assert_eq!(join("data/music", "Artist"), "data/music/Artist");
    assert_eq!(join("data/music/", "Artist"), "data/music/Artist");
    assert_eq!(join("", "Artist"), "Artist");
    assert_eq!(join("data/music", "/abs"), "/abs");
    assert_eq!(join("data/music", ""), "data/music/");
}

#[test]
fn extensions_are_read_and_replaced() {
    assert_eq!(extension("a/b/song.mp3"), Some("mp3".to_string()));
    assert_eq!(extension("a/b.d/song"), None);
    assert_eq!(extension("a/.profile"), None);
    assert_eq!(extension("a/.."), None);
    assert_eq!(extension("song."), Some("".to_string()));
    assert_eq!(with_extension("a/b/song.mp3", "flac"), "a/b/song.flac");
    assert_eq!(with_extension("a/b/song", "flac"), "a/b/song.flac");
    assert_eq!(with_extension("a/b/song.tar.gz", "zip"), "a/b/song.tar.zip");
    assert_eq!(with_extension("a/b/song.mp3", ""), "a/b/song");
    assert_eq!(with_extension("a/.profile", "txt"), "a/.profile.txt");
    assert_eq!(with_extension("a/b/", "txt"), "a/b/");
    assert_eq!(with_extension("a/..", "txt"), "a/..");
    assert_eq!(with_file_name("a/b/song.mp3", "temp_cover.jpg"), "a/b/temp_cover.jpg");
    assert_eq!(with_file_name("song.mp3", "temp_cover.jpg"), "temp_cover.jpg");
}

fn parts(items: &[&str]) -> Vec<String> {
    items.iter().map(|s| s.to_string()).collect()
}

#[test]
fn the_way_between_two_places_goes_up_then_down() {
    assert_eq!(
        relative_components(
            &parts(&["/", "data", "playlists"]),
            &parts(&["/", "data", "music", "A", "B", "s.mp3"])
        ),
        parts(&["..", "music", "A", "B", "s.mp3"])
    );
    assert_eq!(
        relative_components(&parts(&["/", "a"]), &parts(&["/", "a", "s.mp3"])),
        parts(&["s.mp3"])
    );
    assert_eq!(
        relative_components(&parts(&["x", "y"]), &parts(&["z"])),
        parts(&["..", "..", "z"])
    );
    assert_eq!(relative_components(&parts(&[]), &parts(&[])), parts(&[]));
}

#[test]
fn playlist_file_has_a_heading_and_one_line_per_track() {
    assert_eq!(m3u_text(&parts(&[])), "#EXTM3U\n");
    assert_eq!(
        m3u_text(&parts(&["../music/a.mp3", "../music/b.mp3"])),
        "#EXTM3U\n../music/a.mp3\n../music/b.mp3\n"
    );
    assert_eq!(m3u_file_name("Road: Trip"), "Road_ Trip.m3u");
}
