use voicebot::command::{arguments, command_for, parse_invocation, query_of, Command};
use voicebot::play::{
    fade_link, is_playlist_query, playlist_query, song_for_query, watch_urls, Song,
    INVALID_FADE_URL, MISSING_FADE_URL, MISSING_PLAYLIST,
};
use voicebot::text::{find_char, has_prefix, has_substring, join_words, push_decimal, same_text};

#[test]
fn invocation_splits_name_and_arguments() {
    let inv = parse_invocation("~play https://example.com/video extra").unwrap();
    assert_eq!(inv.command, Command::Play);
    assert_eq!(inv.arguments, "https://example.com/video extra");
}

#[test]
fn invocation_without_arguments() {
    let inv = parse_invocation("~np").unwrap();
    assert_eq!(inv.command, Command::NowPlaying);
    assert_eq!(inv.arguments, "");
}

#[test]
fn invocation_needs_prefix_and_known_name() {
    assert!(parse_invocation("!play x").is_none());
    assert!(parse_invocation("~dance").is_none());
    assert!(parse_invocation("").is_none());
    assert!(parse_invocation("~").is_none());
}

#[test]
fn command_aliases() {
    assert_eq!(command_for("loop"), Some(Command::SongLoop));
    assert_eq!(command_for("songloop"), Some(Command::SongLoop));
    assert_eq!(command_for("np"), Some(Command::NowPlaying));
    assert_eq!(command_for("nowplaying"), Some(Command::NowPlaying));
    assert_eq!(command_for("play_playlist"), Some(Command::PlayPlaylist));
    assert_eq!(command_for("play_fade"), Some(Command::PlayFade));
    assert_eq!(command_for("join"), Some(Command::Join));
    assert_eq!(command_for("leave"), Some(Command::Leave));
    assert_eq!(command_for("skip"), Some(Command::Skip));
    assert_eq!(command_for("stop"), Some(Command::Stop));
    assert_eq!(command_for("ping"), Some(Command::Ping));
    assert_eq!(command_for("Play"), None);
}

#[test]
fn arguments_skip_empty_ones() {
    assert_eq!(arguments("a  b c"), vec!["a".to_string(), "b".to_string(), "c".to_string()]);
    assert!(arguments("").is_empty());
}

#[test]
fn query_joins_arguments_with_single_spaces() {
    assert_eq!(query_of("never   gonna give"), "never gonna give");
    assert_eq!(query_of(""), "");
    assert_eq!(query_of("   "), "");
}

#[test]
fn link_query_keeps_first_word() {
    match song_for_query("https://example.com/video") {
        Song::Url(u) => assert_eq!(u, "https://example.com/video"),
        Song::Search(_) => panic!("expected a link"),
    }
    match song_for_query("http://a b") {
        Song::Url(u) => assert_eq!(u, "http://a"),
        Song::Search(_) => panic!("expected a link"),
    }
}

#[test]
fn plain_query_is_a_search() {
    match song_for_query("never gonna give you up") {
        Song::Search(s) => assert_eq!(s, "never gonna give you up"),
        Song::Url(_) => panic!("expected a search"),
    }
}

#[test]
fn playlist_heuristic() {
    assert!(is_playlist_query("https://example.com/playlist?list=1"));
    assert!(is_playlist_query("my playlist"));
    assert!(is_playlist_query("http://example.com/watch"));
    assert!(!is_playlist_query("hello world"));
    assert!(!is_playlist_query("ftp://example.com/list"));
    assert!(!is_playlist_query(""));
}

#[test]
fn playlist_query_refused_before_resolution() {
    assert_eq!(playlist_query("just some words").unwrap_err(), MISSING_PLAYLIST);
    assert_eq!(playlist_query("").unwrap_err(), MISSING_PLAYLIST);
    assert_eq!(
        playlist_query("https://example.com/playlist?list=1").unwrap(),
        "https://example.com/playlist?list=1"
    );
}

#[test]
fn fade_link_checks() {
    assert_eq!(fade_link("").unwrap_err(), MISSING_FADE_URL);
    assert_eq!(fade_link("ftp://x").unwrap_err(), INVALID_FADE_URL);
    assert_eq!(fade_link("https://a.b/c more").unwrap(), "https://a.b/c");
}

#[test]
fn watch_urls_in_order() {
    let ids = vec!["a".to_string(), "b".to_string()];
    assert_eq!(
        watch_urls(&ids),
        vec!["https://youtube.com/watch?v=a".to_string(), "https://youtube.com/watch?v=b".to_string()]
    );
}

#[test]
fn text_helpers() {
    assert!(has_prefix("https://x", "http"));
    assert!(!has_prefix("htt", "http"));
    assert!(has_substring("abcplaylistdef", "playlist"));
    assert!(!has_substring("playlis", "playlist"));
    assert!(has_substring("abc", ""));
    assert_eq!(find_char("ab cd e", ' '), Some(2));
    assert_eq!(find_char("abcd", ' '), None);
    assert!(same_text("np", "np"));
    assert!(!same_text("np", "npx"));
    assert_eq!(join_words(&vec!["x".to_string(), "y".to_string()]), "x y");
}

#[test]
fn decimal_rendering() {
    let mut s = String::from("n=");
    push_decimal(&mut s, 0);
    assert_eq!(s, "n=0");
    let mut t = String::new();
    push_decimal(&mut t, 1234567890);
    assert_eq!(t, "1234567890");
}
