use mushell::item::{normalize_host, Kind, SimpleItem};

fn item(kind: Kind, title: &str, video: Option<&str>, playlist: Option<&str>) -> SimpleItem {
    SimpleItem {
        kind,
        title: title.to_string(),
        video_id: video.map(|s| s.to_string()),
        playlist_id: playlist.map(|s| s.to_string()),
    }
}

#[test]
fn song_url_is_the_watch_address() {
    let song = item(Kind::Song, "a song", Some("abc123"), None);
    assert_eq!(song.url(), Some("https://www.youtube.com/watch?v=abc123".to_string()));
}

#[test]
fn playlist_url_is_the_playlist_address() {
    let list = item(Kind::Playlist, "a list", None, Some("PL1"));
    assert_eq!(list.url(), Some("https://www.youtube.com/playlist?list=PL1".to_string()));
}

#[test]
fn item_without_identifier_has_no_url() {
    let other = item(Kind::Other, "nothing", None, None);
    assert_eq!(other.url(), None);
    assert!(!other.is_playable());
}

#[test]
fn video_identifier_goes_before_playlist_identifier() {
    let both = item(Kind::Song, "both", Some("vid"), Some("PLx"));
    assert_eq!(both.url(), Some("https://www.youtube.com/watch?v=vid".to_string()));
    assert!(both.is_playable());
}

#[test]
fn empty_identifier_still_gives_a_url() {
    let song = item(Kind::Song, "", Some(""), None);
    assert_eq!(song.url(), Some("https://www.youtube.com/watch?v=".to_string()));
}

#[test]
fn duplicate_keeps_every_field() {
    let song = item(Kind::Song, "títle", Some("v1"), None);
    assert_eq!(song.duplicate(), song);
    let list = item(Kind::Playlist, "l", None, Some("p1"));
    assert_eq!(list.duplicate(), list);
}

#[test]
fn music_host_is_replaced_by_the_web_host() {
    assert_eq!(
        normalize_host("https://music.youtube.com/watch?v=abc"),
        "https://www.youtube.com/watch?v=abc"
    );
    assert_eq!(
        normalize_host("https://music.youtube.com/playlist?list=PL9"),
        "https://www.youtube.com/playlist?list=PL9"
    );
}

#[test]
fn web_host_and_other_addresses_stay_as_they_are() {
    assert_eq!(
        normalize_host("https://www.youtube.com/watch?v=abc"),
        "https://www.youtube.com/watch?v=abc"
    );
    assert_eq!(normalize_host("https://music.youtube.com/channel/x"), "https://music.youtube.com/channel/x");
    assert_eq!(normalize_host(""), "");
}

#[test]
fn normalizing_matches_two_replacements_of_the_standard_library() {
    let inputs = [
        "https://music.youtube.com/watch?v=1 https://music.youtube.com/playlist?list=2",
        "xhttps://music.youtube.com/watch?https://music.youtube.com/watch?",
        "https://music.youtube.com/watch",
        "ünïcödé https://music.youtube.com/playlist?é",
    ];
    for input in inputs {
        let expected = input
            .replace("https://music.youtube.com/watch?", "https://www.youtube.com/watch?")
            .replace("https://music.youtube.com/playlist?", "https://www.youtube.com/playlist?");
        assert_eq!(normalize_host(input), expected);
    }
}
