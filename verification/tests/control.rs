use mushell::command::{Command, SeekMode};
use mushell::control::{
    Announcement, ControlLoop, Key, LoopAction, LoopEvent, LoopPhase, Occasion, POLL_SLICE_MILLIS,
    SEEK_STEP, VOLUME_STEP,
};
use mushell::extract::parse_search_items;
use mushell::item::{Kind, SimpleItem};
use mushell::json::Json;
use mushell::playlist::PlaylistCursor;

fn song(n: usize) -> SimpleItem {
    SimpleItem {
        kind: Kind::Song,
        title: format!("song {}", n),
        video_id: Some(format!("v{}", n)),
        playlist_id: None,
    }
}

fn running(count: usize) -> ControlLoop {
    let found: Vec<SimpleItem> = (0..count).map(song).collect();
    ControlLoop::new(PlaylistCursor::build(&found).unwrap())
}

fn press(c: char) -> LoopEvent {
    LoopEvent::Key { key: Key::Char(c), pressed: true }
}

fn send(command: Command) -> LoopAction {
    LoopAction::Send { command, announce: None }
}

fn load(n: usize, occasion: Occasion) -> LoopAction {
    LoopAction::Send {
        command: Command::load(format!("https://www.youtube.com/watch?v=v{}", n)),
        announce: Some(Announcement { occasion, title: format!("song {}", n) }),
    }
}

#[test]
fn the_loop_constants_are_as_documented() {
    assert_eq!(POLL_SLICE_MILLIS, 250);
    assert_eq!(VOLUME_STEP, 5);
    assert_eq!(SEEK_STEP, 5);
}

#[test]
fn a_new_loop_runs_and_opens_with_the_first_item() {
    let state = running(3);
    assert_eq!(state.phase(), LoopPhase::Running);
    assert_eq!(state.cursor().index(), 0);
    assert_eq!(state.opening(), load(0, Occasion::Start));
}

#[test]
fn the_opening_address_is_on_the_web_host() {
    let found = vec![SimpleItem {
        kind: Kind::Song,
        title: "t".to_string(),
        video_id: Some("https://music.youtube.com/watch?x".to_string()),
        playlist_id: None,
    }];
    let state = ControlLoop::new(PlaylistCursor::build(&found).unwrap());
    assert_eq!(
        state.opening(),
        LoopAction::Send {
            command: Command::load(
                "https://www.youtube.com/watch?v=https://www.youtube.com/watch?x".to_string()
            ),
            announce: Some(Announcement { occasion: Occasion::Start, title: "t".to_string() }),
        }
    );
}

fn music_host_song(title: &str) -> SimpleItem {
    SimpleItem {
        kind: Kind::Song,
        title: title.to_string(),
        video_id: Some("https://music.youtube.com/watch?".to_string()),
        playlist_id: None,
    }
}

fn music_host_list(title: &str) -> SimpleItem {
    SimpleItem {
        kind: Kind::Playlist,
        title: title.to_string(),
        video_id: None,
        playlist_id: Some("https://music.youtube.com/playlist?".to_string()),
    }
}

#[test]
fn next_sends_the_address_as_built_even_when_the_id_holds_a_music_host_address() {
    let found = vec![song(0), music_host_song("odd song"), music_host_list("odd list")];
    let mut state = ControlLoop::new(PlaylistCursor::build(&found).unwrap());
    assert_eq!(
        state.step(press('n')),
        LoopAction::Send {
            command: Command::load(
                "https://www.youtube.com/watch?v=https://music.youtube.com/watch?".to_string()
            ),
            announce: Some(Announcement {
                occasion: Occasion::Next,
                title: "odd song".to_string()
            }),
        }
    );
    assert_eq!(state.cursor().index(), 1);
    assert_eq!(
        state.step(press('n')),
        LoopAction::Send {
            command: Command::load(
                "https://www.youtube.com/playlist?list=https://music.youtube.com/playlist?"
                    .to_string()
            ),
            announce: Some(Announcement {
                occasion: Occasion::Next,
                title: "odd list".to_string()
            }),
        }
    );
    assert_eq!(state.cursor().index(), 2);
}

#[test]
fn prev_sends_the_address_as_built_even_when_the_id_holds_a_music_host_address() {
    let found = vec![music_host_list("odd list"), music_host_song("odd song"), song(2)];
    let mut state = ControlLoop::new(PlaylistCursor::build(&found).unwrap());
    state.step(press('n'));
    state.step(press('n'));
    assert_eq!(state.cursor().index(), 2);
    assert_eq!(
        state.step(press('p')),
        LoopAction::Send {
            command: Command::load(
                "https://www.youtube.com/watch?v=https://music.youtube.com/watch?".to_string()
            ),
            announce: Some(Announcement {
                occasion: Occasion::Prev,
                title: "odd song".to_string()
            }),
        }
    );
    assert_eq!(state.cursor().index(), 1);
    assert_eq!(
        state.step(press('p')),
        LoopAction::Send {
            command: Command::load(
                "https://www.youtube.com/playlist?list=https://music.youtube.com/playlist?"
                    .to_string()
            ),
            announce: Some(Announcement {
                occasion: Occasion::Prev,
                title: "odd list".to_string()
            }),
        }
    );
    assert_eq!(state.cursor().index(), 0);
}

#[test]
fn a_stepped_address_is_the_url_of_the_item() {
    let found = vec![song(0), music_host_song("odd song")];
    let expected = found[1].url().unwrap();
    let mut state = ControlLoop::new(PlaylistCursor::build(&found).unwrap());
    match state.step(press('n')) {
        LoopAction::Send { command, .. } => assert_eq!(command, Command::load(expected)),
        other => panic!("expected a command, got {:?}", other),
    }
}

#[test]
fn quit_sends_quit_and_ends_the_loop() {
    let mut state = running(2);
    assert_eq!(state.step(press('q')), send(Command::quit()));
    assert_eq!(state.phase(), LoopPhase::Terminated);
}

#[test]
fn a_failed_quit_still_ends_the_loop() {
    let mut state = running(2);
    state.step(press('q'));
    assert_eq!(state.step(LoopEvent::DeliveryFailed), LoopAction::Finish);
    assert_eq!(state.phase(), LoopPhase::Terminated);
    let mut other = running(2);
    other.step(press('q'));
    assert_eq!(other.step(LoopEvent::Delivered), LoopAction::Finish);
}

#[test]
fn a_failed_command_does_not_end_the_loop() {
    let mut state = running(2);
    assert_eq!(state.step(press('+')), send(Command::add_volume(5)));
    assert_eq!(state.step(LoopEvent::DeliveryFailed), LoopAction::Poll);
    assert_eq!(state.phase(), LoopPhase::Running);
    assert_eq!(state.step(press(' ')), send(Command::toggle_pause()));
    assert_eq!(state.step(LoopEvent::Delivered), LoopAction::Poll);
    assert_eq!(state.phase(), LoopPhase::Running);
}

#[test]
fn transport_keys_map_to_their_commands() {
    let mut state = running(2);
    assert_eq!(state.step(press(' ')), send(Command::toggle_pause()));
    assert_eq!(state.step(press('+')), send(Command::add_volume(5)));
    assert_eq!(state.step(press('-')), send(Command::add_volume(-5)));
    assert_eq!(state.step(press('r')), send(Command::seek(0, SeekMode::Absolute)));
    assert_eq!(
        state.step(LoopEvent::Key { key: Key::Right, pressed: true }),
        send(Command::seek(5, SeekMode::Relative))
    );
    assert_eq!(
        state.step(LoopEvent::Key { key: Key::Left, pressed: true }),
        send(Command::seek(-5, SeekMode::Relative))
    );
    assert_eq!(state.phase(), LoopPhase::Running);
    assert_eq!(state.cursor().index(), 0);
}

#[test]
fn next_loads_the_following_item_and_announces_it() {
    let mut state = running(3);
    assert_eq!(state.step(press('n')), load(1, Occasion::Next));
    assert_eq!(state.cursor().index(), 1);
    assert_eq!(state.step(press('n')), load(2, Occasion::Next));
    assert_eq!(state.cursor().index(), 2);
}

#[test]
fn next_on_the_last_item_does_nothing() {
    let mut state = running(2);
    state.step(press('n'));
    assert_eq!(state.step(press('n')), LoopAction::Poll);
    assert_eq!(state.cursor().index(), 1);
    assert_eq!(state.phase(), LoopPhase::Running);
}

#[test]
fn prev_loads_the_preceding_item_and_announces_it() {
    let mut state = running(3);
    state.step(press('n'));
    state.step(press('n'));
    assert_eq!(state.step(press('p')), load(1, Occasion::Prev));
    assert_eq!(state.cursor().index(), 1);
    assert_eq!(state.step(press('p')), load(0, Occasion::Prev));
    assert_eq!(state.cursor().index(), 0);
}

#[test]
fn prev_on_the_first_item_does_nothing() {
    let mut state = running(2);
    assert_eq!(state.step(press('p')), LoopAction::Poll);
    assert_eq!(state.cursor().index(), 0);
}

#[test]
fn other_keys_are_ignored() {
    let mut state = running(2);
    for c in ['x', 'Q', 'N', 'P', 'R', '0', '\n', 'é'] {
        assert_eq!(state.step(press(c)), LoopAction::Poll);
    }
    assert_eq!(state.step(LoopEvent::Key { key: Key::Other, pressed: true }), LoopAction::Poll);
    assert_eq!(state.phase(), LoopPhase::Running);
    assert_eq!(state.cursor().index(), 0);
}

#[test]
fn releases_and_repeats_are_ignored() {
    let mut state = running(2);
    for key in [Key::Char('q'), Key::Char('n'), Key::Char('+'), Key::Left, Key::Right] {
        assert_eq!(state.step(LoopEvent::Key { key, pressed: false }), LoopAction::Poll);
    }
    assert_eq!(state.phase(), LoopPhase::Running);
    assert_eq!(state.cursor().index(), 0);
}

#[test]
fn a_quiet_slice_polls_again() {
    let mut state = running(2);
    assert_eq!(state.step(LoopEvent::Quiet), LoopAction::Poll);
    assert_eq!(state.step(LoopEvent::OtherInput), LoopAction::Poll);
    assert_eq!(state.phase(), LoopPhase::Running);
}

#[test]
fn failing_input_is_fatal() {
    let mut state = running(2);
    assert_eq!(state.step(LoopEvent::InputFailed), LoopAction::Abort);
    assert_eq!(state.phase(), LoopPhase::Terminated);
}

#[test]
fn the_end_of_the_player_ends_the_loop() {
    let mut state = running(2);
    assert_eq!(state.step(LoopEvent::PlayerExited), LoopAction::Finish);
    assert_eq!(state.phase(), LoopPhase::Terminated);
}

#[test]
fn a_terminated_loop_dispatches_nothing_more() {
    let mut state = running(3);
    state.step(press('q'));
    for event in [
        press('n'),
        press('+'),
        press('q'),
        LoopEvent::Quiet,
        LoopEvent::InputFailed,
        LoopEvent::PlayerExited,
    ] {
        assert_eq!(state.step(event), LoopAction::Finish);
    }
    assert_eq!(state.cursor().index(), 0);
    assert_eq!(state.phase(), LoopPhase::Terminated);
}

#[test]
fn announcements_read_as_shown() {
    let title = "My Song".to_string();
    assert_eq!(
        Announcement { occasion: Occasion::Start, title: title.clone() }.text(),
        "▶ Playing:My Song"
    );
    assert_eq!(
        Announcement { occasion: Occasion::Next, title: title.clone() }.text(),
        "»» Next：My Song"
    );
    assert_eq!(Announcement { occasion: Occasion::Prev, title }.text(), "⏮ Prev：My Song");
}

fn text(s: &str) -> Json {
    Json::Text(s.to_string())
}

fn object(members: Vec<(&str, Json)>) -> Json {
    Json::Object(members.into_iter().map(|(name, value)| (name.to_string(), value)).collect())
}

fn wrapped(names: &[&str], inner: Json) -> Json {
    names.iter().rev().fold(inner, |acc, name| object(vec![(*name, acc)]))
}

fn entry_with_overlay(endpoint: &str, key: &str, id: &str, title: &str) -> Json {
    let target = wrapped(&[endpoint, key], text(id));
    let overlay = wrapped(
        &["musicItemThumbnailOverlayRenderer", "content", "musicPlayButtonRenderer", "playNavigationEndpoint"],
        target,
    );
    let runs = Json::Array(vec![object(vec![("text", text(title))])]);
    let columns = Json::Array(vec![wrapped(
        &["musicResponsiveListItemFlexColumnRenderer", "text", "runs"],
        runs,
    )]);
    object(vec![(
        "musicResponsiveListItemRenderer",
        object(vec![("flexColumns", columns), ("overlay", overlay)]),
    )])
}

fn answer(sections: Vec<Json>) -> Json {
    let tab = wrapped(
        &["tabRenderer", "content", "sectionListRenderer", "contents"],
        Json::Array(sections),
    );
    wrapped(&["contents", "tabbedSearchResultsRenderer", "tabs"], Json::Array(vec![tab]))
}

#[test]
fn from_a_search_answer_to_the_next_track() {
    let shelf = wrapped(
        &["musicShelfRenderer", "contents"],
        Json::Array(vec![
            entry_with_overlay("watchPlaylistEndpoint", "playlistId", "PL1", "test list"),
            entry_with_overlay("watchEndpoint", "videoId", "abc123", "test song"),
        ]),
    );
    let found = parse_search_items(&answer(vec![shelf]));
    assert_eq!(found.len(), 2);
    assert_eq!(found[0].kind, Kind::Playlist);
    assert_eq!(found[1].kind, Kind::Song);
    assert_eq!(found[0].title, "test list");
    assert_eq!(found[1].title, "test song");

    let cursor = PlaylistCursor::build(&found).unwrap();
    assert_eq!(cursor.len(), 2);
    let mut state = ControlLoop::new(cursor);
    assert_eq!(
        state.opening(),
        LoopAction::Send {
            command: Command::load("https://www.youtube.com/playlist?list=PL1".to_string()),
            announce: Some(Announcement {
                occasion: Occasion::Start,
                title: "test list".to_string()
            }),
        }
    );
    assert_eq!(state.cursor().index(), 0);
    let action = state.step(press('n'));
    assert_eq!(state.cursor().index(), 1);
    match action {
        LoopAction::Send { command, announce } => {
            assert_eq!(command.name, "loadfile");
            assert_eq!(
                command.to_line().unwrap(),
                "{\"command\":[\"loadfile\",\"https://www.youtube.com/watch?v=abc123\",\"replace\"]}\n"
            );
            assert_eq!(announce.unwrap().text(), "»» Next：test song");
        }
        other => panic!("expected a command, got {:?}", other),
    }
}

#[test]
fn an_answer_without_shelves_gives_nothing_to_play() {
    let found = parse_search_items(&answer(vec![]));
    assert!(found.is_empty());
    assert!(PlaylistCursor::build(&found).is_none());
}
