use voicebot::flow::{
    begin_play, begin_playlist, queued_card, Action, EnqueueFlow, Event, PlaylistListing, TrackInfo,
};
use voicebot::track::CALLER_NOT_IN_VOICE;
use voicebot::play::{
    Song, EMPTY_PLAYLIST, MISSING_QUERY, NOT_A_PLAYLIST, NOT_IN_VOICE, PREBUFFERING, SOURCE_ERROR,
};

fn info(title: &str) -> TrackInfo {
    TrackInfo { title: Some(title.to_string()), thumbnail: None, duration_ms: Some(200_000) }
}

fn count(actions: &[Action], pred: fn(&Action) -> bool) -> usize {
    actions.iter().filter(|a| pred(a)).count()
}

#[test]
fn empty_play_query_resolves_nothing() {
    assert_eq!(begin_play("", true, true).err(), Some(MISSING_QUERY));
    assert_eq!(begin_play("   ", true, true).err(), Some(MISSING_QUERY));
    assert_eq!(begin_play("", true, false).err(), Some(MISSING_QUERY));
}

#[test]
fn play_with_caller_outside_voice() {
    assert_eq!(begin_play("song", false, true).err(), Some(CALLER_NOT_IN_VOICE));
    assert_eq!(begin_play("", false, true).err(), Some(MISSING_QUERY));
    let ids = vec!["1".to_string()];
    assert_eq!(
        begin_playlist(PlaylistListing::Entries(ids), false, true).err(),
        Some(CALLER_NOT_IN_VOICE)
    );
}

#[test]
fn play_without_session() {
    assert_eq!(begin_play("song", true, false).err(), Some(NOT_IN_VOICE));
}

#[test]
fn play_link_on_empty_queue() {
    let (mut flow, actions) = begin_play("https://example.com/video", true, true).ok().unwrap();
    assert_eq!(actions.len(), 1);
    match &actions[0] {
        Action::Resolve(Song::Url(u)) => assert_eq!(u, "https://example.com/video"),
        _ => panic!("expected a resolution of the link"),
    }
    let actions = flow.step(Event::Resolved(info("Video")));
    assert_eq!(actions.len(), 1);
    assert!(matches!(actions[0], Action::Enqueue));
    let actions = flow.step(Event::Enqueued(1));
    assert_eq!(count(&actions, |a| matches!(a, Action::Pause)), 0);
    assert_eq!(count(&actions, |a| matches!(a, Action::ArmResumer)), 0);
    assert_eq!(actions.len(), 1);
    match &actions[0] {
        Action::ShowQueued(card) => {
            assert_eq!(card.title, "Video");
            assert_eq!(card.description, "Added song to queue, position `1`");
            assert_eq!(card.footer, "Duration: 00:03:20");
        }
        _ => panic!("expected the queued card"),
    }
    assert!(flow.is_finished());
}

#[test]
fn second_track_holds_playback_once() {
    let (mut flow, _) = begin_play("some search words", true, true).ok().unwrap();
    flow.step(Event::Resolved(info("Next")));
    let actions = flow.step(Event::Enqueued(2));
    assert_eq!(actions.len(), 4);
    assert!(matches!(actions[0], Action::Pause));
    match &actions[1] {
        Action::Say(t) => assert_eq!(t, PREBUFFERING),
        _ => panic!("expected the buffering notice"),
    }
    assert!(matches!(actions[2], Action::ArmResumer));
    assert!(matches!(actions[3], Action::ShowQueued(_)));
    assert_eq!(count(&actions, |a| matches!(a, Action::ArmResumer)), 1);
}

#[test]
fn third_track_does_not_pause() {
    let (mut flow, _) = begin_play("words", true, true).ok().unwrap();
    flow.step(Event::Resolved(info("Third")));
    let actions = flow.step(Event::Enqueued(3));
    assert_eq!(count(&actions, |a| matches!(a, Action::Pause)), 0);
    assert_eq!(count(&actions, |a| matches!(a, Action::ArmResumer)), 0);
}

#[test]
fn failed_resolution_reports_and_ends() {
    let (mut flow, _) = begin_play("words", true, true).ok().unwrap();
    let actions = flow.step(Event::ResolveFailed);
    assert_eq!(actions.len(), 1);
    match &actions[0] {
        Action::Say(t) => assert_eq!(t, SOURCE_ERROR),
        _ => panic!("expected the source error"),
    }
    assert!(flow.is_finished());
}

#[test]
fn unexpected_event_changes_nothing() {
    let (mut flow, _) = begin_play("words", true, true).ok().unwrap();
    assert!(flow.step(Event::Enqueued(1)).is_empty());
    assert!(matches!(flow.step(Event::Resolved(info("x")))[0], Action::Enqueue));
    assert!(flow.step(Event::ResolveFailed).is_empty());
}

#[test]
fn playlist_of_three_enqueues_in_order() {
    let ids = vec!["1".to_string(), "2".to_string(), "3".to_string()];
    let (mut flow, mut actions) = begin_playlist(PlaylistListing::Entries(ids), true, true).ok().unwrap();
    let mut resolved: Vec<String> = Vec::new();
    let mut enqueued = 0;
    let mut queue_len = 0;
    while !actions.is_empty() {
        let mut next = Vec::new();
        for a in actions {
            match a {
                Action::Resolve(Song::Url(u)) => {
                    resolved.push(u.clone());
                    next.extend(flow.step(Event::Resolved(info(&u))));
                }
                Action::Enqueue => {
                    enqueued += 1;
                    queue_len += 1;
                    next.extend(flow.step(Event::Enqueued(queue_len)));
                }
                Action::ShowQueued(_) => panic!("a playlist shows no card per track"),
                _ => {}
            }
        }
        actions = next;
    }
    assert_eq!(enqueued, 3);
    assert_eq!(
        resolved,
        vec![
            "https://youtube.com/watch?v=1".to_string(),
            "https://youtube.com/watch?v=2".to_string(),
            "https://youtube.com/watch?v=3".to_string(),
        ]
    );
    assert!(flow.is_finished());
}

#[test]
fn playlist_refusals() {
    assert_eq!(begin_playlist(PlaylistListing::NotPlaylist, true, true).err(), Some(NOT_A_PLAYLIST));
    assert_eq!(begin_playlist(PlaylistListing::NoEntries, true, true).err(), Some(EMPTY_PLAYLIST));
    let ids = vec!["1".to_string()];
    assert_eq!(begin_playlist(PlaylistListing::Entries(ids), true, false).err(), Some(NOT_IN_VOICE));
}

#[test]
fn empty_playlist_listing_does_nothing() {
    let (flow, actions) = begin_playlist(PlaylistListing::Entries(Vec::new()), true, true).ok().unwrap();
    assert!(actions.is_empty());
    assert!(flow.is_finished());
}

#[test]
fn empty_flow_is_finished() {
    let (flow, actions) = EnqueueFlow::start(Vec::new(), true);
    assert!(actions.is_empty());
    assert!(flow.is_finished());
}

#[test]
fn queued_card_defaults() {
    let card = queued_card(&TrackInfo { title: None, thumbnail: None, duration_ms: None }, 12);
    assert_eq!(card.title, "<no title> (how?????????)");
    assert!(card.thumbnail.starts_with("https://"));
    assert_eq!(card.description, "Added song to queue, position `12`");
    assert_eq!(card.footer, "Duration: 00:00:00");
}
