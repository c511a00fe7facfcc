use voicebot::clock::{clock, duration_label, progress_bar, progress_pointer};
use voicebot::flow::TrackInfo;
use voicebot::track::{
    loop_choice, loop_outcome, now_playing, skipped_message, TrackFailure, ALREADY_FINISHED,
    FINISHED_NOTHING_LEFT, LOOP_CHANGE_FAILED, POSITION_READ_FAILED, LOOP_DISABLED, LOOP_ENABLED, STATE_READ_FAILED,
};

#[test]
fn clock_pads_each_field() {
    assert_eq!(clock(3600), "01:00:00");
    assert_eq!(clock(28309), "07:51:49");
    assert_eq!(clock(0), "00:00:00");
    assert_eq!(clock(360_000), "100:00:00");
}

#[test]
fn duration_label_reads_position_over_length() {
    assert_eq!(duration_label(65, 200), "[00:01:05/00:03:20]");
}

#[test]
fn progress_pointer_rounds_up() {
    assert_eq!(progress_pointer(0, 1000), 0);
    assert_eq!(progress_pointer(1, 1000), 1);
    assert_eq!(progress_pointer(500, 1000), 7);
    assert_eq!(progress_pointer(1000, 1000), 13);
    assert_eq!(progress_pointer(5000, 1000), 13);
    assert_eq!(progress_pointer(10, 0), 0);
}

#[test]
fn progress_bar_halfway() {
    let seven = "▬".repeat(7);
    assert_eq!(
        progress_bar(500, 1000),
        format!(":arrow_forward: {seven}:radio_button:{seven} :loud_sound:")
    );
}

#[test]
fn progress_bar_at_start() {
    assert_eq!(
        progress_bar(0, 1000),
        format!(":arrow_forward: {}:radio_button:{} :loud_sound:", "▬".repeat(1), "▬".repeat(14))
    );
}

#[test]
fn loop_toggles_state() {
    assert_eq!(loop_choice(Ok(false)), Ok(true));
    assert_eq!(loop_choice(Ok(true)), Ok(false));
    assert_eq!(loop_outcome(true, Ok(())), LOOP_ENABLED);
    assert_eq!(loop_outcome(false, Ok(())), LOOP_DISABLED);
}

#[test]
fn loop_on_finished_track() {
    assert_eq!(ALREADY_FINISHED, "The song is already finished, i beg you, ᵖˡᵉᵃˢᵉ ᵠᵘᵉᵘᵉ ᵃⁿᵒᵗʰᵉʳ ᵒⁿᵉ");
    assert_eq!(loop_choice(Err(TrackFailure::Finished)), Err(ALREADY_FINISHED));
    assert_eq!(loop_outcome(true, Err(TrackFailure::Finished)), ALREADY_FINISHED);
    assert_eq!(loop_outcome(false, Err(TrackFailure::Finished)), ALREADY_FINISHED);
    assert_ne!(ALREADY_FINISHED, STATE_READ_FAILED);
    assert_ne!(ALREADY_FINISHED, LOOP_CHANGE_FAILED);
}

#[test]
fn loop_on_other_failure() {
    assert_eq!(loop_choice(Err(TrackFailure::Other)), Err(STATE_READ_FAILED));
    assert_eq!(loop_outcome(true, Err(TrackFailure::Other)), LOOP_CHANGE_FAILED);
}

#[test]
fn now_playing_card() {
    let info = TrackInfo {
        title: Some("Song".to_string()),
        thumbnail: Some("https://img".to_string()),
        duration_ms: Some(200_000),
    };
    let card = now_playing(&info, Ok(65_000)).ok().unwrap();
    assert_eq!(card.title, "Song");
    assert_eq!(card.thumbnail, "https://img");
    assert_eq!(card.footer, "Duration: [00:01:05/00:03:20]");
    assert_eq!(card.description, progress_bar(65_000, 200_000));
}

#[test]
fn now_playing_failures() {
    let info = TrackInfo { title: None, thumbnail: None, duration_ms: None };
    assert_eq!(now_playing(&info, Err(TrackFailure::Finished)).err(), Some(FINISHED_NOTHING_LEFT));
    assert_eq!(now_playing(&info, Err(TrackFailure::Other)).err(), Some(POSITION_READ_FAILED));
}

#[test]
fn skip_reply() {
    assert_eq!(skipped_message(2), "Song skipped: 2 in queue.");
    assert_eq!(skipped_message(0), "Song skipped: 0 in queue.");
}
