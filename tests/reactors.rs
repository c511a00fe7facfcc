use voicebot::play::NOT_IN_VOICE;
use voicebot::reactor::{
    Firing, Reactor, Registration, TrackOp, FADED_OUT, FULL_VOLUME, STOPPING_SONG, VOLUME_REDUCED,
};

#[test]
fn track_end_notifier_counts() {
    let r = Reactor::TrackEndNotifier { channel: 7 }.act(Firing::TracksEnded(3));
    assert_eq!(r.say.as_deref(), Some("Tracks ended: 3."));
    assert_eq!(r.op, TrackOp::Nothing);
    assert!(!r.cancel);
}

#[test]
fn resumer_resumes_and_cancels() {
    let mut reg = Registration::new(Reactor::SongResumer { guild: 1, channel: 2 });
    let r = reg.fire(Firing::Timer { session_present: true });
    assert_eq!(r.op, TrackOp::ResumeQueue);
    assert!(r.cancel);
    assert!(r.say.is_none());
    assert!(!reg.live());
    let again = reg.fire(Firing::Timer { session_present: true });
    assert_eq!(again.op, TrackOp::Nothing);
}

#[test]
fn resumer_without_session_reports() {
    let r = Reactor::SongResumer { guild: 1, channel: 2 }.act(Firing::Timer { session_present: false });
    assert_eq!(r.say.as_deref(), Some(NOT_IN_VOICE));
    assert_eq!(r.op, TrackOp::Nothing);
    assert!(!r.cancel);
}

#[test]
fn fader_halves_until_inaudible_then_stays_quiet() {
    let mut reg = Registration::new(Reactor::SongFader { channel: 5 });
    let mut volume = FULL_VOLUME;
    let mut seen = Vec::new();
    let mut stops = 0;
    for _ in 0..12 {
        let r = reg.fire(Firing::Tick { volume });
        match r.op {
            TrackOp::Fade { volume: v, stop } => {
                assert_eq!(v, volume / 2);
                assert!(v <= volume);
                if stop {
                    stops += 1;
                    assert_eq!(r.say.as_deref(), Some(STOPPING_SONG));
                    assert!(r.cancel);
                } else {
                    assert_eq!(r.say.as_deref(), Some(VOLUME_REDUCED));
                }
                seen.push(volume);
                volume = v;
            }
            TrackOp::Nothing => {
                assert!(r.say.is_none());
                assert!(!r.cancel);
            }
            TrackOp::ResumeQueue => panic!("a fader never resumes"),
        }
    }
    assert_eq!(stops, 1);
    assert_eq!(seen, vec![1_000_000, 500_000, 250_000, 125_000, 62_500, 31_250, 15_625, 7_812]);
    assert!(!reg.live());
}

#[test]
fn fade_end_notifier() {
    let r = Reactor::SongEndNotifier { channel: 1 }.act(Firing::TracksEnded(1));
    assert_eq!(r.say.as_deref(), Some(FADED_OUT));
}

#[test]
fn mismatched_firing_is_quiet() {
    let r = Reactor::SongFader { channel: 1 }.act(Firing::TracksEnded(1));
    assert!(r.say.is_none());
    assert_eq!(r.op, TrackOp::Nothing);
    let r = Reactor::TrackEndNotifier { channel: 1 }.act(Firing::Tick { volume: 3 });
    assert!(r.say.is_none());
}
