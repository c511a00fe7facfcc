//! Reactors: small handlers that the voice engine calls when a registered
//! event occurs. Each variant carries only what it needs; a registration
//! stays live until its reactor asks to be cancelled.
use vstd::prelude::*;
use crate::play::NOT_IN_VOICE;
use crate::text::{decimal, push_decimal};

verus! {

/// Volume as the engine's gain in millionths: full volume.
pub const FULL_VOLUME: u64 = 1_000_000;

/// Volume below which a fading track is stopped (a gain of one hundredth).
pub const FADE_EPSILON: u64 = 10_000;

/// Seconds between two ticks of the fader.
pub const FADE_PERIOD_SECS: u64 = 5;

/// Seconds before the fader's first tick.
pub const FADE_DELAY_SECS: u64 = 7;

/// Seconds that playback is held while the next track buffers.
pub const RESUME_DELAY_SECS: u64 = 15;

/// Said at each tick that lowers the volume.
pub const VOLUME_REDUCED: &'static str = "Volume reduced.";

/// Said at the tick that stops the track.
pub const STOPPING_SONG: &'static str = "Stopping song...";

/// Said when a faded track has ended.
pub const FADED_OUT: &'static str = "Song faded out completely!";

/// A handler registered with the voice engine.
#[derive(Clone, Copy, Debug, PartialEq, Eq, Structural)]
pub enum Reactor {
    /// For the whole session, at each track end: reports how many ended.
    TrackEndNotifier { channel: u64 },
    /// For the whole session, once after the buffering window: resumes the
    /// queue of the session of `guild`.
    SongResumer { guild: u64, channel: u64 },
    /// For one track, periodically: halves its volume, and stops it once it
    /// can no longer be heard.
    SongFader { channel: u64 },
    /// For one track, at its end: says that it faded out.
    SongEndNotifier { channel: u64 },
}

/// What the engine reports when it calls a reactor.
#[derive(Clone, Copy, Debug, PartialEq, Eq, Structural)]
pub enum Firing {
    /// These many tracks ended.
    TracksEnded(usize),
    /// A delay ran out; whether the session it was armed for still exists.
    Timer { session_present: bool },
    /// A periodic tick on a track playing at this volume.
    Tick { volume: u64 },
}

/// What a reactor does to the voice session.
#[derive(Clone, Copy, Debug, PartialEq, Eq, Structural)]
pub enum TrackOp {
    Nothing,
    /// Resume the session's queue.
    ResumeQueue,
    /// Set the track's volume, then stop the track if `stop`.
    Fade { volume: u64, stop: bool },
}

/// A reactor's answer: what to say, what to do, and whether to cancel its
/// registration.
pub struct Reaction {
    pub say: Option<String>,
    pub op: TrackOp,
    pub cancel: bool,
}

/// A reaction as characters.
pub struct ReactionView {
    pub say: Option<Seq<char>>,
    pub op: TrackOp,
    pub cancel: bool,
}

impl View for Reaction {
    type V = ReactionView;

    open spec fn view(&self) -> ReactionView {
        ReactionView {
            say: match self.say {
                Some(s) => Some(s@),
                None => None,
            },
            op: self.op,
            cancel: self.cancel,
        }
    }
}

/// Saying and doing nothing, and staying registered.
pub open spec fn quiet() -> ReactionView {
    ReactionView { say: None, op: TrackOp::Nothing, cancel: false }
}

/// The fader's tick on a track at `volume`: halve it, and once it was under
/// the threshold stop the track and cancel.
pub open spec fn fade_reaction(volume: nat) -> ReactionView {
    let stop = volume < FADE_EPSILON;
    ReactionView {
        say: Some(
            if stop {
                STOPPING_SONG@
            } else {
                VOLUME_REDUCED@
            },
        ),
        op: TrackOp::Fade { volume: (volume / 2) as u64, stop },
        cancel: stop,
    }
}

/// How a reactor answers a firing. A firing of another kind than the one it
/// was registered for leaves it quiet.
pub open spec fn reaction_of(r: Reactor, f: Firing) -> ReactionView {
    match (r, f) {
        (Reactor::TrackEndNotifier { .. }, Firing::TracksEnded(n)) => ReactionView {
            say: Some("Tracks ended: "@ + decimal(n as nat) + "."@),
            op: TrackOp::Nothing,
            cancel: false,
        },
        (Reactor::SongResumer { .. }, Firing::Timer { session_present }) => if session_present {
            ReactionView { say: None, op: TrackOp::ResumeQueue, cancel: true }
        } else {
            ReactionView { say: Some(NOT_IN_VOICE@), op: TrackOp::Nothing, cancel: false }
        },
        (Reactor::SongFader { .. }, Firing::Tick { volume }) => fade_reaction(volume as nat),
        (Reactor::SongEndNotifier { .. }, _) => ReactionView {
            say: Some(FADED_OUT@),
            op: TrackOp::Nothing,
            cancel: false,
        },
        _ => quiet(),
    }
}

/// Owned text of a literal.
fn say(s: &str) -> (r: Option<String>)
    ensures
        r matches Some(t) && t@ == s@,
{
    Some(String::from_str(s))
}

impl Reactor {
    /// The reactor's answer to a firing.
    pub fn act(&self, firing: Firing) -> (r: Reaction)
        ensures
            r@ == reaction_of(*self, firing),
    {
        match (self, firing) {
            (Reactor::TrackEndNotifier { .. }, Firing::TracksEnded(n)) => {
                let mut t = String::from_str("Tracks ended: ");
                push_decimal(&mut t, n as u64);
                t.append(".");
                Reaction { say: Some(t), op: TrackOp::Nothing, cancel: false }
            },
            (Reactor::SongResumer { .. }, Firing::Timer { session_present }) => {
                if session_present {
                    Reaction { say: None, op: TrackOp::ResumeQueue, cancel: true }
                } else {
                    Reaction { say: say(NOT_IN_VOICE), op: TrackOp::Nothing, cancel: false }
                }
            },
            (Reactor::SongFader { .. }, Firing::Tick { volume }) => {
                let stop = volume < FADE_EPSILON;
                let text = if stop {
                    say(STOPPING_SONG)
                } else {
                    say(VOLUME_REDUCED)
                };
                Reaction { say: text, op: TrackOp::Fade { volume: volume / 2, stop }, cancel: stop }
            },
            (Reactor::SongEndNotifier { .. }, _) => {
                Reaction { say: say(FADED_OUT), op: TrackOp::Nothing, cancel: false }
            },
            _ => Reaction { say: None, op: TrackOp::Nothing, cancel: false },
        }
    }
}

/// A reactor as registered: it answers while live, and a cancelling answer
/// ends its registration.
pub struct Registration {
    reactor: Reactor,
    live: bool,
}

/// Liveness and answer after one firing of a registration.
pub open spec fn after_firing(live: bool, r: Reactor, f: Firing) -> (bool, ReactionView) {
    if live {
        let a = reaction_of(r, f);
        (!a.cancel, a)
    } else {
        (false, quiet())
    }
}

impl Registration {
    /// The registered reactor.
    pub closed spec fn reactor_of(&self) -> Reactor {
        self.reactor
    }

    /// Whether the registration still answers.
    pub closed spec fn is_live(&self) -> bool {
        self.live
    }

    /// A live registration of `reactor`.
    pub fn new(reactor: Reactor) -> (r: Registration)
        ensures
            r.reactor_of() == reactor,
            r.is_live(),
    {
        Registration { reactor, live: true }
    }

    /// Whether the registration still answers.
    pub fn live(&self) -> (r: bool)
        ensures
            r == self.is_live(),
    {
        self.live
    }

    /// Fires the registration: the reactor answers if it is live, and a
    /// cancelling answer ends the registration.
    pub fn fire(&mut self, firing: Firing) -> (r: Reaction)
        ensures
            final(self).reactor_of() == old(self).reactor_of(),
            (final(self).is_live(), r@) == after_firing(
                old(self).is_live(),
                old(self).reactor_of(),
                firing,
            ),
    {
        if !self.live {
            return Reaction { say: None, op: TrackOp::Nothing, cancel: false };
        }
        let r = self.reactor.act(firing);
        if r.cancel {
            self.live = false;
        }
        r
    }
}

/// The volume of a fading track after `k` ticks from `v`.
pub open spec fn fade_volume(v: nat, k: nat) -> nat
    decreases k,
{
    if k == 0 {
        v
    } else {
        fade_volume(v, (k - 1) as nat) / 2
    }
}

/// No tick before the `k`-th saw a volume under the threshold.
pub open spec fn audible_before(v: nat, k: nat) -> bool {
    forall|j: nat| j < k ==> fade_volume(v, j) >= FADE_EPSILON
}

/// The answers of a fader's registration over `k` ticks, each tick seeing the
/// volume that the tick before it set.
pub open spec fn fade_run(live: bool, channel: u64, v: nat, k: nat) -> Seq<ReactionView>
    decreases k,
{
    if k == 0 {
        Seq::empty()
    } else {
        let (next_live, a) = after_firing(
            live,
            Reactor::SongFader { channel },
            Firing::Tick { volume: v as u64 },
        );
        let next_v = match a.op {
            TrackOp::Fade { volume, .. } => volume as nat,
            _ => v,
        };
        seq![a] + fade_run(next_live, channel, next_v, (k - 1) as nat)
    }
}

proof fn lemma_cancelled_run(channel: u64, v: nat, k: nat)
    ensures
        fade_run(false, channel, v, k).len() == k,
        forall|i: int| 0 <= i < k ==> fade_run(false, channel, v, k)[i] == quiet(),
    decreases k,
{
    if k > 0 {
        lemma_cancelled_run(channel, v, (k - 1) as nat);
        let rest = fade_run(false, channel, v, (k - 1) as nat);
        assert(fade_run(false, channel, v, k) == seq![quiet()] + rest);
    }
}

proof fn lemma_fade_volume_shift(v: nat, j: nat)
    ensures
        fade_volume(v, j + 1) == fade_volume(v / 2, j),
    decreases j,
{
    if j > 0 {
        lemma_fade_volume_shift(v, (j - 1) as nat);
        assert(fade_volume(v, j + 1) == fade_volume(v, j) / 2);
        assert(fade_volume(v / 2, j) == fade_volume(v / 2, (j - 1) as nat) / 2);
    } else {
        assert(fade_volume(v, 1) == fade_volume(v, 0) / 2);
    }
}

/// Over a volume at or above the threshold, the ticks after the first are
/// those of a run from half that volume.
proof fn lemma_audible_shift(v: nat, m: nat)
    requires
        v >= FADE_EPSILON,
    ensures
        audible_before(v, m + 1) == audible_before(v / 2, m),
        fade_volume(v, m + 1) == fade_volume(v / 2, m),
{
    lemma_fade_volume_shift(v, m);
    if audible_before(v, m + 1) {
        assert forall|j: nat| j < m implies #[trigger] fade_volume(v / 2, j) >= FADE_EPSILON by {
            lemma_fade_volume_shift(v, j);
            assert(fade_volume(v, j + 1) >= FADE_EPSILON);
        }
    }
    if audible_before(v / 2, m) {
        assert forall|j: nat| j < m + 1 implies #[trigger] fade_volume(v, j) >= FADE_EPSILON by {
            if j > 0 {
                lemma_fade_volume_shift(v, (j - 1) as nat);
                assert(fade_volume(v / 2, (j - 1) as nat) >= FADE_EPSILON);
            }
        }
    }
}

/// A fading track's volume halves at each tick, and so never rises.
pub proof fn lemma_fade_volume_halves(v: nat, i: nat)
    ensures
        fade_volume(v, i + 1) == fade_volume(v, i) / 2,
        fade_volume(v, i + 1) <= fade_volume(v, i),
{
}

/// The fader answers every tick up to the first one at a volume under the
/// threshold, each with half the volume it saw; at that tick it stops the
/// track and cancels, and it stays quiet at every tick after it.
pub proof fn lemma_fade_run(channel: u64, volume: u64, k: nat)
    ensures
        fade_run(true, channel, volume as nat, k).len() == k,
        forall|i: int|
            0 <= i < k ==> #[trigger] fade_run(true, channel, volume as nat, k)[i] == if audible_before(
                volume as nat,
                i as nat,
            ) {
                fade_reaction(fade_volume(volume as nat, i as nat))
            } else {
                quiet()
            },
    decreases k,
{
    let v = volume as nat;
    if k > 0 {
        let half = (volume / 2) as u64;
        let run = fade_run(true, channel, v, k);
        let a = fade_reaction(v);
        assert(reaction_of(Reactor::SongFader { channel }, Firing::Tick { volume }) == a);
        assert(fade_volume(v, 0) == v);
        if volume >= FADE_EPSILON {
            lemma_fade_run(channel, half, (k - 1) as nat);
            let rest = fade_run(true, channel, half as nat, (k - 1) as nat);
            assert(run == seq![a] + rest);
            assert forall|i: int| 0 <= i < k implies #[trigger] run[i] == if audible_before(
                v,
                i as nat,
            ) {
                fade_reaction(fade_volume(v, i as nat))
            } else {
                quiet()
            } by {
                if i > 0 {
                    assert(run[i] == rest[i - 1]);
                    lemma_audible_shift(v, (i - 1) as nat);
                }
            }
        } else {
            lemma_cancelled_run(channel, half as nat, (k - 1) as nat);
            let rest = fade_run(false, channel, half as nat, (k - 1) as nat);
            assert(run == seq![a] + rest);
            assert forall|i: int| 0 <= i < k implies #[trigger] run[i] == if audible_before(
                v,
                i as nat,
            ) {
                fade_reaction(fade_volume(v, i as nat))
            } else {
                quiet()
            } by {
                if i > 0 {
                    assert(run[i] == rest[i - 1]);
                    assert(!(fade_volume(v, 0) >= FADE_EPSILON));
                    assert(!audible_before(v, i as nat));
                }
            }
        }
    }
}

} // verus!
