//! The flow of a play request through the voice engine. The engine's calls run
//! outside: the flow says what to do next (`Action`) and learns what came of
//! it (`Event`), one step at a time.
use vstd::prelude::*;
use crate::clock::{clock, padded_clock};
use crate::play::{
    song_for_query, song_of_query, watch_urls, Song, SongView, EMPTY_PLAYLIST, ICON, MISSING_QUERY,
    NOT_A_PLAYLIST, NOT_IN_VOICE, QUEUED_NO_TITLE, PREBUFFERING, PREBUFFER_QUEUE_LEN, SOURCE_ERROR,
    WATCH_PAGE,
};
use crate::command::{query_of, query_text};
use crate::track::CALLER_NOT_IN_VOICE;
use crate::text::{decimal, push_decimal};

verus! {

/// What the source of a track tells about it.
pub struct TrackInfo {
    pub title: Option<String>,
    pub thumbnail: Option<String>,
    pub duration_ms: Option<u64>,
}

/// A rich message: title, picture, body and footer.
pub struct Card {
    pub title: String,
    pub thumbnail: String,
    pub description: String,
    pub footer: String,
}

/// A card as characters.
pub struct CardView {
    pub title: Seq<char>,
    pub thumbnail: Seq<char>,
    pub description: Seq<char>,
    pub footer: Seq<char>,
}

impl View for Card {
    type V = CardView;

    open spec fn view(&self) -> CardView {
        CardView {
            title: self.title@,
            thumbnail: self.thumbnail@,
            description: self.description@,
            footer: self.footer@,
        }
    }
}

/// The text held, or `default` when there is none.
pub open spec fn text_or(o: Option<String>, default: Seq<char>) -> Seq<char> {
    match o {
        Some(s) => s@,
        None => default,
    }
}

/// The card that reports a track added to the queue at `position`.
pub open spec fn queued_card_view(info: TrackInfo, position: nat) -> CardView {
    CardView {
        title: text_or(info.title, QUEUED_NO_TITLE@),
        thumbnail: text_or(info.thumbnail, ICON@),
        description: "Added song to queue, position `"@ + decimal(position) + "`"@,
        footer: "Duration: "@ + padded_clock(
            match info.duration_ms {
                Some(d) => d as nat / 1000,
                None => 0,
            },
        ),
    }
}

/// A copy of the text held, or of `default`.
pub fn text_or_exec(o: &Option<String>, default: &str) -> (r: String)
    ensures
        r@ == text_or(*o, default@),
{
    match o {
        Some(s) => s.clone(),
        None => String::from_str(default),
    }
}

/// The card that reports a track added to the queue at `position`.
pub fn queued_card(info: &TrackInfo, position: usize) -> (r: Card)
    ensures
        r@ == queued_card_view(*info, position as nat),
{
    let mut description = String::from_str("Added song to queue, position `");
    push_decimal(&mut description, position as u64);
    description.append("`");
    let secs: u64 = match info.duration_ms {
        Some(d) => d / 1000,
        None => 0,
    };
    let mut footer = String::from_str("Duration: ");
    footer.append(clock(secs).as_str());
    Card {
        title: text_or_exec(&info.title, QUEUED_NO_TITLE),
        thumbnail: text_or_exec(&info.thumbnail, ICON),
        description,
        footer,
    }
}

/// A copy of a song.
pub fn copy_song(s: &Song) -> (r: Song)
    ensures
        r@ == s@,
{
    match s {
        Song::Url(u) => Song::Url(u.clone()),
        Song::Search(q) => Song::Search(q.clone()),
    }
}

/// What the flow asks to be done next.
pub enum Action {
    /// Post this text in the channel that the request came from.
    Say(String),
    /// Resolve the song's source; answer with `Resolved` or `ResolveFailed`.
    Resolve(Song),
    /// Enqueue the source just resolved; answer with `Enqueued`.
    Enqueue,
    /// Pause the session's queue.
    Pause,
    /// Register the delayed reactor that resumes the queue.
    ArmResumer,
    /// Post this card in the channel that the request came from.
    ShowQueued(Card),
}

/// An action as characters.
pub enum ActionView {
    Say(Seq<char>),
    Resolve(SongView),
    Enqueue,
    Pause,
    ArmResumer,
    ShowQueued(CardView),
}

impl View for Action {
    type V = ActionView;

    open spec fn view(&self) -> ActionView {
        match self {
            Action::Say(t) => ActionView::Say(t@),
            Action::Resolve(s) => ActionView::Resolve(s@),
            Action::Enqueue => ActionView::Enqueue,
            Action::Pause => ActionView::Pause,
            Action::ArmResumer => ActionView::ArmResumer,
            Action::ShowQueued(c) => ActionView::ShowQueued(c@),
        }
    }
}

/// The views of a list of actions.
pub open spec fn action_views(v: Seq<Action>) -> Seq<ActionView> {
    v.map_values(|a: Action| a@)
}

/// How many times `a` occurs in `s`.
pub open spec fn count_of(s: Seq<ActionView>, a: ActionView) -> nat
    decreases s.len(),
{
    if s.len() == 0 {
        0
    } else {
        count_of(s.drop_last(), a) + if s.last() == a {
            1nat
        } else {
            0nat
        }
    }
}

/// Counting over a concatenation adds the counts of its parts.
pub proof fn lemma_count_of_add(s: Seq<ActionView>, t: Seq<ActionView>, a: ActionView)
    ensures
        count_of(s + t, a) == count_of(s, a) + count_of(t, a),
    decreases t.len(),
{
    if t.len() > 0 {
        assert((s + t).drop_last() =~= s + t.drop_last());
        lemma_count_of_add(s, t.drop_last(), a);
    } else {
        assert(s + t =~= s);
    }
}

/// What comes of the engine's work on the action asked for.
pub enum Event {
    /// The song's source was found, with what it tells about the track.
    Resolved(TrackInfo),
    /// The song's source could not be found.
    ResolveFailed,
    /// The source was enqueued; the queue now holds this many tracks.
    Enqueued(usize),
}

/// Where the flow stands.
pub enum Phase {
    /// Waiting for the current song to be resolved.
    Resolving,
    /// Waiting for the resolved source to be enqueued.
    Enqueuing(TrackInfo),
    /// Every song has been dealt with.
    Finished,
}

/// The work of one play request: songs to resolve and enqueue in order.
pub struct EnqueueFlow {
    songs: Vec<Song>,
    current: usize,
    announce: bool,
    phase: Phase,
}

/// What is done once a track is in the queue: when it is the second, hold
/// playback, say so, and arm the reactor that resumes the queue later.
pub open spec fn prebuffer_actions(queue_len: nat) -> Seq<ActionView> {
    if queue_len == PREBUFFER_QUEUE_LEN {
        seq![ActionView::Pause, ActionView::Say(PREBUFFERING@), ActionView::ArmResumer]
    } else {
        Seq::empty()
    }
}

/// What is done after the song at `current`: resolve the next one, if any.
pub open spec fn next_actions(songs: Seq<SongView>, current: nat) -> Seq<ActionView> {
    if current + 1 < songs.len() {
        seq![ActionView::Resolve(songs[current + 1 as int])]
    } else {
        Seq::empty()
    }
}

/// The card, if the flow reports each track it queues.
pub open spec fn card_actions(announce: bool, info: TrackInfo, queue_len: nat) -> Seq<ActionView> {
    if announce {
        seq![ActionView::ShowQueued(queued_card_view(info, queue_len))]
    } else {
        Seq::empty()
    }
}

impl EnqueueFlow {
    /// The songs, in the order they are worked on.
    pub closed spec fn song_views(&self) -> Seq<SongView> {
        self.songs@.map_values(|s: Song| s@)
    }

    /// Index of the song being worked on; the number of songs once finished.
    pub closed spec fn position(&self) -> nat {
        self.current as nat
    }

    /// Where the flow stands.
    pub closed spec fn phase_of(&self) -> Phase {
        self.phase
    }

    /// Whether each queued track is reported with a card.
    pub closed spec fn announces(&self) -> bool {
        self.announce
    }

    /// The flow is finished exactly when it has moved past the last song, and
    /// it never moves further than that.
    pub open spec fn stands_well(&self) -> bool {
        &&& self.position() <= self.song_views().len()
        &&& (self.phase_of() is Finished) == (self.position() == self.song_views().len())
    }

    /// The flow is finished exactly when no song is left.
    pub closed spec fn wf(&self) -> bool {
        &&& self.current <= self.songs@.len()
        &&& (self.phase is Finished) == (self.current == self.songs@.len())
    }

    /// A flow over `songs`, with the first action: resolve the first song.
    pub fn start(songs: Vec<Song>, announce: bool) -> (r: (EnqueueFlow, Vec<Action>))
        ensures
            r.0.wf(),
            r.0.stands_well(),
            r.0.song_views() == songs@.map_values(|s: Song| s@),
            r.0.position() == 0,
            r.0.announces() == announce,
            songs@.len() == 0 ==> r.0.phase_of() is Finished && r.1@.len() == 0,
            songs@.len() > 0 ==> r.0.phase_of() is Resolving && action_views(r.1@) == seq![
                ActionView::Resolve(songs@[0]@),
            ],
    {
        let mut actions: Vec<Action> = Vec::new();
        if songs.len() == 0 {
            let flow = EnqueueFlow { songs, current: 0, announce, phase: Phase::Finished };
            return (flow, actions);
        }
        actions.push(Action::Resolve(copy_song(&songs[0])));
        assert(action_views(actions@) =~= seq![ActionView::Resolve(songs@[0]@)]);
        (EnqueueFlow { songs, current: 0, announce, phase: Phase::Resolving }, actions)
    }

    /// Whether every song has been dealt with.
    pub fn is_finished(&self) -> (r: bool)
        ensures
            r == (self.phase_of() is Finished),
    {
        match self.phase {
            Phase::Finished => true,
            _ => false,
        }
    }

    /// Moves on to the next song, asking to resolve it if there is one.
    fn advance(&mut self, actions: &mut Vec<Action>)
        requires
            old(self).wf(),
            !(old(self).phase is Finished),
        ensures
            final(self).wf(),
            final(self).songs == old(self).songs,
            final(self).announce == old(self).announce,
            final(self).current == old(self).current + 1,
            final(self).current < final(self).songs@.len() ==> final(self).phase is Resolving,
            action_views(final(actions)@) == action_views(old(actions)@) + next_actions(
                old(self).song_views(),
                old(self).position(),
            ),
    {
        let n = self.songs.len();
        self.current = self.current + 1;
        let ghost before = action_views(actions@);
        if self.current < n {
            actions.push(Action::Resolve(copy_song(&self.songs[self.current])));
            self.phase = Phase::Resolving;
            assert(action_views(actions@) =~= before + next_actions(
                old(self).song_views(),
                old(self).position(),
            ));
        } else {
            self.phase = Phase::Finished;
            assert(action_views(actions@) =~= before + next_actions(
                old(self).song_views(),
                old(self).position(),
            ));
        }
    }

    /// Takes in what came of the last action and gives the next ones. An event
    /// that the flow does not wait for changes nothing.
    pub fn step(&mut self, event: Event) -> (r: Vec<Action>)
        requires
            old(self).wf(),
        ensures
            final(self).wf(),
            final(self).stands_well(),
            final(self).song_views() == old(self).song_views(),
            final(self).announces() == old(self).announces(),
            match (old(self).phase_of(), event) {
                (Phase::Resolving, Event::ResolveFailed) => {
                    &&& action_views(r@) == seq![ActionView::Say(SOURCE_ERROR@)] + next_actions(
                        old(self).song_views(),
                        old(self).position(),
                    )
                    &&& final(self).position() == old(self).position() + 1
                    &&& final(self).position() < final(self).song_views().len()
                        ==> final(self).phase_of() is Resolving
                },
                (Phase::Resolving, Event::Resolved(info)) => {
                    &&& action_views(r@) == seq![ActionView::Enqueue]
                    &&& final(self).phase_of() == Phase::Enqueuing(info)
                    &&& final(self).position() == old(self).position()
                },
                (Phase::Enqueuing(info), Event::Enqueued(len)) => {
                    &&& action_views(r@) == prebuffer_actions(len as nat) + card_actions(
                        old(self).announces(),
                        info,
                        len as nat,
                    ) + next_actions(old(self).song_views(), old(self).position())
                    &&& final(self).position() == old(self).position() + 1
                    &&& final(self).position() < final(self).song_views().len()
                        ==> final(self).phase_of() is Resolving
                    &&& count_of(action_views(r@), ActionView::ArmResumer) == (if len
                        == PREBUFFER_QUEUE_LEN {
                        1nat
                    } else {
                        0nat
                    })
                    &&& count_of(action_views(r@), ActionView::Pause) == (if len
                        == PREBUFFER_QUEUE_LEN {
                        1nat
                    } else {
                        0nat
                    })
                },
                _ => r@.len() == 0 && final(self).phase_of() == old(self).phase_of()
                    && final(self).position() == old(self).position(),
            },
    {
        let mut actions: Vec<Action> = Vec::new();
        let mut phase = Phase::Finished;
        core::mem::swap(&mut phase, &mut self.phase);
        match (phase, event) {
            (Phase::Resolving, Event::ResolveFailed) => {
                self.phase = Phase::Resolving;
                actions.push(Action::Say(String::from_str(SOURCE_ERROR)));
                self.advance(&mut actions);
            },
            (Phase::Resolving, Event::Resolved(info)) => {
                self.phase = Phase::Enqueuing(info);
                actions.push(Action::Enqueue);
            },
            (Phase::Enqueuing(info), Event::Enqueued(len)) => {
                let ghost info_v = info;
                if len == PREBUFFER_QUEUE_LEN {
                    actions.push(Action::Pause);
                    actions.push(Action::Say(String::from_str(PREBUFFERING)));
                    actions.push(Action::ArmResumer);
                }
                let ghost pre = action_views(actions@);
                assert(pre =~= prebuffer_actions(len as nat));
                if self.announce {
                    actions.push(Action::ShowQueued(queued_card(&info, len)));
                }
                let ghost mid = action_views(actions@);
                assert(mid =~= pre + card_actions(self.announce, info_v, len as nat));
                self.phase = Phase::Resolving;
                self.advance(&mut actions);
                proof {
                    let nx = next_actions(old(self).song_views(), old(self).position());
                    let cd = card_actions(self.announce, info_v, len as nat);
                    lemma_count_of_add(pre + cd, nx, ActionView::ArmResumer);
                    lemma_count_of_add(pre, cd, ActionView::ArmResumer);
                    lemma_count_of_add(pre + cd, nx, ActionView::Pause);
                    lemma_count_of_add(pre, cd, ActionView::Pause);
                    reveal_with_fuel(count_of, 4);
                }
            },
            (p, _) => {
                self.phase = p;
            },
        }
        actions
    }
}

/// Starts a play command: the query of its arguments, checked before anything
/// is resolved, then the caller's voice channel, then the session. The flow resolves the one song the query
/// asks for and reports it with a card once queued.
pub fn begin_play(arguments_text: &str, caller_in_voice: bool, has_session: bool) -> (r: Result<
    (EnqueueFlow, Vec<Action>),
    &'static str,
>)
    ensures
        ({
            let q = query_text(arguments_text@);
            if q.len() == 0 {
                r == Err::<(EnqueueFlow, Vec<Action>), &str>(MISSING_QUERY)
            } else if !caller_in_voice {
                r == Err::<(EnqueueFlow, Vec<Action>), &str>(CALLER_NOT_IN_VOICE)
            } else if !has_session {
                r == Err::<(EnqueueFlow, Vec<Action>), &str>(NOT_IN_VOICE)
            } else {
                r matches Ok((flow, actions)) && flow.wf() && flow.song_views() == seq![
                    song_of_query(q),
                ] && flow.position() == 0 && flow.phase_of() is Resolving && flow.announces()
                    && action_views(actions@) == seq![ActionView::Resolve(song_of_query(q))]
            }
        }),
{
    let q = query_of(arguments_text);
    if q.as_str().unicode_len() == 0 {
        return Err(MISSING_QUERY);
    }
    if !caller_in_voice {
        return Err(CALLER_NOT_IN_VOICE);
    }
    if !has_session {
        return Err(NOT_IN_VOICE);
    }
    let mut songs: Vec<Song> = Vec::new();
    songs.push(song_for_query(q.as_str()));
    assert(songs@.map_values(|s: Song| s@) =~= seq![song_of_query(q@)]);
    Ok(EnqueueFlow::start(songs, true))
}

/// What a playlist query resolved to.
pub enum PlaylistListing {
    /// A playlist, with the identifier of each entry in order.
    Entries(Vec<String>),
    /// A playlist that lists no entries.
    NoEntries,
    /// Something else than a playlist.
    NotPlaylist,
}

/// The songs of a playlist: the page of each entry, in order.
pub open spec fn playlist_songs(ids: Seq<String>) -> Seq<SongView> {
    ids.map_values(|id: String| SongView::Url(WATCH_PAGE@ + id@))
}

/// Starts queueing a resolved playlist: each entry's page in order, without a
/// card for each. A listing that is no playlist or has no entries is refused
/// before the caller's voice channel and then the session are looked at.
pub fn begin_playlist(
    listing: PlaylistListing,
    caller_in_voice: bool,
    has_session: bool,
) -> (r: Result<
    (EnqueueFlow, Vec<Action>),
    &'static str,
>)
    ensures
        match listing {
            PlaylistListing::NotPlaylist => r == Err::<(EnqueueFlow, Vec<Action>), &str>(
                NOT_A_PLAYLIST,
            ),
            PlaylistListing::NoEntries => r == Err::<(EnqueueFlow, Vec<Action>), &str>(
                EMPTY_PLAYLIST,
            ),
            PlaylistListing::Entries(ids) => if !caller_in_voice {
                r == Err::<(EnqueueFlow, Vec<Action>), &str>(CALLER_NOT_IN_VOICE)
            } else if !has_session {
                r == Err::<(EnqueueFlow, Vec<Action>), &str>(NOT_IN_VOICE)
            } else {
                r matches Ok((flow, actions)) && flow.wf() && flow.song_views() == playlist_songs(
                    ids@,
                ) && flow.position() == 0 && !flow.announces() && (ids@.len() == 0 ==> (
                flow.phase_of() is Finished && actions@.len() == 0)) && (ids@.len() > 0 ==> (
                flow.phase_of() is Resolving && action_views(actions@) == seq![
                    ActionView::Resolve(playlist_songs(ids@)[0]),
                ]))
            },
        },
{
    match listing {
        PlaylistListing::NotPlaylist => Err(NOT_A_PLAYLIST),
        PlaylistListing::NoEntries => Err(EMPTY_PLAYLIST),
        PlaylistListing::Entries(ids) => {
            if !caller_in_voice {
                return Err(CALLER_NOT_IN_VOICE);
            }
            if !has_session {
                return Err(NOT_IN_VOICE);
            }
            let urls = watch_urls(&ids);
            let mut songs: Vec<Song> = Vec::new();
            let mut i: usize = 0;
            while i < urls.len()
                invariant
                    i <= urls@.len(),
                    urls@.len() == ids@.len(),
                    forall|j: int| 0 <= j < ids@.len() ==> urls@[j]@ == WATCH_PAGE@ + ids@[j]@,
                    songs@.len() == i,
                    forall|j: int| 0 <= j < i ==> songs@[j]@ == playlist_songs(ids@)[j],
                decreases urls@.len() - i,
            {
                songs.push(Song::Url(urls[i].clone()));
                i = i + 1;
            }
            assert(songs@.map_values(|s: Song| s@) =~= playlist_songs(ids@));
            Ok(EnqueueFlow::start(songs, false))
        },
    }
}

} // verus!
