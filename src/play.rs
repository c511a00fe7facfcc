//! Queueing songs: what a play request asks for, and the flow that resolves
//! each song, enqueues it, holds playback back while the second track buffers,
//! and reports the result.
use vstd::prelude::*;
use crate::command::{arguments, argument_tokens, query_of, query_text, ARGUMENT_DELIMITER};
use crate::text::{contains, find_char, first_index, has_prefix, has_substring, starts_with, texts};

verus! {

/// Reply when the session's server has no voice session to play in.
pub const NOT_IN_VOICE: &'static str = "Not in a voice channel to play in";

/// Reply to a play command without a query.
pub const MISSING_QUERY: &'static str = "Must provide a URL or a search query";

/// Reply to a playlist command whose query is not a playlist.
pub const MISSING_PLAYLIST: &'static str = "Must provide a playlist URL";

/// Reply to a fading play command without arguments.
pub const MISSING_FADE_URL: &'static str = "Must provide a URL to a video or audio";

/// Reply to a fading play command whose argument is not a link.
pub const INVALID_FADE_URL: &'static str = "Must provide a valid URL";

/// Reply when a song's source cannot be resolved.
pub const SOURCE_ERROR: &'static str = "Error sourcing ffmpeg (see console)";

/// Notice that playback waits while the next track buffers.
pub const PREBUFFERING: &'static str = "Prebuffering...";

/// Reply when a resolved playlist lists no entries.
pub const EMPTY_PLAYLIST: &'static str = "This playlist has no videos!";

/// Reply when a playlist query resolves to something else than a playlist.
pub const NOT_A_PLAYLIST: &'static str = "THIS ISN'T EVEN A PLAYLIST, istg i filtered it, this shouldn't happen...";

/// Title shown on the now-playing card for a track whose source gave none.
pub const NO_TITLE: &'static str = "<no title>";

/// Title shown on the queued card for a track whose source gave none.
pub const QUEUED_NO_TITLE: &'static str = "<no title> (how?????????)";

/// Picture shown for a track whose source gave none.
pub const ICON: &'static str = "https://cdn.discordapp.com/avatars/887241846869360641/70525dd8fab9290f78cc7ad2e26728a6.webp";

/// What a link starts with.
pub const LINK_START: &'static str = "http";

/// The word that marks a playlist query.
pub const PLAYLIST_WORD: &'static str = "playlist";

/// What a playlist entry's identifier is appended to, to give its page.
pub const WATCH_PAGE: &'static str = "https://youtube.com/watch?v=";

/// Length of the queue at which playback is held while the new track buffers.
pub const PREBUFFER_QUEUE_LEN: usize = 2;

/// A song to resolve: a link, or words to search for.
pub enum Song {
    Url(String),
    Search(String),
}

/// A song as characters.
pub enum SongView {
    Url(Seq<char>),
    Search(Seq<char>),
}

impl View for Song {
    type V = SongView;

    open spec fn view(&self) -> SongView {
        match self {
            Song::Url(u) => SongView::Url(u@),
            Song::Search(s) => SongView::Search(s@),
        }
    }
}

/// The link in a query that starts with one: everything before the first
/// space, or the whole query when it has none.
pub open spec fn link_part(q: Seq<char>) -> Seq<char> {
    match first_index(q, ' ') {
        Some(i) => q.subrange(0, i),
        None => q,
    }
}

/// The song that a non-empty query asks for: a link when it starts like one,
/// otherwise a search for the whole query.
pub open spec fn song_of_query(q: Seq<char>) -> SongView {
    if starts_with(q, LINK_START@) {
        SongView::Url(link_part(q))
    } else {
        SongView::Search(q)
    }
}

/// The song that a non-empty query asks for.
pub fn song_for_query(query: &str) -> (r: Song)
    ensures
        r@ == song_of_query(query@),
{
    if has_prefix(query, LINK_START) {
        match find_char(query, ' ') {
            Some(i) => Song::Url(String::from_str(query.substring_char(0, i))),
            None => Song::Url(String::from_str(query)),
        }
    } else {
        Song::Search(String::from_str(query))
    }
}

/// A playlist query is one that mentions a playlist or starts like a link.
pub open spec fn is_playlist_query_text(q: Seq<char>) -> bool {
    contains(q, PLAYLIST_WORD@) || starts_with(q, LINK_START@)
}

/// Whether a query may name a playlist.
pub fn is_playlist_query(query: &str) -> (r: bool)
    ensures
        r == is_playlist_query_text(query@),
{
    has_substring(query, PLAYLIST_WORD) || has_prefix(query, LINK_START)
}

/// The query of a playlist command, or the reply that refuses it. Nothing is
/// resolved for a refused query.
pub fn playlist_query(arguments_text: &str) -> (r: Result<String, &'static str>)
    ensures
        is_playlist_query_text(query_text(arguments_text@)) ==> (r matches Ok(q) && q@
            == query_text(arguments_text@)),
        !is_playlist_query_text(query_text(arguments_text@)) ==> r == Err::<String, &str>(
            MISSING_PLAYLIST,
        ),
{
    let q = query_of(arguments_text);
    if is_playlist_query(q.as_str()) {
        Ok(q)
    } else {
        Err(MISSING_PLAYLIST)
    }
}

/// The link of a fading play command: its first argument, which must start
/// like a link.
pub fn fade_link(arguments_text: &str) -> (r: Result<String, &'static str>)
    ensures
        ({
            let args = argument_tokens(arguments_text@, ARGUMENT_DELIMITER);
            if args.len() == 0 {
                r == Err::<String, &str>(MISSING_FADE_URL)
            } else if !starts_with(args[0], LINK_START@) {
                r == Err::<String, &str>(INVALID_FADE_URL)
            } else {
                r matches Ok(u) && u@ == args[0]
            }
        }),
{
    let args = arguments(arguments_text);
    if args.len() == 0 {
        return Err(MISSING_FADE_URL);
    }
    assert(texts(args@)[0] == args@[0]@);
    let first = args[0].as_str();
    if !has_prefix(first, LINK_START) {
        return Err(INVALID_FADE_URL);
    }
    Ok(String::from_str(first))
}

/// The page of each playlist entry, in the playlist's order.
pub fn watch_urls(ids: &Vec<String>) -> (r: Vec<String>)
    ensures
        r@.len() == ids@.len(),
        forall|i: int| 0 <= i < ids@.len() ==> r@[i]@ == WATCH_PAGE@ + ids@[i]@,
{
    let mut r: Vec<String> = Vec::new();
    let mut i: usize = 0;
    while i < ids.len()
        invariant
            i <= ids@.len(),
            r@.len() == i,
            forall|j: int| 0 <= j < i ==> r@[j]@ == WATCH_PAGE@ + ids@[j]@,
        decreases ids@.len() - i,
    {
        let mut u = String::from_str(WATCH_PAGE);
        u.append(ids[i].as_str());
        r.push(u);
        i = i + 1;
    }
    r
}

} // verus!
