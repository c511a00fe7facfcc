//! Commands on the track that is playing: toggling its loop, showing where it
//! stands, and the replies of the queue commands.
use vstd::prelude::*;
use crate::clock::{duration_label, duration_label_text, progress_bar, progress_bar_text};
use crate::flow::{text_or, text_or_exec, Card, CardView, TrackInfo};
use crate::play::{ICON, NO_TITLE};
use crate::text::{decimal, push_decimal};

verus! {

/// Reply when the voice engine says the track has already finished.
pub const ALREADY_FINISHED: &'static str = "The song is already finished, i beg you, ᵖˡᵉᵃˢᵉ ᵠᵘᵉᵘᵉ ᵃⁿᵒᵗʰᵉʳ ᵒⁿᵉ";

/// Reply when reading the track's state failed for another reason.
pub const STATE_READ_FAILED: &'static str = "ok the dev actually done goofed, contact here and make fun of her (1)";

/// Reply when changing the track's loop failed for another reason.
pub const LOOP_CHANGE_FAILED: &'static str = "ok the dev actually done goofed, contact here and make fun of her (2)";

/// Reply once the loop is on.
pub const LOOP_ENABLED: &'static str = "Enabled infinite loop for the current song!";

/// Reply once the loop is off.
pub const LOOP_DISABLED: &'static str = "Disabled infinite loop for the current song!";

/// Reply when no track is playing.
pub const NOTHING_PLAYING: &'static str = "No song is playing, please, i beg you, play a song, ᵖˡᵉᵃˢᵉ";

/// Reply to the now-playing command when reading the track's position failed
/// for another reason than the track having finished.
pub const POSITION_READ_FAILED: &'static str = "This error shouldn't occur? please contact the developer (err 1)";

/// Reply to the now-playing command when no track is playing.
pub const NO_SONG_NOW: &'static str = ":x: there is literally no song playing rn";

/// Reply to the now-playing command when the caller is not in a voice channel.
pub const CALLER_NOT_IN_VC: &'static str = "You are not in a vc.";

/// Reply to the now-playing command when the track has finished.
pub const FINISHED_NOTHING_LEFT: &'static str = "The song is finished and there are no more songs";

/// Reply when the caller is not in a voice channel.
pub const CALLER_NOT_IN_VOICE: &'static str = "Not in a voice channel";

/// Reply once the queue has been stopped and emptied.
pub const QUEUE_CLEARED: &'static str = "Queue cleared.";

/// Reply once the bot has left the voice channel.
pub const LEFT_CHANNEL: &'static str = "Left voice channel";

/// Reply when joining the caller's channel failed.
pub const JOIN_FAILED: &'static str = "Error joining the channel";

/// Reply when the bot could not deafen itself after joining.
pub const DEAFEN_FAILED: &'static str = "There was an error while trying to deafen, vivian didn't care enough to handle this, if this keeps happening and you can't fix it contact her";

/// Reply to the ping command.
pub const PONG: &'static str = "Pong!";

/// Why the voice engine refused an operation on a track.
#[derive(Clone, Copy, Debug, PartialEq, Eq, Structural)]
pub enum TrackFailure {
    /// The track has already finished.
    Finished,
    /// Any other reason.
    Other,
}

/// What to do with the loop given the track's state (whether it loops
/// forever): switch it on when it does not, off when it does. A failure ends
/// the command with its reply.
pub open spec fn loop_choice_of(state: Result<bool, TrackFailure>) -> Result<bool, Seq<char>> {
    match state {
        Ok(looping) => Ok(!looping),
        Err(TrackFailure::Finished) => Err(ALREADY_FINISHED@),
        Err(TrackFailure::Other) => Err(STATE_READ_FAILED@),
    }
}

/// Whether to switch the loop on (`true`) or off, or the reply that ends the
/// command.
pub fn loop_choice(state: Result<bool, TrackFailure>) -> (r: Result<bool, &'static str>)
    ensures
        match r {
            Ok(b) => loop_choice_of(state) == Ok::<bool, Seq<char>>(b),
            Err(m) => loop_choice_of(state) == Err::<bool, Seq<char>>(m@),
        },
{
    match state {
        Ok(looping) => Ok(!looping),
        Err(TrackFailure::Finished) => Err(ALREADY_FINISHED),
        Err(TrackFailure::Other) => Err(STATE_READ_FAILED),
    }
}

/// The reply once the loop has been switched on (`enable`) or off.
pub open spec fn loop_outcome_of(enable: bool, result: Result<(), TrackFailure>) -> Seq<char> {
    match result {
        Ok(()) => if enable {
            LOOP_ENABLED@
        } else {
            LOOP_DISABLED@
        },
        Err(TrackFailure::Finished) => ALREADY_FINISHED@,
        Err(TrackFailure::Other) => LOOP_CHANGE_FAILED@,
    }
}

/// The reply once the loop has been switched on (`enable`) or off.
pub fn loop_outcome(enable: bool, result: Result<(), TrackFailure>) -> (r: &'static str)
    ensures
        r@ == loop_outcome_of(enable, result),
{
    match result {
        Ok(()) => if enable {
            LOOP_ENABLED
        } else {
            LOOP_DISABLED
        },
        Err(TrackFailure::Finished) => ALREADY_FINISHED,
        Err(TrackFailure::Other) => LOOP_CHANGE_FAILED,
    }
}

/// A track that has finished gets the finished reply at whichever step the
/// engine reports it, and never one of the replies kept for faults.
pub proof fn lemma_finished_track_loop(enable: bool)
    ensures
        loop_choice_of(Err(TrackFailure::Finished)) == Err::<bool, Seq<char>>(ALREADY_FINISHED@),
        loop_outcome_of(enable, Err(TrackFailure::Finished)) == ALREADY_FINISHED@,
        ALREADY_FINISHED@ != STATE_READ_FAILED@,
        ALREADY_FINISHED@ != LOOP_CHANGE_FAILED@,
{
    reveal_strlit("The song is already finished, i beg you, ᵖˡᵉᵃˢᵉ ᵠᵘᵉᵘᵉ ᵃⁿᵒᵗʰᵉʳ ᵒⁿᵉ");
    reveal_strlit("ok the dev actually done goofed, contact here and make fun of her (1)");
    reveal_strlit("ok the dev actually done goofed, contact here and make fun of her (2)");
    assert(ALREADY_FINISHED@[0] != STATE_READ_FAILED@[0]);
    assert(ALREADY_FINISHED@[0] != LOOP_CHANGE_FAILED@[0]);
}

/// The now-playing card of a track at `position_ms`: its title, its picture,
/// the progress bar, and the position against the length.
pub open spec fn now_playing_card_view(info: TrackInfo, position_ms: nat) -> CardView {
    let length_ms: nat = match info.duration_ms {
        Some(d) => d as nat,
        None => 0,
    };
    CardView {
        title: text_or(info.title, NO_TITLE@),
        thumbnail: text_or(info.thumbnail, ICON@),
        description: progress_bar_text(position_ms, length_ms),
        footer: "Duration: "@ + duration_label_text(position_ms / 1000, length_ms / 1000),
    }
}

/// The now-playing card, given the position that the engine reported for the
/// current track, or the reply when it reported a failure. A track of unknown
/// length is shown as of length zero.
pub fn now_playing(info: &TrackInfo, position: Result<u64, TrackFailure>) -> (r: Result<
    Card,
    &'static str,
>)
    ensures
        match position {
            Ok(p) => r matches Ok(c) && c@ == now_playing_card_view(*info, p as nat),
            Err(TrackFailure::Finished) => r == Err::<Card, &str>(FINISHED_NOTHING_LEFT),
            Err(TrackFailure::Other) => r == Err::<Card, &str>(POSITION_READ_FAILED),
        },
{
    let position_ms = match position {
        Ok(p) => p,
        Err(TrackFailure::Finished) => return Err(FINISHED_NOTHING_LEFT),
        Err(TrackFailure::Other) => return Err(POSITION_READ_FAILED),
    };
    let length_ms: u64 = match info.duration_ms {
        Some(d) => d,
        None => 0,
    };
    let mut footer = String::from_str("Duration: ");
    footer.append(duration_label(position_ms / 1000, length_ms / 1000).as_str());
    Ok(
        Card {
            title: text_or_exec(&info.title, NO_TITLE),
            thumbnail: text_or_exec(&info.thumbnail, ICON),
            description: progress_bar(position_ms, length_ms),
            footer,
        },
    )
}

/// The reply after a skip, with the number of tracks left in the queue.
pub fn skipped_message(queue_len: usize) -> (r: String)
    ensures
        r@ == "Song skipped: "@ + decimal(queue_len as nat) + " in queue."@,
{
    let mut r = String::from_str("Song skipped: ");
    push_decimal(&mut r, queue_len as u64);
    r.append(" in queue.");
    r
}

} // verus!
