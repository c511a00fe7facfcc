//! Text commands: recognising a command line and splitting its arguments.
use vstd::prelude::*;
use serenity::framework::standard::{Args, Delimiter};
use crate::text::{joined, lemma_joined_empty, join_words, same_text, texts};

verus! {

/// The character that starts every command line.
pub const COMMAND_PREFIX: char = '~';

/// The character that separates a command's arguments.
pub const ARGUMENT_DELIMITER: char = ' ';

/// The commands that the bot answers.
#[derive(Clone, Copy, Debug, PartialEq, Eq, Structural)]
pub enum Command {
    Join,
    Leave,
    Play,
    PlayFade,
    PlayPlaylist,
    Skip,
    Stop,
    Ping,
    NowPlaying,
    SongLoop,
}

/// The command called `name`, aliases included.
#[verifier::opaque]
pub open spec fn command_named(name: Seq<char>) -> Option<Command> {
    if name == "join"@ {
        Some(Command::Join)
    } else if name == "leave"@ {
        Some(Command::Leave)
    } else if name == "play"@ {
        Some(Command::Play)
    } else if name == "play_fade"@ {
        Some(Command::PlayFade)
    } else if name == "play_playlist"@ {
        Some(Command::PlayPlaylist)
    } else if name == "skip"@ {
        Some(Command::Skip)
    } else if name == "stop"@ {
        Some(Command::Stop)
    } else if name == "ping"@ {
        Some(Command::Ping)
    } else if name == "nowplaying"@ || name == "np"@ {
        Some(Command::NowPlaying)
    } else if name == "songloop"@ || name == "loop"@ {
        Some(Command::SongLoop)
    } else {
        None
    }
}

/// The command called `name`; `None` for a name that no command has.
pub fn command_for(name: &str) -> (r: Option<Command>)
    ensures
        r == command_named(name@),
{
    reveal(command_named);
    if same_text(name, "join") {
        Some(Command::Join)
    } else if same_text(name, "leave") {
        Some(Command::Leave)
    } else if same_text(name, "play") {
        Some(Command::Play)
    } else if same_text(name, "play_fade") {
        Some(Command::PlayFade)
    } else if same_text(name, "play_playlist") {
        Some(Command::PlayPlaylist)
    } else if same_text(name, "skip") {
        Some(Command::Skip)
    } else if same_text(name, "stop") {
        Some(Command::Stop)
    } else if same_text(name, "ping") {
        Some(Command::Ping)
    } else if same_text(name, "nowplaying") || same_text(name, "np") {
        Some(Command::NowPlaying)
    } else if same_text(name, "songloop") || same_text(name, "loop") {
        Some(Command::SongLoop)
    } else {
        None
    }
}

/// A recognised command line: the command and the text of its arguments.
pub struct Invocation {
    pub command: Command,
    pub arguments: String,
}

/// A command's name and its arguments: the name runs up to the first
/// delimiter or the end; the arguments are the text after that delimiter.
pub open spec fn name_and_arguments(body: Seq<char>) -> (Seq<char>, Seq<char>) {
    match crate::text::first_index(body, ARGUMENT_DELIMITER) {
        Some(i) => (body.subrange(0, i), body.subrange(i + 1, body.len() as int)),
        None => (body, Seq::empty()),
    }
}

/// Splits the text after the prefix into the command's name and its arguments.
fn split_name(body: &str) -> (r: (&str, &str))
    ensures
        (r.0@, r.1@) == name_and_arguments(body@),
{
    let m = body.unicode_len();
    match crate::text::find_char(body, ARGUMENT_DELIMITER) {
        Some(i) => (body.substring_char(0, i), body.substring_char(i + 1, m)),
        None => {
            let empty = body.substring_char(m, m);
            assert(empty@ =~= Seq::<char>::empty());
            (body, empty)
        },
    }
}

/// How a command line reads: the prefix, then the command's name and its
/// arguments.
pub open spec fn invocation_parts(line: Seq<char>) -> Option<(Seq<char>, Seq<char>)> {
    if line.len() == 0 || line[0] != COMMAND_PREFIX {
        None
    } else {
        Some(name_and_arguments(line.drop_first()))
    }
}

/// Recognises a command line. `None` when the line does not start with the
/// prefix or names no command.
pub fn parse_invocation(line: &str) -> (r: Option<Invocation>)
    ensures
        match invocation_parts(line@) {
            None => r is None,
            Some(parts) => match command_named(parts.0) {
                None => r is None,
                Some(c) => r matches Some(inv) && inv.command == c && inv.arguments@ == parts.1,
            },
        },
{
    let n = line.unicode_len();
    if n == 0 || line.get_char(0) != COMMAND_PREFIX {
        return None;
    }
    let body = line.substring_char(1, n);
    assert(body@ =~= line@.drop_first());
    let (name, args) = split_name(body);
    match command_for(name) {
        None => None,
        Some(c) => Some(Invocation { command: c, arguments: String::from_str(args) }),
    }
}

/// The arguments that serenity reads from `text` with `delimiter` between them.
pub uninterp spec fn argument_tokens(text: Seq<char>, delimiter: char) -> Seq<Seq<char>>;

/// Relies on serenity's `Args::new` and `Args::raw`: the arguments of `text`
/// as written (quotes kept), never an empty one, and none in an empty text.
#[verifier::external_body]
fn raw_arguments(text: &str, delimiter: char) -> (r: Vec<String>)
    ensures
        texts(r@) == argument_tokens(text@, delimiter),
        forall|i: int| 0 <= i < r@.len() ==> r@[i]@.len() > 0,
        text@.len() == 0 ==> r@.len() == 0,
{
    let args = Args::new(text, &[Delimiter::Single(delimiter)]);
    args.raw().map(|a| a.to_string()).collect()
}

/// The arguments of a command line, each as written.
pub fn arguments(text: &str) -> (r: Vec<String>)
    ensures
        texts(r@) == argument_tokens(text@, ARGUMENT_DELIMITER),
        forall|i: int| 0 <= i < r@.len() ==> r@[i]@.len() > 0,
        text@.len() == 0 ==> r@.len() == 0,
{
    raw_arguments(text, ARGUMENT_DELIMITER)
}

/// The query of a command: its arguments separated by single spaces.
pub open spec fn query_text(text: Seq<char>) -> Seq<char> {
    joined(argument_tokens(text, ARGUMENT_DELIMITER))
}

/// The query that a command line's arguments spell; it is empty exactly when
/// there are no arguments.
pub fn query_of(text: &str) -> (r: String)
    ensures
        r@ == query_text(text@),
        (r@.len() == 0) == (argument_tokens(text@, ARGUMENT_DELIMITER).len() == 0),
        text@.len() == 0 ==> r@.len() == 0,
{
    let words = arguments(text);
    let r = join_words(&words);
    proof {
        lemma_joined_empty(texts(words@));
    }
    r
}

} // verus!
