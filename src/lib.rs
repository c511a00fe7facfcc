//! A chat-bot command layer over a voice-call engine: the decisions taken by
//! each text command and by each playback reactor, as verified functions.
pub mod clock;
pub mod command;
pub mod flow;
pub mod play;
pub mod reactor;
pub mod text;
pub mod track;
