//! Turns a line-oriented protocol log of a multiplayer session into typed
//! messages and a readable transcript.
use vstd::prelude::*;

pub mod classify;
pub mod decode;
pub mod message;
pub mod message_interpret;
pub mod pattern;
pub mod score;
pub mod text;

verus! {

/// Splits a log into its lines: the pieces of `text` between line feeds.
/// A text without a line feed is one line, and a trailing line feed is
/// followed by one last empty line.
pub fn parse_lines(text: &String) -> (lines: Vec<String>)
    ensures
        lines.deep_view() == text::split_spec(text@, '\n'),
{
    text::split_on(text.as_str(), '\n')
}

} // verus!
