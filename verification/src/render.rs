//! The text of a record's line, and the stream that it goes to.

use vstd::prelude::*;

use crate::level::{level_as_str, text_of, Level};
use crate::paint::{ansi_reset, ansi_start, Color};

verus! {

/// The stream that a record is written to.
#[derive(Clone, Copy, Debug, PartialEq, Eq, Hash, Structural)]
pub enum Destination {
    Stdout,
    Stderr,
}

impl Destination {
    /// Records of level `Error` go to the standard error, all others to the
    /// standard output.
    pub open spec fn of(level: Level) -> Destination {
        if level == Level::Error {
            Destination::Stderr
        } else {
            Destination::Stdout
        }
    }

    /// The stream that a record of `level` is written to.
    pub fn for_level(level: Level) -> (destination: Destination)
        ensures
            destination == Destination::of(level),
            destination == Destination::Stderr <==> level == Level::Error,
    {
        match level {
            Level::Error => Destination::Stderr,
            _ => Destination::Stdout,
        }
    }
}

/// What is to be written for one record: where, in which colour, and the
/// text, which holds the colour's escape sequences where there is a colour.
#[derive(Debug, PartialEq, Eq)]
pub struct Emission {
    pub destination: Destination,
    pub color: Option<Color>,
    pub line: String,
}

/// An `Emission` as a mathematical value.
pub struct EmissionView {
    pub destination: Destination,
    pub color: Option<Color>,
    pub line: Seq<char>,
}

impl View for Emission {
    type V = EmissionView;

    open spec fn view(&self) -> EmissionView {
        EmissionView { destination: self.destination, color: self.color, line: self.line@ }
    }
}

impl Clone for Emission {
    fn clone(&self) -> (copy: Emission)
        ensures
            copy@ == self@,
    {
        Emission { destination: self.destination, color: self.color, line: self.line.clone() }
    }
}

/// The view of an emission that may be absent.
pub open spec fn emission_of(emission: Option<Emission>) -> Option<EmissionView> {
    match emission {
        Some(e) => Some(e@),
        None => None,
    }
}

/// The message, behind the level's name, a tab, a hyphen and a space where
/// the prefix is wanted.
pub open spec fn body_text(level: Level, message: Seq<char>, prefix: bool) -> Seq<char> {
    if prefix {
        level.name() + "\t- "@ + message
    } else {
        message
    }
}

/// What stands before the body: the timestamp and one space, or nothing.
pub open spec fn stamp_text(stamp: Option<Seq<char>>) -> Seq<char> {
    match stamp {
        Some(token) => token + " "@,
        None => Seq::<char>::empty(),
    }
}

/// `text` between the sequence that switches `color` on and the one that
/// switches it off again; `text` itself where there is no colour.
pub open spec fn painted(color: Option<Color>, text: Seq<char>) -> Seq<char> {
    match color {
        Some(c) => c.start_sequence() + text + Color::reset_sequence(),
        None => text,
    }
}

/// The whole line: the timestamp, if any, and then the body and the line
/// feed, in colour where one is given.
pub open spec fn line_text(stamp: Option<Seq<char>>, body: Seq<char>, color: Option<Color>) -> Seq<
    char,
> {
    stamp_text(stamp) + painted(color, body + "\n"@)
}

/// Builds the body of a record's line.
pub fn render_body(level: Level, message: &str, prefix: bool) -> (body: String)
    ensures
        body@ == body_text(level, message@, prefix),
{
    let mut body = String::new();
    if prefix {
        body.append(level_as_str(level));
        body.append("\t- ");
    }
    body.append(message);
    assert(body@ =~= body_text(level, message@, prefix));
    body
}

/// Builds a record's line from its timestamp, its body and its colour.
pub fn render_line(stamp: Option<&str>, body: &str, color: Option<Color>) -> (line: String)
    ensures
        line@ == line_text(text_of(stamp), body@, color),
{
    let mut line = String::new();
    if let Some(token) = stamp {
        line.append(token);
        line.append(" ");
    }
    assert(line@ =~= stamp_text(text_of(stamp)));
    match color {
        Some(c) => {
            let start = ansi_start(c);
            let reset = ansi_reset();
            line.append(start.as_str());
            line.append(body);
            line.append("\n");
            line.append(reset.as_str());
        },
        None => {
            line.append(body);
            line.append("\n");
        },
    }
    assert(line@ =~= line_text(text_of(stamp), body@, color));
    line
}

/// With a timestamp the line begins with it and one space, and goes on as the
/// line without a timestamp does.
pub proof fn lemma_stamp_leads_the_line(token: Seq<char>, body: Seq<char>, color: Option<Color>)
    ensures
        line_text(Some(token), body, color).len() > token.len(),
        line_text(Some(token), body, color).subrange(0, token.len() as int) == token,
        line_text(Some(token), body, color)[token.len() as int] == ' ',
        line_text(Some(token), body, color).subrange(
            token.len() as int + 1,
            line_text(Some(token), body, color).len() as int,
        ) == line_text(None, body, color),
{
    reveal_strlit(" ");
    let line = line_text(Some(token), body, color);
    let rest = line_text(None, body, color);
    assert(rest =~= painted(color, body + "\n"@));
    assert(line =~= token + seq![' '] + rest);
    assert(line.subrange(0, token.len() as int) =~= token);
    assert(line.subrange(token.len() as int + 1, line.len() as int) =~= rest);
}

/// Without a timestamp and without colour the line is the message and a line
/// feed, behind the level's name, a tab, a hyphen and a space where the prefix
/// is wanted.
pub proof fn lemma_plain_line(level: Level, message: Seq<char>)
    ensures
        line_text(None, body_text(level, message, true), None) == level.name() + "\t- "@ + message
            + "\n"@,
        line_text(None, body_text(level, message, false), None) == message + "\n"@,
{
    assert(line_text(None, body_text(level, message, true), None) =~= level.name() + "\t- "@
        + message + "\n"@);
    assert(line_text(None, body_text(level, message, false), None) =~= message + "\n"@);
}

} // verus!
