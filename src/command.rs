//! The client command grammar. A command is one or more copies of its token
//! character and nothing else, once the line is trimmed: `1` asks for the
//! cached reading at once, `W` asks the scale for a new one and waits for it.
use vstd::prelude::*;
use vstd::string::*;
use crate::text::{is_repeated, is_repeated_exec, line_from_chunk, line_of};

verus! {

/// The token of an immediate read.
pub const IMMEDIATE_TOKEN: char = '1';

/// The token of a trigger-and-wait read.
pub const TRIGGER_TOKEN: char = 'W';

/// A recognised client request.
#[derive(Clone, Copy, Debug, PartialEq, Eq, Structural)]
pub enum Command {
    /// Answer from the cache without asking the scale.
    ImmediateRead,
    /// Ask the scale for a new reading, then wait for it to reach the cache.
    TriggerAndWait,
}

/// What a line of client input asks for.
#[derive(Clone, Copy, Debug, PartialEq, Eq, Structural)]
pub enum LineKind {
    /// Nothing but whitespace: skipped without an answer.
    Blank,
    /// A recognised command.
    Request(Command),
    /// Anything else.
    Unrecognized,
}

/// The command a trimmed line names, if any.
pub open spec fn command_of(line: Seq<char>) -> Option<Command> {
    if is_repeated(line, IMMEDIATE_TOKEN) {
        Some(Command::ImmediateRead)
    } else if is_repeated(line, TRIGGER_TOKEN) {
        Some(Command::TriggerAndWait)
    } else {
        None
    }
}

/// How a trimmed line is handled.
pub open spec fn kind_of_line(line: Seq<char>) -> LineKind {
    if line.len() == 0 {
        LineKind::Blank
    } else {
        match command_of(line) {
            Some(c) => LineKind::Request(c),
            None => LineKind::Unrecognized,
        }
    }
}

impl Command {
    /// The command that the trimmed line `line` names, if any.
    pub fn parse(line: &str) -> (r: Option<Command>)
        ensures
            r == command_of(line@),
    {
        if is_repeated_exec(line, IMMEDIATE_TOKEN) {
            Some(Command::ImmediateRead)
        } else if is_repeated_exec(line, TRIGGER_TOKEN) {
            Some(Command::TriggerAndWait)
        } else {
            None
        }
    }
}

/// How a trimmed line is handled.
pub fn classify_line(line: &str) -> (r: LineKind)
    ensures
        r == kind_of_line(line@),
{
    if line.unicode_len() == 0 {
        LineKind::Blank
    } else {
        match Command::parse(line) {
            Some(c) => LineKind::Request(c),
            None => LineKind::Unrecognized,
        }
    }
}

/// How a raw chunk of client input is handled, once decoded and trimmed.
pub fn classify_chunk(chunk: &[u8]) -> (r: LineKind)
    ensures
        r == kind_of_line(line_of(chunk@)),
{
    let line = line_from_chunk(chunk);
    classify_line(line.as_str())
}

} // verus!
