//! The interactive read loop's state machine: reading a line into a
//! command, stepping the loop state, and turning the outcome of one
//! fetch into the next prompt's text. The loop leaves its running
//! state only on the exit command; no fetch outcome, a transport
//! failure included, ever terminates it.

use vstd::prelude::*;

use crate::digits::all_digits;
use crate::digits::dec_val;
use crate::digits::parse_u32;
use crate::digits::trim;
use crate::digits::trimmed;
use crate::present::presentation;
use crate::present::AnilistEntry;

verus! {

/// What one line of input asks for.
#[derive(Clone, Copy, PartialEq, Eq, Structural, Debug)]
pub enum Command {
    /// Terminate the loop.
    Exit,
    /// Report the line as invalid and prompt again.
    Invalid,
    /// Run the fetch pipeline for this identifier.
    Fetch(u32),
}

/// The two states of the interactive loop.
#[derive(Clone, Copy, PartialEq, Eq, Structural, Debug)]
pub enum LoopState {
    AwaitingInput,
    Terminated,
}

/// Why a metadata fetch yielded no envelope.
#[derive(Clone, Copy, PartialEq, Eq, Structural, Debug)]
pub enum FetchError {
    /// The network call itself failed.
    Transport,
    /// The response body was not a well-formed envelope.
    Decode,
}

/// Whether a trimmed line spells the exit command, in any casing.
pub open spec fn exit_like(s: Seq<char>) -> bool {
    &&& s.len() == 4
    &&& (s[0] == 'e' || s[0] == 'E')
    &&& (s[1] == 'x' || s[1] == 'X')
    &&& (s[2] == 'i' || s[2] == 'I')
    &&& (s[3] == 't' || s[3] == 'T')
}

/// Whether a trimmed line spells an identifier: at least one
/// character, digits throughout, and a value that fits.
pub open spec fn id_like(s: Seq<char>) -> bool {
    s.len() > 0 && all_digits(s) && dec_val(s) <= u32::MAX
}

/// The command one line of input asks for: the exit command when the
/// trimmed line spells it in any casing; else a fetch of the
/// identifier the trimmed line spells; else invalid.
pub open spec fn command_spec(line: Seq<char>) -> Command {
    if exit_like(trimmed(line)) {
        Command::Exit
    } else if id_like(trimmed(line)) {
        Command::Fetch(dec_val(trimmed(line)) as u32)
    } else {
        Command::Invalid
    }
}

/// Whether a trimmed string spells the exit command, in any casing.
fn is_exit(s: &str) -> (b: bool)
    ensures
        b == exit_like(s@),
{
    if s.unicode_len() != 4 {
        return false;
    }
    let c0 = s.get_char(0);
    let c1 = s.get_char(1);
    let c2 = s.get_char(2);
    let c3 = s.get_char(3);
    (c0 == 'e' || c0 == 'E') && (c1 == 'x' || c1 == 'X') && (c2 == 'i' || c2 == 'I') && (c3 == 't'
        || c3 == 'T')
}

/// Read one line of input as a command. The exit command is
/// recognized whatever its casing and surrounding blank space; any
/// other line must spell an identifier, else it is invalid. Neither
/// the exit command nor an invalid line ever yields a fetch.
pub fn interpret_line(line: &str) -> (c: Command)
    ensures
        c == command_spec(line@),
{
    let t = trim(line);
    if is_exit(t) {
        Command::Exit
    } else {
        match parse_u32(t) {
            Some(n) => Command::Fetch(n),
            None => Command::Invalid,
        }
    }
}

/// The loop state after one command: terminated exactly when the
/// loop was already terminated or the command is the exit command.
pub open spec fn step_spec(s: LoopState, c: Command) -> LoopState {
    if s is Terminated || c is Exit {
        LoopState::Terminated
    } else {
        LoopState::AwaitingInput
    }
}

/// Step the loop state by one command.
pub fn step(s: LoopState, c: &Command) -> (n: LoopState)
    ensures
        n == step_spec(s, *c),
{
    match (s, c) {
        (LoopState::Terminated, _) => LoopState::Terminated,
        (_, Command::Exit) => LoopState::Terminated,
        _ => LoopState::AwaitingInput,
    }
}

/// The notice printed when the metadata call cannot reach the service.
pub open spec fn transport_notice() -> Seq<char> {
    "Can't connect to the service"@
}

/// The notice printed when the response is not a well-formed envelope.
pub open spec fn decode_notice() -> Seq<char> {
    "Malformed response from the service"@
}

/// The text one fetch outcome prints: a notice for either error, and
/// the presenter's text for a decoded envelope.
pub open spec fn outcome_text(outcome: Result<AnilistEntry, FetchError>) -> Seq<char> {
    match outcome {
        Ok(e) => presentation(e.data),
        Err(FetchError::Transport) => transport_notice(),
        Err(FetchError::Decode) => decode_notice(),
    }
}

/// Turn the outcome of one fetch into what the loop prints and the
/// state it continues in. Whatever the outcome — a transport
/// failure, a malformed response or a decoded envelope — the loop
/// stays awaiting input: only the exit command terminates it.
pub fn report(outcome: &Result<AnilistEntry, FetchError>) -> (r: (String, LoopState))
    ensures
        r.0@ == outcome_text(*outcome),
        r.1 is AwaitingInput,
{
    let text = match outcome {
        Ok(e) => e.render(),
        Err(FetchError::Transport) => String::from_str("Can't connect to the service"),
        Err(FetchError::Decode) => String::from_str("Malformed response from the service"),
    };
    (text, LoopState::AwaitingInput)
}

} // verus!
