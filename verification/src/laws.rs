//! The library's stated laws: what holds of the presenter, the title
//! resolution and the read loop for every input, proved from the
//! same spec functions the executable contracts use.

use vstd::prelude::*;

use crate::digits::trimmed;
use crate::model::cover_request_spec;
use crate::model::resolved_title;
use crate::model::Data;
use crate::model::Title;
use crate::present::entry_text;
use crate::present::not_found_text;
use crate::present::presentation;
use crate::repl::command_spec;
use crate::repl::exit_like;
use crate::repl::id_like;
use crate::repl::step_spec;
use crate::repl::LoopState;

verus! {

/// An envelope with an absent record is presented as exactly the
/// not-found notice, and asks for no cover-image fetch.
pub proof fn lemma_absent_record(d: Data)
    requires
        d.media is None,
    ensures
        presentation(d) == not_found_text(),
        cover_request_spec(d) is None,
{
}

/// A record without a cover-image URL asks for no cover-image fetch,
/// yet is presented with its full text block: identifier, title,
/// format and genres.
pub proof fn lemma_missing_cover_still_prints(d: Data)
    requires
        d.media is Some,
        d.media->0.cover_image is Some ==> d.media->0.cover_image->0.img is None,
    ensures
        cover_request_spec(d) is None,
        presentation(d) == entry_text(d.media->0),
{
}

/// The presenter's text is a function of the decoded envelope alone:
/// what became of the cover image plays no part in it.
pub proof fn lemma_presentation_ignores_image(d1: Data, d2: Data)
    requires
        d1 == d2,
    ensures
        presentation(d1) == presentation(d2),
{
}

/// Title resolution is total and deterministic: the English title
/// where present, else the romanized one, else the native one, else
/// the fixed placeholder.
pub proof fn lemma_title_resolution(t: Title)
    ensures
        t.english is Some ==> resolved_title(t) == t.english->0@,
        t.english is None && t.romaji is Some ==> resolved_title(t) == t.romaji->0@,
        t.english is None && t.romaji is None && t.native is Some ==> resolved_title(t)
            == t.native->0@,
        t.english is None && t.romaji is None && t.native is None ==> resolved_title(t)
            == "<no title>"@,
{
}

/// A line that spells the exit command after trimming, in any
/// casing, terminates the running loop and asks for no fetch.
pub proof fn lemma_exit_terminates(line: Seq<char>)
    requires
        exit_like(trimmed(line)),
    ensures
        command_spec(line) is Exit,
        !(command_spec(line) is Fetch),
        step_spec(LoopState::AwaitingInput, command_spec(line)) is Terminated,
{
}

/// A line that spells neither the exit command nor an identifier is
/// reported invalid: it asks for no fetch and leaves the loop
/// running.
pub proof fn lemma_invalid_line_stays_local(line: Seq<char>)
    requires
        !exit_like(trimmed(line)),
        !id_like(trimmed(line)),
    ensures
        command_spec(line) is Invalid,
        !(command_spec(line) is Fetch),
        step_spec(LoopState::AwaitingInput, command_spec(line)) is AwaitingInput,
{
}

} // verus!
