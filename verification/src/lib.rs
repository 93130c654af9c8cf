//! A verified client library for a media-metadata GraphQL service.
//!
//! The library holds the logic of the client pipeline: building the
//! query body for an identifier, modelling the decoded response,
//! resolving a display title, deciding what the presenter prints,
//! substituting a placeholder when cover art cannot be decoded, and
//! the state machine of the interactive read loop. The network
//! calls, the terminal renderer and the JSON decode stay outside;
//! they hand the library plain values and take plain values back.

use vstd::prelude::*;

mod cover;
mod digits;
mod laws;
mod model;
mod present;
mod query;
mod repl;

pub use cover::image_decode_ok;
pub use cover::make_cover;
pub use cover::AnilistImage;
pub use digits::all_digits;
pub use digits::dec_digits;
pub use digits::dec_val;
pub use digits::lemma_dec_round_trip;
pub use digits::parse_u32;
pub use digits::trim;
pub use digits::trimmed;
pub use digits::u32_to_string;
pub use laws::lemma_absent_record;
pub use laws::lemma_exit_terminates;
pub use laws::lemma_invalid_line_stays_local;
pub use laws::lemma_missing_cover_still_prints;
pub use laws::lemma_presentation_ignores_image;
pub use laws::lemma_title_resolution;
pub use model::cover_request_spec;
pub use model::resolved_title;
pub use model::CoverImage;
pub use model::Data;
pub use model::Media;
pub use model::Title;
pub use present::entry_text;
pub use present::genres_text;
pub use present::not_found_text;
pub use present::presentation;
pub use present::render_genres;
pub use present::AnilistEntry;
pub use query::build_request_body;
pub use query::request_body_spec;
pub use repl::command_spec;
pub use repl::exit_like;
pub use repl::id_like;
pub use repl::interpret_line;
pub use repl::outcome_text;
pub use repl::report;
pub use repl::step;
pub use repl::step_spec;
pub use repl::Command;
pub use repl::FetchError;
pub use repl::LoopState;

verus! {

} // verus!
