//! Building the request body sent to the metadata service: a JSON
//! object holding the fixed query document and one integer variable.

use vstd::prelude::*;

use crate::digits::dec_digits;
use crate::digits::u32_to_string;

verus! {

/// The opening of the request body, up to the identifier: the fixed
/// query document asking for the identifier, the three title
/// variants, the format, the genres and the medium cover-image URL,
/// followed by the variable map's key.
pub open spec fn body_prefix() -> Seq<char> {
    "{\"query\": \"query ($id: Int) { Media (id: $id) { id title { romaji english native } format genres coverImage { medium } } }\", \"variables\": {\"id\": "@
}

/// The closing of the request body, after the identifier.
pub open spec fn body_suffix() -> Seq<char> {
    "}}"@
}

/// The whole request body for one identifier.
pub open spec fn request_body_spec(id: u32) -> Seq<char> {
    body_prefix() + dec_digits(id as nat) + body_suffix()
}

/// Build the JSON request body carrying the fixed query document and
/// the queried identifier.
pub fn build_request_body(id: u32) -> (r: String)
    ensures
        r@ == request_body_spec(id),
{
    let mut r = String::from_str(
        "{\"query\": \"query ($id: Int) { Media (id: $id) { id title { romaji english native } format genres coverImage { medium } } }\", \"variables\": {\"id\": ",
    );
    let digits = u32_to_string(id);
    r.append(digits.as_str());
    r.append("}}");
    proof {
        assert(r@ =~= request_body_spec(id));
    }
    r
}

} // verus!
