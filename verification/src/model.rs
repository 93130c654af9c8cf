//! The decoded shape of a metadata response.
//!
//! The service answers a query with an envelope holding at most one
//! record; an absent record is the "entry not found" outcome, not an
//! error. Every field the upstream schema may omit is an `Option`.

use vstd::prelude::*;

verus! {

/// The three localized variants of a record's title, each of which the
/// upstream schema may omit.
pub struct Title {
    pub romaji: Option<String>,
    pub english: Option<String>,
    pub native: Option<String>,
}

/// The cover-art field of a record: at most a URL for the
/// medium-resolution image.
pub struct CoverImage {
    pub img: Option<String>,
}

/// One decoded metadata record.
pub struct Media {
    pub id: u32,
    pub title: Title,
    pub format: Option<String>,
    pub genres: Vec<String>,
    pub cover_image: Option<CoverImage>,
}

/// The outer envelope of a response: an absent record signals that no
/// entry exists for the queried identifier.
pub struct Data {
    pub media: Option<Media>,
}

/// The display title of a record: the English title where present,
/// else the romanized one, else the native one, else a fixed
/// placeholder.
pub open spec fn resolved_title(t: Title) -> Seq<char> {
    if t.english is Some {
        t.english->0@
    } else if t.romaji is Some {
        t.romaji->0@
    } else if t.native is Some {
        t.native->0@
    } else {
        "<no title>"@
    }
}

impl Title {
    /// Pick the display title, preferring English, then romanized,
    /// then native, falling back to a fixed placeholder.
    pub fn resolve(&self) -> (r: String)
        ensures
            r@ == resolved_title(*self),
    {
        if let Some(s) = &self.english {
            s.clone()
        } else if let Some(s) = &self.romaji {
            s.clone()
        } else if let Some(s) = &self.native {
            s.clone()
        } else {
            String::from_str("<no title>")
        }
    }
}

/// The URL of the cover image to fetch for a decoded envelope, where
/// there is one: the envelope must hold a record, the record a
/// cover-image field, and the field a URL.
pub open spec fn cover_request_spec(d: Data) -> Option<Seq<char>> {
    if d.media is Some && d.media->0.cover_image is Some && d.media->0.cover_image->0.img
        is Some {
        Some(d.media->0.cover_image->0.img->0@)
    } else {
        None
    }
}

impl Data {
    /// The URL of the cover image to fetch, or `None` when the record
    /// is absent or carries no URL. An absent record therefore never
    /// leads to an image request.
    pub fn cover_request(&self) -> (r: Option<String>)
        ensures
            r is Some <==> cover_request_spec(*self) is Some,
            r is Some ==> r->0@ == cover_request_spec(*self)->0,
            self.media is None ==> r is None,
    {
        if let Some(m) = &self.media {
            if let Some(c) = &m.cover_image {
                if let Some(url) = &c.img {
                    return Some(url.clone());
                }
            }
        }
        None
    }
}

} // verus!
