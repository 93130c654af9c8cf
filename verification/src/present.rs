//! The presenter's text: what is printed for a decoded envelope.
//!
//! An absent record yields exactly the not-found notice; a present
//! record yields its identifier, resolved title, format label and
//! genre list, whatever became of the cover image.

use vstd::prelude::*;

use crate::cover::AnilistImage;
use crate::digits::dec_digits;
use crate::digits::u32_to_string;
use crate::model::resolved_title;
use crate::model::Data;
use crate::model::Media;

verus! {

/// The notice printed when the queried identifier has no record.
pub open spec fn not_found_text() -> Seq<char> {
    "Entry not found"@
}

/// The quoted form of one genre name in the printed genre list.
pub open spec fn quoted(s: Seq<char>) -> Seq<char> {
    "\""@ + s + "\""@
}

/// The comma-separated quoted genre names, without the brackets.
pub open spec fn genre_items(gs: Seq<String>) -> Seq<char>
    decreases gs.len(),
{
    if gs.len() == 0 {
        Seq::empty()
    } else if gs.len() == 1 {
        quoted(gs[0]@)
    } else {
        quoted(gs[0]@) + ", "@ + genre_items(gs.drop_first())
    }
}

/// The printed genre list: quoted names between square brackets.
pub open spec fn genres_text(gs: Seq<String>) -> Seq<char> {
    "["@ + genre_items(gs) + "]"@
}

/// The format label of a record: its format string where present.
pub open spec fn format_label(m: Media) -> Seq<char> {
    if m.format is Some {
        m.format->0@
    } else {
        "<unknown>"@
    }
}

/// The text block printed for one present record: identifier,
/// resolved display title, format label and genre list.
pub open spec fn entry_text(m: Media) -> Seq<char> {
    "\nID: "@ + dec_digits(m.id as nat) + "\nName: "@ + resolved_title(m.title) + "\nFormat: "@
        + format_label(m) + "\nGenres: "@ + genres_text(m.genres@)
}

/// What the presenter prints for a decoded envelope: the not-found
/// notice when the record is absent, else the record's text block.
/// The text depends on the envelope alone, never on the image.
pub open spec fn presentation(d: Data) -> Seq<char> {
    if d.media is None {
        not_found_text()
    } else {
        entry_text(d.media->0)
    }
}

/// Appending one genre extends the item list by a separator and the
/// quoted name.
proof fn lemma_genre_items_push(gs: Seq<String>, g: String)
    ensures
        genre_items(gs.push(g)) =~= if gs.len() == 0 {
            quoted(g@)
        } else {
            genre_items(gs) + ", "@ + quoted(g@)
        },
    decreases gs.len(),
{
    let p = gs.push(g);
    if gs.len() == 0 {
        assert(p.len() == 1);
        assert(p[0] == g);
        assert(genre_items(p) == quoted(g@));
    } else if gs.len() == 1 {
        assert(p.len() == 2);
        assert(p[0] == gs[0]);
        assert(p.drop_first() =~= seq![g]);
        assert(genre_items(p.drop_first()) == quoted(g@));
        assert(genre_items(p) =~= quoted(gs[0]@) + ", "@ + quoted(g@));
    } else {
        assert(p[0] == gs[0]);
        assert(p.drop_first() =~= gs.drop_first().push(g));
        lemma_genre_items_push(gs.drop_first(), g);
        assert(genre_items(p) == quoted(gs[0]@) + ", "@ + genre_items(p.drop_first()));
        assert(genre_items(p) =~= genre_items(gs) + ", "@ + quoted(g@));
    }
}

/// Render the genre list as quoted names between square brackets.
pub fn render_genres(gs: &Vec<String>) -> (r: String)
    ensures
        r@ == genres_text(gs@),
{
    let mut r = String::from_str("[");
    let n = gs.len();
    let mut i: usize = 0;
    while i < n
        invariant
            n == gs@.len(),
            0 <= i <= n,
            r@ == "["@ + genre_items(gs@.subrange(0, i as int)),
        decreases n - i,
    {
        if i > 0 {
            r.append(", ");
        }
        r.append("\"");
        r.append(gs[i].as_str());
        r.append("\"");
        proof {
            let pre = gs@.subrange(0, i as int);
            assert(gs@.subrange(0, i as int + 1) =~= pre.push(gs@[i as int]));
            lemma_genre_items_push(pre, gs@[i as int]);
            assert(r@ =~= "["@ + genre_items(gs@.subrange(0, i as int + 1)));
        }
        i = i + 1;
    }
    proof {
        assert(gs@.subrange(0, n as int) =~= gs@);
    }
    r.append("]");
    proof {
        assert(r@ =~= genres_text(gs@));
    }
    r
}

/// A decoded envelope paired with the cover art to show beside it.
pub struct AnilistEntry {
    pub data: Data,
    pub image: AnilistImage,
}

impl AnilistEntry {
    /// The text the presenter prints for this entry: exactly the
    /// not-found notice when the record is absent, else the record's
    /// identifier, resolved title, format label and genre list. The
    /// cover art plays no part in it.
    pub fn render(&self) -> (r: String)
        ensures
            r@ == presentation(self.data),
    {
        match &self.data.media {
            None => String::from_str("Entry not found"),
            Some(m) => {
                let mut r = String::from_str("\nID: ");
                let digits = u32_to_string(m.id);
                r.append(digits.as_str());
                r.append("\nName: ");
                let title = m.title.resolve();
                r.append(title.as_str());
                r.append("\nFormat: ");
                match &m.format {
                    Some(f) => r.append(f.as_str()),
                    None => r.append("<unknown>"),
                }
                r.append("\nGenres: ");
                let genres = render_genres(&m.genres);
                r.append(genres.as_str());
                proof {
                    assert(r@ =~= entry_text(self.data.media->0));
                }
                r
            },
        }
    }
}

} // verus!
