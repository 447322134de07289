//! The tag by which the catalog says what kind of object it describes.

use crate::text::str_eq;
use vstd::prelude::*;

verus! {

/// The tag of an artist.
pub const TYPE_ARTIST: &'static str = "artist";

/// The tag of an artist, as a sequence of characters.
pub open spec fn type_artist() -> Seq<char> {
    "artist"@
}

/// Whether a tag is that of an artist.
pub fn is_type_artist(tag: &str) -> (r: bool)
    ensures
        r == (tag@ == type_artist()),
{
    str_eq(tag, TYPE_ARTIST)
}

} // verus!
