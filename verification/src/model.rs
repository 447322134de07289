//! The entities of the catalog and what they are made of.

pub mod artist;
pub mod external_urls;
pub mod image;
pub mod object_type;

pub use external_urls::ExternalUrls;
pub use image::Image;

use vstd::prelude::*;

verus! {

/// How complete the description of an entity is.
#[derive(Debug, Clone, Copy, PartialEq, Eq, Structural)]
pub enum Tier {
    /// Everything the catalog knows.
    Full,
    /// What the catalog attaches to other entities: no more than the
    /// identifier beyond what every entity has.
    Partial,
    /// What a file of the user's own gives: no identifier.
    Local,
}

} // verus!
