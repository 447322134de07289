//! A typed model of the artists of a remote music catalog.
//!
//! The catalog describes one artist with more or less detail depending on the
//! endpoint that answers. The [`model`] module turns such an answer into one
//! of three artist types, each of which offers exactly the information that
//! it holds, and converts between them without making up or silently
//! keeping data.

pub mod error;
pub mod model;
mod private;
mod text;
