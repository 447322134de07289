//! Pictures of a catalog entity.

use vstd::prelude::*;

verus! {

/// A picture, by its address and its size in pixels.
#[derive(Debug, PartialEq, Eq)]
pub struct Image {
    pub url: String,
    pub width: u32,
    pub height: u32,
}

/// What an [`Image`] holds, as a mathematical value.
pub struct ImageView {
    pub url: Seq<char>,
    pub width: u32,
    pub height: u32,
}

impl View for Image {
    type V = ImageView;

    open spec fn view(&self) -> ImageView {
        ImageView { url: self.url@, width: self.width, height: self.height }
    }
}

impl DeepView for Image {
    type V = ImageView;

    open spec fn deep_view(&self) -> ImageView {
        self@
    }
}

impl Clone for Image {
    fn clone(&self) -> (r: Self)
        ensures
            r == *self,
    {
        Image { url: self.url.clone(), width: self.width, height: self.height }
    }
}

} // verus!
