//! Access to the tiers of an artist. An artist type offers the information of
//! a tier by implementing the trait of that tier, here and nowhere else.

use super::views::CommonFieldsView;
use super::views::FullFieldsView;
use super::views::NonLocalFieldsView;
use super::CommonArtistFields;
use super::FullArtistFields;
use super::NonLocalArtistFields;
use vstd::prelude::*;

verus! {

pub trait CommonFields {
    spec fn common_view(&self) -> CommonFieldsView;

    fn common_fields(&self) -> (r: &CommonArtistFields)
        ensures
            r@ == self.common_view(),
    ;
}

pub trait FullFields {
    spec fn full_view(&self) -> FullFieldsView;

    fn full_fields(&self) -> (r: &FullArtistFields)
        ensures
            r@ == self.full_view(),
    ;
}

pub trait NonLocalFields {
    spec fn non_local_view(&self) -> NonLocalFieldsView;

    fn non_local_fields(&self) -> (r: &NonLocalArtistFields)
        ensures
            r@ == self.non_local_view(),
    ;
}

} // verus!
