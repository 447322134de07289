use vstd::prelude::*;

verus! {

/// Keeps the information traits of the model closed to other crates.
pub trait Sealed {

}

} // verus!
