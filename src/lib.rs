use vstd::prelude::*;

pub mod browser;
pub mod catalog;
pub mod geometry;
pub mod selection;

verus! {

} // verus!
