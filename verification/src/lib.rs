use vstd::prelude::*;

pub mod menu;
pub mod window;

verus! {
} // verus!
