use vstd::prelude::*;

pub mod containers;
pub mod convert;
pub mod datetime;
pub mod ids;
pub mod json;
pub mod meta_tree;
pub mod rate_limits;
pub mod retry;
pub mod text;
pub mod tuples;
pub mod upstream;
pub mod value;

verus! {

} // verus!
