use vstd::prelude::*;

pub mod entry;
pub mod file;
pub mod link;
pub mod log;
pub mod text;
pub mod util;
pub mod writer;

verus! {

} // verus!
