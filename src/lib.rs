use vstd::prelude::*;

pub mod codec;
pub mod buffer;
pub mod call;
pub mod error;
pub mod guest;
pub mod import;
pub mod locator;
pub mod memory;
pub mod registry;

verus! {

} // verus!
