use vstd::prelude::*;

pub mod error;
pub mod metrics;
pub mod oracle;
pub mod registry;

verus! {

} // verus!
