use vstd::prelude::*;

pub mod dispatch;
pub mod laws;
pub mod problem;
pub mod semantic;
pub mod store;
pub mod table;
pub mod validate;

verus! {

} // verus!
