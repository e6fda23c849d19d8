use vstd::prelude::*;

pub mod auth;
pub mod error;
pub mod ids;
pub mod password;
pub mod product;
pub mod token;

verus! {

} // verus!
