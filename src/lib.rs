use vstd::prelude::*;

pub mod address;
pub mod config;
pub mod list_laws;
pub mod lists;
pub mod statements;
pub mod text;
pub mod version;

verus! {

} // verus!
