use vstd::prelude::*;

pub mod text;
pub mod profile;
pub mod output;
pub mod status;
pub mod env;
pub mod memory;
pub mod json;
pub mod bridge;
pub mod ops;
pub mod catalog;
pub mod runtime;
pub mod provider;
pub mod create;
pub mod journal;

verus! {
} // verus!
