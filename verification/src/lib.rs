use vstd::prelude::*;

pub mod guardrails;
pub mod text;
pub mod paths;
pub mod permissions;
pub mod policy;
pub mod profile;
pub mod checks;
pub mod workspace;
pub mod requests;
pub mod doctor;
pub mod apps;
pub mod windows;
pub mod sandbox;
pub mod launch;
pub mod cli;
pub mod responses;
pub mod daemon;
pub mod listing;

verus! {
} // verus!
