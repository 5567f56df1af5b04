use vstd::prelude::*;

pub mod config;
pub mod gui;
pub mod input;
pub mod ipc;
pub mod midi;
pub mod output;
pub mod shared;
pub mod text;
pub mod utils;

verus! {

/// `std::time::Instant`, carried as a frame's capture time and never read.
#[verifier::external_type_specification]
#[verifier::external_body]
pub struct ExInstant(std::time::Instant);

} // verus!
