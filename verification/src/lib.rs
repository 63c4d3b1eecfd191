//! Shimesu library core.
use vstd::prelude::*;

pub mod aws_error;
pub mod certificate;
pub mod cli;
pub mod cloudformation;
pub mod deployment;
pub mod config;
pub mod destroy;
pub mod digest;
pub mod doctor;
pub mod error;
pub mod publish;
pub mod site;
pub mod stack;
pub mod stack_input;
pub mod status;
pub mod support;
pub mod teardown;
pub mod text;
pub mod validation;

verus! {
} // verus!
