//! The one error type of the fixture.

use vstd::prelude::*;
use solana_sdk::program_error::ProgramError;
use crate::sdk::program_error_text;

verus! {

/// Why an operation of the fixture failed.
#[derive(Debug, PartialEq, Eq)]
pub enum MintFixtureError {
    /// The networked backend refused the transaction; its report in words.
    Client(String),
    /// The in-process backend refused the transaction; its report in words.
    Banks(String),
    /// An instruction could not be built.
    Program(ProgramError),
}

impl From<ProgramError> for MintFixtureError {
    fn from(value: ProgramError) -> (e: Self) {
        MintFixtureError::Program(value)
    }
}

impl vstd::std_specs::convert::FromSpecImpl<ProgramError> for MintFixtureError {
    open spec fn obeys_from_spec() -> bool {
        true
    }

    open spec fn from_spec(value: ProgramError) -> Self {
        MintFixtureError::Program(value)
    }
}

impl MintFixtureError {
    /// The error in words: the wrapped report itself.
    pub fn message(&self) -> (text: String)
        ensures
            self matches MintFixtureError::Client(report) ==> text@ == report@,
            self matches MintFixtureError::Banks(report) ==> text@ == report@,
    {
        match self {
            MintFixtureError::Client(report) => report.clone(),
            MintFixtureError::Banks(report) => report.clone(),
            MintFixtureError::Program(error) => program_error_text(error),
        }
    }
}

} // verus!
