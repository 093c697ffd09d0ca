//! Supervision, registration, recovery and diagnostic decisions of the RX
//! solutions runtime, with their rules stated and proved.
use vstd::prelude::*;

pub mod builtin;
pub mod decision;
pub mod execution;
pub mod execution_store;
pub mod ids;
pub mod initialization;
pub mod model;
pub mod operating_area;
pub mod plan;
pub mod text;
pub mod use_assessment;
pub mod work_use;
pub mod process;
pub mod process_identity;
pub mod registered;
pub mod registration;
pub mod supervisor;

verus! {

/// Why a supervisor operation failed.
#[derive(Debug)]
pub enum Error {
    Invalid(String),
    Storage(registration::StoreError),
    Io(String),
    Reconciliation(String),
}

/// The message of a failure.
pub open spec fn error_text(e: Error) -> Seq<char> {
    match e {
        Error::Invalid(m) => "invalid supervisor input: "@ + m@,
        Error::Io(m) => "process: "@ + m@,
        Error::Reconciliation(m) => "reconciliation required: "@ + m@,
        Error::Storage(e) => "storage: "@ + registration::refusal_text(e),
    }
}

impl Error {
    /// The message of the failure.
    pub fn message(&self) -> (r: String)
        ensures
            r@ == error_text(*self),
    {
        match self {
            Error::Invalid(m) => String::from_str("invalid supervisor input: ").concat(m.as_str()),
            Error::Io(m) => String::from_str("process: ").concat(m.as_str()),
            Error::Reconciliation(m) => String::from_str("reconciliation required: ").concat(m.as_str()),
            Error::Storage(e) => String::from_str("storage: ").concat(e.text().as_str()),
        }
    }
}

} // verus!
