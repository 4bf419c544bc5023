//! Why a run could not produce an outcome.

use crate::text::{signed_decimal_spec, to_signed_decimal};
use crate::wait::WaitError;
use vstd::prelude::*;

verus! {

#[verifier::external_type_specification]
#[verifier::external_body]
pub struct ExIoError(std::io::Error);

/// A failure of the engine itself, as opposed to an outcome of the program it ran.
#[derive(Debug)]
pub enum RunError {
    /// The toolchain or the program could not be started.
    IoError(std::io::Error),
    /// The toolchain ended unsuccessfully: its exit code, or `None` when a signal ended it.
    CompileFailed(Option<i32>),
    /// The child could not be supervised.
    WaitError(WaitError),
    /// The driver reported an event that does not fit the state of the run.
    UnexpectedEvent,
}

impl From<std::io::Error> for RunError {
    fn from(err: std::io::Error) -> (r: RunError)
        ensures
            r == RunError::IoError(err),
    {
        RunError::IoError(err)
    }
}

impl vstd::std_specs::convert::FromSpecImpl<std::io::Error> for RunError {
    open spec fn obeys_from_spec() -> bool {
        true
    }

    open spec fn from_spec(v: std::io::Error) -> RunError {
        RunError::IoError(v)
    }
}

impl From<WaitError> for RunError {
    fn from(err: WaitError) -> (r: RunError)
        ensures
            r == RunError::WaitError(err),
    {
        RunError::WaitError(err)
    }
}

impl vstd::std_specs::convert::FromSpecImpl<WaitError> for RunError {
    open spec fn obeys_from_spec() -> bool {
        true
    }

    open spec fn from_spec(v: WaitError) -> RunError {
        RunError::WaitError(v)
    }
}

/// Relies on std's `Display` for `io::Error`.
#[verifier::external_body]
fn io_error_text(e: &std::io::Error) -> (r: String) {
    e.to_string()
}

impl RunError {
    /// A human-readable account of the failure, naming its cause. An I/O error renders
    /// as `I/O error: ` and the error's own text; a supervision failure as
    /// `Wait error: ` and the message of the `WaitError`.
    pub fn message(&self) -> (r: String)
        ensures
            match *self {
                RunError::IoError(_) => "I/O error: "@.is_prefix_of(r@),
                RunError::CompileFailed(Some(code)) => r@ == "could not compile: the toolchain exited with code "@
                    + signed_decimal_spec(code as int),
                RunError::CompileFailed(None) => r@ == "could not compile: a signal ended the toolchain"@,
                RunError::WaitError(_) => "Wait error: "@.is_prefix_of(r@),
                RunError::UnexpectedEvent => r@ == "supervision received an event out of order"@,
            },
    {
        match self {
            RunError::IoError(e) => {
                let mut r = String::from_str("I/O error: ");
                r.append(io_error_text(e).as_str());
                r
            },
            RunError::CompileFailed(Some(code)) => {
                let mut r = String::from_str("could not compile: the toolchain exited with code ");
                r.append(to_signed_decimal(*code as i64).as_str());
                r
            },
            RunError::CompileFailed(None) => String::from_str("could not compile: a signal ended the toolchain"),
            RunError::WaitError(w) => {
                let mut r = String::from_str("Wait error: ");
                r.append(w.message().as_str());
                r
            },
            RunError::UnexpectedEvent => String::from_str("supervision received an event out of order"),
        }
    }
}

} // verus!
