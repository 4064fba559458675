//! How a transfer can fail.

use vstd::prelude::*;

verus! {

/// `libssh_rs::Error`, which is carried along and never looked into.
#[verifier::external_type_specification]
#[verifier::external_body]
pub struct ExSshError(libssh_rs::Error);

/// Why an operation on the device failed.
#[derive(Debug)]
pub enum TransferError {
    /// The device refused: a command ended with the status `code`, which is
    /// not zero, or the operation could not apply, with the code 1.
    ExitCode { code: i32, reason: String },
    /// The session failed.
    Transport(libssh_rs::Error),
    /// Reading the source or writing the sink failed on this side.
    Io(std::io::Error),
}

impl From<std::io::Error> for TransferError {
    fn from(value: std::io::Error) -> (r: TransferError) {
        TransferError::Io(value)
    }
}

impl vstd::std_specs::convert::FromSpecImpl<std::io::Error> for TransferError {
    open spec fn obeys_from_spec() -> bool {
        true
    }

    open spec fn from_spec(value: std::io::Error) -> TransferError {
        TransferError::Io(value)
    }
}

impl From<libssh_rs::Error> for TransferError {
    fn from(value: libssh_rs::Error) -> (r: TransferError) {
        TransferError::Transport(value)
    }
}

impl vstd::std_specs::convert::FromSpecImpl<libssh_rs::Error> for TransferError {
    open spec fn obeys_from_spec() -> bool {
        true
    }

    open spec fn from_spec(value: libssh_rs::Error) -> TransferError {
        TransferError::Transport(value)
    }
}

/// How an operation ended, as contracts speak of it.
pub enum Verdict {
    Success,
    ExitCode { code: i32, reason: Seq<char> },
    Transport(libssh_rs::Error),
    Io(std::io::Error),
}

/// The verdict that a result stands for.
pub open spec fn verdict(result: Result<(), TransferError>) -> Verdict {
    match result {
        Ok(()) => Verdict::Success,
        Err(TransferError::ExitCode { code, reason }) => Verdict::ExitCode {
            code,
            reason: reason@,
        },
        Err(TransferError::Transport(e)) => Verdict::Transport(e),
        Err(TransferError::Io(e)) => Verdict::Io(e),
    }
}

} // verus!
