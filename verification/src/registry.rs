//! What to do when the file that lists the known devices cannot be opened.

use vstd::prelude::*;

verus! {

/// Why the file could not be opened.
#[derive(Clone, Copy, Debug, PartialEq, Eq, Structural)]
pub enum OpenFailure {
    NotFound,
    PermissionDenied,
    Other,
}

/// What to do about a file that could not be opened for writing.
#[derive(Clone, Copy, Debug, PartialEq, Eq, Structural)]
pub enum Recovery {
    /// Make the directory that holds the file, then open it again.
    CreateParent,
    /// Make the file writable, then open it again.
    MakeWritable,
    /// Report the failure.
    GiveUp,
}

/// What to do about a file that could not be opened for writing. A missing
/// directory and a read-only file are mended, once: a second failure, and any
/// other, is reported.
pub open spec fn recovery_for(failure: OpenFailure, retried: bool) -> Recovery {
    if retried {
        Recovery::GiveUp
    } else {
        match failure {
            OpenFailure::NotFound => Recovery::CreateParent,
            OpenFailure::PermissionDenied => Recovery::MakeWritable,
            OpenFailure::Other => Recovery::GiveUp,
        }
    }
}

/// Decides what to do about a file that could not be opened for writing;
/// `retried` says whether this was the second attempt.
pub fn write_recovery(failure: OpenFailure, retried: bool) -> (recovery: Recovery)
    ensures
        recovery == recovery_for(failure, retried),
{
    if retried {
        return Recovery::GiveUp;
    }
    match failure {
        OpenFailure::NotFound => Recovery::CreateParent,
        OpenFailure::PermissionDenied => Recovery::MakeWritable,
        OpenFailure::Other => Recovery::GiveUp,
    }
}

/// Whether a file that could not be opened for reading stands for an empty
/// list: it does if it is not there.
pub fn reads_as_empty(failure: OpenFailure) -> (empty: bool)
    ensures
        empty <==> failure == OpenFailure::NotFound,
{
    match failure {
        OpenFailure::NotFound => true,
        _ => false,
    }
}

} // verus!
