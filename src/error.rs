//! The ways in which a run can fail.
use vstd::prelude::*;
use crate::text::push_all;

verus! {

/// Why a run stopped. Every one of them ends the run with exit code 1.
#[derive(Clone, Copy, Debug, PartialEq, Eq, Structural)]
pub enum RunError {
    /// The image file to write does not exist.
    InputFileNotFound,
    /// The disk enumeration could not be queried.
    EnumerationFailure,
    /// No removable disk was found.
    NoDevicesFound,
    /// The operator's answer is no index.
    SelectionParseError,
    /// The operator's index names no listed disk.
    SelectionOutOfRange,
    /// The chosen disk's drive letter maps to no physical drive.
    AddressResolutionFailure,
    /// The privileged helper could not be started.
    DispatchFailure,
    /// The privileged helper ran and reported failure.
    CopyFailure,
}

/// The message that reports each failure to the operator.
pub open spec fn message_text(e: RunError) -> Seq<char> {
    match e {
        RunError::InputFileNotFound => seq!['f', 'i', 'l', 'e', ' ', 'n', 'o', 't', ' ', 'f', 'o', 'u', 'n', 'd'],
        RunError::EnumerationFailure => seq!['f', 'a', 'i', 'l', 'e', 'd', ' ', 't', 'o', ' ', 'l', 'i', 's', 't', ' ', 'd', 'i', 's', 'k', 's'],
        RunError::NoDevicesFound => seq!['n', 'o', ' ', 'd', 'e', 'v', 'i', 'c', 'e', 's', ' ', 'f', 'o', 'u', 'n', 'd'],
        RunError::SelectionParseError => seq!['i', 'n', 'v', 'a', 'l', 'i', 'd', ' ', 'i', 'n', 'p', 'u', 't'],
        RunError::SelectionOutOfRange => seq!['i', 'n', 'v', 'a', 'l', 'i', 'd', ' ', 'i', 'n', 'd', 'e', 'x'],
        RunError::AddressResolutionFailure => seq!['f', 'a', 'i', 'l', 'e', 'd', ' ', 't', 'o', ' ', 'd', 'e', 't', 'e', 'r', 'm', 'i', 'n', 'e', ' ', 'p', 'h', 'y', 's', 'i', 'c', 'a', 'l', ' ', 'd', 'r', 'i', 'v', 'e'],
        RunError::DispatchFailure => seq!['f', 'a', 'i', 'l', 'e', 'd', ' ', 't', 'o', ' ', 'r', 'u', 'n', ' ', 'c', 'o', 'm', 'm', 'a', 'n', 'd'],
        RunError::CopyFailure => seq!['c', 'o', 'p', 'y', ' ', 'f', 'a', 'i', 'l', 'e', 'd'],
    }
}

impl RunError {
    /// The process exit code of a run that ends with this failure.
    pub fn exit_code(&self) -> (r: i32)
        ensures
            r == 1,
    {
        1
    }

    /// The short message shown to the operator.
    pub fn message(&self) -> (r: String)
        ensures
            r@ == message_text(*self),
    {
        let mut s = String::new();
        match self {
            RunError::InputFileNotFound => push_all(&mut s, &['f', 'i', 'l', 'e', ' ', 'n', 'o', 't', ' ', 'f', 'o', 'u', 'n', 'd']),
            RunError::EnumerationFailure => push_all(&mut s, &['f', 'a', 'i', 'l', 'e', 'd', ' ', 't', 'o', ' ', 'l', 'i', 's', 't', ' ', 'd', 'i', 's', 'k', 's']),
            RunError::NoDevicesFound => push_all(&mut s, &['n', 'o', ' ', 'd', 'e', 'v', 'i', 'c', 'e', 's', ' ', 'f', 'o', 'u', 'n', 'd']),
            RunError::SelectionParseError => push_all(&mut s, &['i', 'n', 'v', 'a', 'l', 'i', 'd', ' ', 'i', 'n', 'p', 'u', 't']),
            RunError::SelectionOutOfRange => push_all(&mut s, &['i', 'n', 'v', 'a', 'l', 'i', 'd', ' ', 'i', 'n', 'd', 'e', 'x']),
            RunError::AddressResolutionFailure => push_all(&mut s, &['f', 'a', 'i', 'l', 'e', 'd', ' ', 't', 'o', ' ', 'd', 'e', 't', 'e', 'r', 'm', 'i', 'n', 'e', ' ', 'p', 'h', 'y', 's', 'i', 'c', 'a', 'l', ' ', 'd', 'r', 'i', 'v', 'e']),
            RunError::DispatchFailure => push_all(&mut s, &['f', 'a', 'i', 'l', 'e', 'd', ' ', 't', 'o', ' ', 'r', 'u', 'n', ' ', 'c', 'o', 'm', 'm', 'a', 'n', 'd']),
            RunError::CopyFailure => push_all(&mut s, &['c', 'o', 'p', 'y', ' ', 'f', 'a', 'i', 'l', 'e', 'd']),
        }
        assert(s@ =~= message_text(*self));
        s
    }
}

} // verus!
