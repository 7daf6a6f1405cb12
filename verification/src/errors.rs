//! Error types used across the crate.

use vstd::prelude::*;

verus! {

/// Failure of a boundary call: the firmware reported a non-success status,
/// or a pointer that had to be non-null was null.
#[derive(Clone, Copy, Debug, PartialEq, Eq)]
pub enum StatusNullError {
    NullPtrError(&'static str),
    UefiWarning(usize),
    UefiError(usize),
}

/// A firmware status that did not report success; warnings and errors carry
/// the raw status code.
#[derive(Clone, Copy, Debug, PartialEq, Eq)]
pub enum StatusError {
    UefiWarning(usize),
    UefiError(usize),
}

/// A pointer that had to be non-null was null; carries the name of the
/// offending pointer.
#[derive(Clone, Copy, Debug, PartialEq, Eq)]
pub struct NullPtrError(&'static str);

impl NullPtrError {
    /// The name of the pointer that was null.
    pub closed spec fn label(self) -> &'static str {
        self.0
    }

    pub fn new(ptr_name: &'static str) -> (r: Self)
        ensures
            r.label()@ == ptr_name@,
    {
        Self(ptr_name)
    }
}

/// Misuse of the write-once global handle.
#[derive(Clone, Copy, Debug, PartialEq, Eq)]
pub enum HandleError {
    /// `init` was given a null pointer; the cell was left unchanged.
    NullArgument,
    /// `init` ran after the cell was already set; carries the value the
    /// winning caller stored, which need not be the loser's argument.
    AlreadyInitialized(usize),
    /// `get_mut` ran before any successful `init`.
    Uninitialized,
}

impl core::convert::From<StatusError> for StatusNullError {
    fn from(x: StatusError) -> Self {
        match x {
            StatusError::UefiError(e) => Self::UefiError(e),
            StatusError::UefiWarning(w) => Self::UefiWarning(w),
        }
    }
}

impl vstd::std_specs::convert::FromSpecImpl<StatusError> for StatusNullError {
    open spec fn obeys_from_spec() -> bool {
        true
    }

    open spec fn from_spec(x: StatusError) -> Self {
        match x {
            StatusError::UefiError(e) => StatusNullError::UefiError(e),
            StatusError::UefiWarning(w) => StatusNullError::UefiWarning(w),
        }
    }
}

impl core::convert::From<NullPtrError> for StatusNullError {
    fn from(x: NullPtrError) -> Self {
        Self::NullPtrError(x.0)
    }
}

impl vstd::std_specs::convert::FromSpecImpl<NullPtrError> for StatusNullError {
    open spec fn obeys_from_spec() -> bool {
        true
    }

    open spec fn from_spec(x: NullPtrError) -> Self {
        StatusNullError::NullPtrError(x.label())
    }
}

} // verus!
