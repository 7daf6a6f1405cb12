//! Classification of raw firmware status codes, and the shared null check.

use vstd::prelude::*;

verus! {

use crate::errors::{NullPtrError, StatusError};

/// One quarter of the address space: dividing a status code by this yields
/// its top two bits, which hold the code's class.
pub const STATUS_CLASS_DIVISOR: usize = usize::MAX / 4 + 1;

/// The error class: the top two bits of the code are `10`.
pub open spec fn error_class(code: usize) -> bool {
    code / STATUS_CLASS_DIVISOR == 2
}

/// The warning class: the top two bits of the code are `00`.
pub open spec fn warning_class(code: usize) -> bool {
    code / STATUS_CLASS_DIVISOR == 0
}

/// What classifying a raw status code yields: error-class codes fail as
/// errors, non-zero warning-class codes fail as warnings, and everything
/// else (zero, and the reserved classes) counts as success.
pub open spec fn spec_status_result(code: usize) -> Result<(), StatusError> {
    if error_class(code) {
        Err(StatusError::UefiError(code))
    } else if code != 0 && warning_class(code) {
        Err(StatusError::UefiWarning(code))
    } else {
        Ok(())
    }
}

/// Classify a raw numeric status code.
pub fn code_to_result(code: usize) -> (r: Result<(), StatusError>)
    ensures
        r == spec_status_result(code),
{
    let class: usize = code / STATUS_CLASS_DIVISOR;
    if class == 2 {
        Err(StatusError::UefiError(code))
    } else if code != 0 && class == 0 {
        Err(StatusError::UefiWarning(code))
    } else {
        Ok(())
    }
}

/// Declares r_efi's `Status` so that it can stand in signatures: one opaque
/// machine word carrying a raw firmware status code.
#[verifier::external_type_specification]
#[verifier::external_body]
pub struct ExStatus(r_efi::efi::Status);

/// The integer representation a raw firmware status holds.
pub uninterp spec fn status_code(s: r_efi::efi::Status) -> usize;

/// Relies on r_efi's `Status::as_usize`: returns the status's underlying
/// integer representation, a function of the status value alone.
pub assume_specification[ r_efi::efi::Status::as_usize ](s: &r_efi::efi::Status) -> (r: usize)
    ensures
        r == status_code(*s),
;

/// Classify a firmware status: errors and warnings both fail, since a caller
/// on the allocation path cannot act on partial success.
pub fn status_to_result(status: r_efi::efi::Status) -> (r: Result<(), StatusError>)
    ensures
        r == spec_status_result(status_code(status)),
{
    code_to_result(status.as_usize())
}

/// Null check on the address of a caller-supplied pointer: rejects address
/// zero, naming the pointer in the error.
pub fn null_check_mut(ptr: usize, err: &'static str) -> (r: Result<(), NullPtrError>)
    ensures
        ptr == 0 <==> r is Err,
        r matches Err(e) ==> e.label()@ == err@,
{
    if ptr == 0 {
        Err(NullPtrError::new(err))
    } else {
        Ok(())
    }
}

} // verus!
