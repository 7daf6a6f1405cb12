//! Tests for the status classifier and the shared helpers.

use r_efi::efi::Status;
use uefi_spec::errors::{NullPtrError, StatusError, StatusNullError};
use uefi_spec::helpers::{code_to_result, null_check_mut, status_to_result};

/// The high bit of a status code marks the error class, as the firmware
/// interface defines it.
const ERROR_MASK: usize = 0x80 << (usize::BITS as usize - 8);

#[test]
fn success_code_is_ok() {
    assert_eq!(code_to_result(0), Ok(()));
    assert_eq!(status_to_result(Status::SUCCESS), Ok(()));
}

#[test]
fn error_codes_fail_as_errors() {
    let out_of_resources = 9 | ERROR_MASK;
    assert_eq!(
        code_to_result(out_of_resources),
        Err(StatusError::UefiError(out_of_resources))
    );
    assert_eq!(
        status_to_result(Status::OUT_OF_RESOURCES),
        Err(StatusError::UefiError(out_of_resources))
    );
    let load_error = 1 | ERROR_MASK;
    assert_eq!(
        status_to_result(Status::LOAD_ERROR),
        Err(StatusError::UefiError(load_error))
    );
}

#[test]
fn warning_codes_fail_as_warnings() {
    assert_eq!(code_to_result(1), Err(StatusError::UefiWarning(1)));
    assert_eq!(
        status_to_result(Status::WARN_UNKNOWN_GLYPH),
        Err(StatusError::UefiWarning(1))
    );
    assert_eq!(
        status_to_result(Status::WARN_STALE_DATA),
        Err(StatusError::UefiWarning(5))
    );
}

#[test]
fn reserved_classes_count_as_success() {
    // top two bits 01 and 11 are neither the error class nor the warning class
    let oem_code = ERROR_MASK >> 1;
    assert_eq!(code_to_result(oem_code), Ok(()));
    assert_eq!(code_to_result(ERROR_MASK | oem_code | 4), Ok(()));
}

#[test]
fn round_trip_through_raw_status() {
    for code in [0usize, 1, 5, 3 | ERROR_MASK, 21 | ERROR_MASK] {
        assert_eq!(
            status_to_result(Status::from_usize(code)),
            code_to_result(code)
        );
    }
}

#[test]
fn null_check_rejects_only_zero() {
    assert!(null_check_mut(0, "Boot Services").is_err());
    assert!(null_check_mut(1, "Boot Services").is_ok());
    assert!(null_check_mut(usize::MAX, "Boot Services").is_ok());
}

#[test]
fn error_conversions_keep_code_and_label() {
    let e: StatusNullError = StatusError::UefiError(7).into();
    assert_eq!(e, StatusNullError::UefiError(7));
    let w: StatusNullError = StatusError::UefiWarning(3).into();
    assert_eq!(w, StatusNullError::UefiWarning(3));
    let n: StatusNullError = NullPtrError::new("Global Data").into();
    assert_eq!(n, StatusNullError::NullPtrError("Global Data"));
}
