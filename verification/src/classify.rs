//! Sorting transport failures into those worth another attempt and those
//! that are not.

use vstd::prelude::*;

use crate::consts::{
    ERROR_GATEWAY_DEVICE_FAILED_TO_RESPOND, ERROR_ILLEGAL_DATA_VALUE,
    ERROR_INVALID_RESPONSE_HEADER, ERROR_OUT_OF_ORDER_RESPONSE, OS_ERROR_BROKEN_PIPE,
};
use crate::errors::{ErrorView, PZEMError};
use crate::transport::{FailureView, TransportFailure};

verus! {

/// `needle` appears in `haystack` as a contiguous run of characters.
pub open spec fn occurs_in(needle: Seq<char>, haystack: Seq<char>) -> bool {
    exists|start: int|
        0 <= start && start + needle.len() <= haystack.len() && #[trigger] haystack.subrange(
            start,
            start + needle.len(),
        ) == needle
}

/// The class of a transport failure.
///
/// A failure without an OS code is judged by its text: an illegal data value
/// is permanent, a silent device behind the gateway is transient, a response
/// header that does not match the request means the stream is out of step and
/// is permanent, and anything else is taken to be transient. A failure with
/// an OS code is permanent only for a broken pipe, and then keeps its text.
pub open spec fn classify_spec(failure: FailureView) -> ErrorView {
    match failure.os_code {
        None => {
            if failure.message == ERROR_ILLEGAL_DATA_VALUE@ {
                ErrorView::Misc(ERROR_ILLEGAL_DATA_VALUE@)
            } else if failure.message == ERROR_GATEWAY_DEVICE_FAILED_TO_RESPOND@ {
                ErrorView::Transient
            } else if occurs_in(ERROR_INVALID_RESPONSE_HEADER@, failure.message) {
                ErrorView::Misc(ERROR_OUT_OF_ORDER_RESPONSE@)
            } else {
                ErrorView::Transient
            }
        },
        Some(code) => {
            if code == OS_ERROR_BROKEN_PIPE {
                ErrorView::Misc(failure.message)
            } else {
                ErrorView::Transient
            }
        },
    }
}

/// `str::contains` with a string pattern: whether `needle` is a substring of
/// `haystack`, as the standard library documents it.
#[verifier::external_body]
fn contains_text(haystack: &str, needle: &str) -> (found: bool)
    ensures
        found == occurs_in(needle@, haystack@),
{
    haystack.contains(needle)
}

/// Classifies a transport failure.
pub fn classify(failure: &TransportFailure) -> (error: PZEMError)
    ensures
        error@ == classify_spec(failure@),
        failure.os_code == Some(OS_ERROR_BROKEN_PIPE) ==> error@ == ErrorView::Misc(
            failure.message@,
        ),
        failure.os_code matches Some(code) && code != OS_ERROR_BROKEN_PIPE ==> error@
            == ErrorView::Transient,
{
    match failure.os_code {
        None => {
            let illegal_value = String::from_str(ERROR_ILLEGAL_DATA_VALUE);
            let silent_device = String::from_str(ERROR_GATEWAY_DEVICE_FAILED_TO_RESPOND);
            if failure.message.eq(&illegal_value) {
                PZEMError::Misc(illegal_value)
            } else if failure.message.eq(&silent_device) {
                PZEMError::TransientError
            } else if contains_text(failure.message.as_str(), ERROR_INVALID_RESPONSE_HEADER) {
                PZEMError::Misc(String::from_str(ERROR_OUT_OF_ORDER_RESPONSE))
            } else {
                PZEMError::TransientError
            }
        },
        Some(code) => {
            if code == OS_ERROR_BROKEN_PIPE {
                PZEMError::Misc(failure.message.clone())
            } else {
                PZEMError::TransientError
            }
        },
    }
}

} // verus!
