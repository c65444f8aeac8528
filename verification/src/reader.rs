//! What the client makes of a finished request.

use vstd::prelude::*;

use crate::classify::{classify, classify_spec};
use crate::errors::{display_text, ErrorView, PZEMError};
use crate::transport::{FailureView, ReadOutcome, ReadOutcomeView, TransportFailure, Word};

verus! {

/// Mathematical value of a result whose error is a [`PZEMError`].
pub open spec fn result_view<T>(result: Result<T, PZEMError>) -> Result<T, ErrorView> {
    match result {
        Ok(value) => Ok(value),
        Err(error) => Err(error@),
    }
}

/// Mathematical value of the result of a read.
pub open spec fn words_view(result: Result<Vec<Word>, PZEMError>) -> Result<Seq<Word>, ErrorView> {
    match result {
        Ok(words) => Ok(words@),
        Err(error) => Err(error@),
    }
}

/// The verdict on one read attempt.
///
/// An answer is handed on as it came. A timeout is a transient failure, and
/// a reported failure is classified.
pub open spec fn attempt_verdict(outcome: ReadOutcomeView) -> Result<Seq<Word>, ErrorView> {
    match outcome {
        ReadOutcomeView::Words(words) => Ok(words),
        ReadOutcomeView::TimedOut => Err(ErrorView::Transient),
        ReadOutcomeView::Failed(failure) => Err(classify_spec(failure)),
    }
}

/// Judges one read attempt.
pub fn read_attempt_result(outcome: ReadOutcome) -> (result: Result<Vec<Word>, PZEMError>)
    ensures
        words_view(result) == attempt_verdict(outcome@),
{
    match outcome {
        ReadOutcome::Words(words) => Ok(words),
        ReadOutcome::TimedOut => Err(PZEMError::TransientError),
        ReadOutcome::Failed(failure) => Err(classify(&failure)),
    }
}

/// The verdict on a register write: a failure is permanent and keeps the
/// transport's text.
pub open spec fn write_verdict(failure: Option<FailureView>) -> Result<(), ErrorView> {
    match failure {
        None => Ok(()),
        Some(failure) => Err(ErrorView::Misc(failure.message)),
    }
}

/// Judges a register write.
pub fn write_result(outcome: Result<(), TransportFailure>) -> (result: Result<(), PZEMError>)
    ensures
        result_view(result) == write_verdict(crate::transport::write_failure(outcome)),
{
    match outcome {
        Ok(_) => Ok(()),
        Err(failure) => Err(PZEMError::Misc(failure.message)),
    }
}

/// The error a caller of a decoded read sees: always permanent, carrying the
/// text of the failure that ended the read.
pub open spec fn surfaced(error: ErrorView) -> ErrorView {
    ErrorView::Misc(display_text(error))
}

/// Wraps the failure that ended a read for the caller of a decoded read.
pub fn surface(error: &PZEMError) -> (wrapped: PZEMError)
    ensures
        wrapped@ == surfaced(error@),
{
    PZEMError::Misc(error.to_string())
}

} // verus!
