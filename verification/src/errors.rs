//! The error every register operation reports.

use vstd::prelude::*;

verus! {

/// What a failed operation tells its caller.
#[derive(Debug)]
pub enum PZEMError {
    /// Permanent for this call; the text says what went wrong.
    Misc(String),
    /// Another attempt may succeed.
    TransientError,
}

/// Mathematical value of a [`PZEMError`].
pub enum ErrorView {
    Misc(Seq<char>),
    Transient,
}

impl View for PZEMError {
    type V = ErrorView;

    open spec fn view(&self) -> ErrorView {
        match self {
            PZEMError::Misc(text) => ErrorView::Misc(text@),
            PZEMError::TransientError => ErrorView::Transient,
        }
    }
}

/// Text shown for an error: a fixed prefix before the detail of a `Misc`,
/// a fixed sentence for `Transient`.
pub open spec fn display_text(e: ErrorView) -> Seq<char> {
    match e {
        ErrorView::Misc(text) => "Misc error: "@ + text,
        ErrorView::Transient => "Transient Error reported"@,
    }
}

impl PZEMError {
    /// Whether another attempt may help.
    pub fn is_transient(&self) -> (b: bool)
        ensures
            b == (self@ == ErrorView::Transient),
    {
        match self {
            PZEMError::Misc(_) => false,
            PZEMError::TransientError => true,
        }
    }

    /// The human-readable text of this error.
    pub fn to_string(&self) -> (text: String)
        ensures
            text@ == display_text(self@),
    {
        match self {
            PZEMError::Misc(detail) => {
                let mut text = String::from_str("Misc error: ");
                text.append(detail.as_str());
                text
            },
            PZEMError::TransientError => String::from_str("Transient Error reported"),
        }
    }
}

impl Clone for PZEMError {
    fn clone(&self) -> (copy: Self)
        ensures
            copy@ == self@,
    {
        match self {
            PZEMError::Misc(detail) => PZEMError::Misc(detail.clone()),
            PZEMError::TransientError => PZEMError::TransientError,
        }
    }
}

impl PartialEq for PZEMError {
    fn eq(&self, other: &Self) -> (same: bool) {
        match self {
            PZEMError::Misc(a) => match other {
                PZEMError::Misc(b) => a.eq(b),
                PZEMError::TransientError => false,
            },
            PZEMError::TransientError => match other {
                PZEMError::Misc(_) => false,
                PZEMError::TransientError => true,
            },
        }
    }
}

impl vstd::std_specs::cmp::PartialEqSpecImpl for PZEMError {
    open spec fn obeys_eq_spec() -> bool {
        true
    }

    open spec fn eq_spec(&self, other: &Self) -> bool {
        self@ == other@
    }
}

} // verus!
