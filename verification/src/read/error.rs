//! The ways in which a load can fail.
use vstd::prelude::*;
use vstd::string::StringExecFns;

verus! {

/// Why a load was given up. Every error is fatal to the load in progress.
#[derive(Debug, PartialEq, Eq)]
pub enum LefReadError {
    /// The event source reported a syntax or lexical problem. Holds its
    /// message, word for word.
    EventSourceFailure(String),
    /// A keyword did not match any value of its field. Holds the keyword.
    UnknownEnumerationValue(String),
    /// A construct violates a hard structural invariant of the model.
    StructuralViolation,
    /// A construct is recognized but the model does not cover it.
    UnsupportedConstruct,
}

/// What a `LefReadError` holds.
pub enum LefReadErrorView {
    EventSourceFailure(Seq<char>),
    UnknownEnumerationValue(Seq<char>),
    StructuralViolation,
    UnsupportedConstruct,
}

impl DeepView for LefReadError {
    type V = LefReadErrorView;

    open spec fn deep_view(&self) -> LefReadErrorView {
        match self {
            LefReadError::EventSourceFailure(message) => LefReadErrorView::EventSourceFailure(
                message@,
            ),
            LefReadError::UnknownEnumerationValue(keyword) => {
                LefReadErrorView::UnknownEnumerationValue(keyword@)
            },
            LefReadError::StructuralViolation => LefReadErrorView::StructuralViolation,
            LefReadError::UnsupportedConstruct => LefReadErrorView::UnsupportedConstruct,
        }
    }
}

impl Clone for LefReadError {
    fn clone(&self) -> (res: Self)
        ensures
            res.deep_view() == self.deep_view(),
    {
        match self {
            LefReadError::EventSourceFailure(message) => LefReadError::EventSourceFailure(
                message.clone(),
            ),
            LefReadError::UnknownEnumerationValue(keyword) => {
                LefReadError::UnknownEnumerationValue(keyword.clone())
            },
            LefReadError::StructuralViolation => LefReadError::StructuralViolation,
            LefReadError::UnsupportedConstruct => LefReadError::UnsupportedConstruct,
        }
    }
}

impl LefReadErrorView {
    /// The text by which the error is reported.
    pub open spec fn message(self) -> Seq<char> {
        match self {
            LefReadErrorView::EventSourceFailure(message) => message,
            LefReadErrorView::UnknownEnumerationValue(keyword) => "unknown keyword: "@ + keyword,
            LefReadErrorView::StructuralViolation => "structural violation"@,
            LefReadErrorView::UnsupportedConstruct => "unsupported construct"@,
        }
    }
}

impl LefReadError {
    /// The error for a keyword that names no value of its field.
    pub fn unknown_keyword(keyword: &str) -> (res: Self)
        ensures
            res.deep_view() == LefReadErrorView::UnknownEnumerationValue(keyword@),
    {
        LefReadError::UnknownEnumerationValue(keyword.to_owned())
    }

    /// Writes the error as a message.
    pub fn to_string(&self) -> (res: String)
        ensures
            res@ == self.deep_view().message(),
    {
        match self {
            LefReadError::EventSourceFailure(message) => message.clone(),
            LefReadError::UnknownEnumerationValue(keyword) => {
                "unknown keyword: ".to_owned().concat(keyword.as_str())
            },
            LefReadError::StructuralViolation => "structural violation".to_owned(),
            LefReadError::UnsupportedConstruct => "unsupported construct".to_owned(),
        }
    }
}

/// The outcome of a step of a load.
pub type LefReadResult<T> = Result<T, LefReadError>;

} // verus!
