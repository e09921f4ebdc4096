//! The failures that the service reports, by kind.

use vstd::prelude::*;

verus! {

/// Why an operation failed.
#[derive(Clone, Debug, PartialEq, Eq)]
pub enum ServiceError {
    /// The data directory, the database file or a migration could not be set up.
    Configuration(String),
    /// The addressed user does not exist.
    NotFound,
    /// The request names nothing to do.
    Validation,
    /// The engine failed; its own words are passed through.
    Engine(String),
}

pub enum ServiceErrorView {
    Configuration(Seq<char>),
    NotFound,
    Validation,
    Engine(Seq<char>),
}

impl ServiceErrorView {
    /// The one-line message that stands for the failure.
    pub open spec fn message(self) -> Seq<char> {
        match self {
            ServiceErrorView::Configuration(detail) => detail,
            ServiceErrorView::NotFound => "User not found"@,
            ServiceErrorView::Validation => "No fields to update"@,
            ServiceErrorView::Engine(detail) => detail,
        }
    }
}

impl View for ServiceError {
    type V = ServiceErrorView;

    open spec fn view(&self) -> ServiceErrorView {
        match *self {
            ServiceError::Configuration(detail) => ServiceErrorView::Configuration(detail@),
            ServiceError::NotFound => ServiceErrorView::NotFound,
            ServiceError::Validation => ServiceErrorView::Validation,
            ServiceError::Engine(detail) => ServiceErrorView::Engine(detail@),
        }
    }
}

impl ServiceError {
    /// The one-line message that stands for the failure.
    pub fn message(&self) -> (text: String)
        ensures
            text@ == self@.message(),
    {
        match self {
            ServiceError::Configuration(detail) => detail.clone(),
            ServiceError::NotFound => "User not found".to_owned(),
            ServiceError::Validation => "No fields to update".to_owned(),
            ServiceError::Engine(detail) => detail.clone(),
        }
    }
}

} // verus!
