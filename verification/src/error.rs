use vstd::prelude::*;

verus! {

/// Status sent when the request method is not the one the route expects.
pub const STATUS_METHOD_NOT_ALLOWED: u16 = 405;

/// Status sent when a handler meets a condition that should never occur.
pub const STATUS_INTERNAL_ERROR: u16 = 500;

/// The failures a handler may signal. Every kind carries a short description
/// that is safe to show to the caller.
#[derive(Clone, Debug, PartialEq, Eq)]
pub enum APIError {
    /// The request method does not match the route's expected method.
    MethodNotAllowed { desc: String },
    /// An expected context value is absent, or a value that is always
    /// serializable failed to serialize.
    InternalError { desc: String },
}

/// Mathematical model of an [`APIError`].
pub ghost enum APIErrorView {
    MethodNotAllowed { desc: Seq<char> },
    InternalError { desc: Seq<char> },
}

impl APIErrorView {
    /// The HTTP status that stands for this kind of failure.
    pub open spec fn status(self) -> u16 {
        match self {
            APIErrorView::MethodNotAllowed { .. } => STATUS_METHOD_NOT_ALLOWED,
            APIErrorView::InternalError { .. } => STATUS_INTERNAL_ERROR,
        }
    }

    /// The description carried by the failure.
    pub open spec fn description(self) -> Seq<char> {
        match self {
            APIErrorView::MethodNotAllowed { desc } => desc,
            APIErrorView::InternalError { desc } => desc,
        }
    }
}

impl View for APIError {
    type V = APIErrorView;

    open spec fn view(&self) -> APIErrorView {
        match self {
            APIError::MethodNotAllowed { desc } => APIErrorView::MethodNotAllowed { desc: desc@ },
            APIError::InternalError { desc } => APIErrorView::InternalError { desc: desc@ },
        }
    }
}

impl APIError {
    /// The HTTP status for this failure: 405 for a wrong method, 500 for an
    /// internal condition.
    pub fn status_code(&self) -> (code: u16)
        ensures
            code == self@.status(),
    {
        match self {
            APIError::MethodNotAllowed { .. } => STATUS_METHOD_NOT_ALLOWED,
            APIError::InternalError { .. } => STATUS_INTERNAL_ERROR,
        }
    }

    /// The description carried by this failure.
    pub fn description(&self) -> (desc: &String)
        ensures
            desc@ == self@.description(),
    {
        match self {
            APIError::MethodNotAllowed { desc } => desc,
            APIError::InternalError { desc } => desc,
        }
    }
}

} // verus!
