use vstd::prelude::*;
use crate::error::APIError;
use crate::error::APIErrorView;

verus! {

/// Status of every successful read.
pub const STATUS_OK: u16 = 200;

/// What a handler hands back on success: the serialized JSON body and the
/// status to send with it.
#[derive(Clone, Debug, PartialEq, Eq)]
pub struct Success {
    pub status: u16,
    pub body: String,
}

/// Mathematical model of a [`Success`].
pub ghost struct SuccessView {
    pub status: u16,
    pub body: Seq<char>,
}

impl View for Success {
    type V = SuccessView;

    open spec fn view(&self) -> SuccessView {
        SuccessView { status: self.status, body: self.body@ }
    }
}

/// The sole return contract of a handler.
pub type APIResult = Result<Success, APIError>;

/// Mathematical model of an [`APIResult`].
pub open spec fn result_view(result: APIResult) -> Result<SuccessView, APIErrorView> {
    match result {
        Ok(success) => Ok(success@),
        Err(error) => Err(error@),
    }
}

/// The content type announced with a response body.
#[derive(Clone, Copy, Debug, PartialEq, Eq, Structural)]
pub enum ContentType {
    /// `application/json`, sent with every success payload.
    Json,
    /// `text/plain`, sent with every error description.
    PlainText,
}

/// A response as it goes on the wire: status, content type and body.
#[derive(Clone, Debug, PartialEq, Eq)]
pub struct Response {
    pub status: u16,
    pub content_type: ContentType,
    pub body: String,
}

/// Mathematical model of a [`Response`].
pub ghost struct ResponseView {
    pub status: u16,
    pub content_type: ContentType,
    pub body: Seq<char>,
}

impl View for Response {
    type V = ResponseView;

    open spec fn view(&self) -> ResponseView {
        ResponseView { status: self.status, content_type: self.content_type, body: self.body@ }
    }
}

/// The response that stands for a handler's result: a success keeps its status
/// and body and is announced as JSON; a failure becomes the status of its kind
/// with its description as a plain-text body.
pub open spec fn envelope(result: Result<SuccessView, APIErrorView>) -> ResponseView {
    match result {
        Ok(success) => ResponseView {
            status: success.status,
            content_type: ContentType::Json,
            body: success.body,
        },
        Err(error) => ResponseView {
            status: error.status(),
            content_type: ContentType::PlainText,
            body: error.description(),
        },
    }
}

/// Wraps a serialized body as a success with status 200.
pub fn success_response(body: String) -> (success: Success)
    ensures
        success@ == (SuccessView { status: STATUS_OK, body: body@ }),
{
    Success { status: STATUS_OK, body }
}

/// Converts a handler's result into the response to send. This is the only
/// place where a failure kind is turned into a status code.
pub fn result_to_response(result: APIResult) -> (response: Response)
    ensures
        response@ == envelope(result_view(result)),
{
    match result {
        Ok(success) => Response {
            status: success.status,
            content_type: ContentType::Json,
            body: success.body,
        },
        Err(error) => {
            let status = error.status_code();
            let body = match error {
                APIError::MethodNotAllowed { desc } => desc,
                APIError::InternalError { desc } => desc,
            };
            Response { status, content_type: ContentType::PlainText, body }
        },
    }
}

} // verus!
