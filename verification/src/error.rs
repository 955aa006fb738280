//! The failures a handler can report, and how each is shown over HTTP.

use vstd::prelude::*;

verus! {

/// A failure reported to the client.
#[derive(Debug, Clone, PartialEq, Eq)]
pub enum UserError {
    /// The infrastructure failed; no detail is given away.
    InternalError,
    /// The caller can correct the request; `msg` says what was wrong.
    BadRequest { msg: String },
    /// Authentication failed.
    Forbidden { msg: String },
}

/// What is sent for a failure: status line, content type and body.
#[derive(Debug, Clone, PartialEq, Eq)]
pub struct ErrorResponse {
    pub status: u16,
    pub content_type: String,
    pub body: String,
}

/// A failure as a mathematical value.
pub ghost enum ErrorView {
    InternalError,
    BadRequest { msg: Seq<char> },
    Forbidden { msg: Seq<char> },
}

impl View for UserError {
    type V = ErrorView;

    open spec fn view(&self) -> ErrorView {
        match self {
            UserError::InternalError => ErrorView::InternalError,
            UserError::BadRequest { msg } => ErrorView::BadRequest { msg: msg@ },
            UserError::Forbidden { msg } => ErrorView::Forbidden { msg: msg@ },
        }
    }
}

impl UserError {
    /// The HTTP status of this failure: 500, 400 or 403.
    pub open spec fn status(self) -> int {
        match self {
            UserError::InternalError => 500,
            UserError::BadRequest { .. } => 400,
            UserError::Forbidden { .. } => 403,
        }
    }

    /// The message that the client is shown. An internal failure has one
    /// fixed, generic message that gives no detail away; a bad request and a
    /// refusal carry their own `msg`.
    pub open spec fn text(self) -> Seq<char> {
        match self {
            UserError::InternalError => "An internal error occurred. Please try again later."@,
            UserError::BadRequest { msg } => msg@,
            UserError::Forbidden { msg } => msg@,
        }
    }

    pub fn status_code(&self) -> (code: u16)
        ensures
            code == self.status(),
    {
        match self {
            UserError::InternalError => 500,
            UserError::BadRequest { .. } => 400,
            UserError::Forbidden { .. } => 403,
        }
    }

    pub fn to_string(&self) -> (s: String)
        ensures
            s@ == self.text(),
    {
        match self {
            UserError::InternalError => {
                "An internal error occurred. Please try again later.".to_owned()
            },
            UserError::BadRequest { msg } => msg.clone(),
            UserError::Forbidden { msg } => msg.clone(),
        }
    }

    /// The response for this failure: its status, an HTML content type and
    /// its message as body. The body of a bad request is the request's own
    /// `msg`, that of a refusal is the refusal's `msg`, and that of an
    /// internal failure is the fixed generic message.
    pub fn error_response(&self) -> (resp: ErrorResponse)
        ensures
            resp.status == self.status(),
            resp.content_type@ == "text/html; charset=utf-8"@,
            resp.body@ == self.text(),
            self matches UserError::BadRequest { msg } ==> resp.body@ == msg@,
            self matches UserError::Forbidden { msg } ==> resp.body@ == msg@,
    {
        ErrorResponse {
            status: self.status_code(),
            content_type: "text/html; charset=utf-8".to_owned(),
            body: self.to_string(),
        }
    }
}

} // verus!
