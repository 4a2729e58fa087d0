//! Errors a request can end in, and their RFC 9457 problem-details form.
use vstd::prelude::*;

verus! {

/// An error answered to a client. The text is shown to the user, except for
/// `Internal`, whose text is for the log only.
#[derive(Debug)]
pub enum AppError {
    BadRequest(String),
    Unauthorized(String),
    Forbidden(String),
    NotFound(String),
    Conflict(String),
    Internal(String),
}

/// The kinds of error, without their text.
#[derive(Debug, Clone, Copy, PartialEq, Eq, Structural)]
pub enum ErrorKind {
    BadRequest,
    Unauthorized,
    Forbidden,
    NotFound,
    Conflict,
    Internal,
}

/// A refusal as the contracts describe it: the kind of error and, where the
/// contract fixes it, the text.
pub type Refusal = (ErrorKind, Option<Seq<char>>);

/// `e` is the refusal `d`: same kind and, where `d` fixes a text, that text.
pub open spec fn refused_as(e: AppError, d: Refusal) -> bool {
    &&& e.spec_kind() == d.0
    &&& (d.1 matches Some(m) ==> e.spec_message() == m)
}

/// `r` is an error that is the refusal `d`.
pub open spec fn refused<T>(r: Result<T, AppError>, d: Refusal) -> bool {
    r matches Err(e) && refused_as(e, d)
}

/// The refusal of the given kind with the given text.
pub open spec fn refusal(kind: ErrorKind, text: Seq<char>) -> Refusal {
    (kind, Some(text))
}

/// `prefix` followed by `cause`: an error text that quotes what went wrong.
pub fn with_cause(prefix: &str, cause: &str) -> (s: String)
    ensures
        s@ == prefix@ + cause@,
{
    let mut s = prefix.to_owned();
    s.append(cause);
    s
}

/// An RFC 9457 problem-details body.
#[derive(Debug)]
pub struct ProblemDetails {
    /// URI reference that names the kind of problem.
    pub type_uri: String,
    /// Short summary of the kind (the same for every occurrence of a kind).
    pub title: String,
    /// HTTP status code.
    pub status: u16,
    /// What happened this time, worded for the user.
    pub detail: String,
}

/// The fixed text that stands in for an internal error's detail.
pub open spec fn internal_detail_text() -> Seq<char> {
    "サーバー内部でエラーが発生しました"@
}

impl AppError {
    /// The kind of this error.
    pub open spec fn spec_kind(&self) -> ErrorKind {
        match self {
            AppError::BadRequest(_) => ErrorKind::BadRequest,
            AppError::Unauthorized(_) => ErrorKind::Unauthorized,
            AppError::Forbidden(_) => ErrorKind::Forbidden,
            AppError::NotFound(_) => ErrorKind::NotFound,
            AppError::Conflict(_) => ErrorKind::Conflict,
            AppError::Internal(_) => ErrorKind::Internal,
        }
    }

    /// The HTTP status of each kind of error.
    pub open spec fn spec_status(&self) -> u16 {
        match self {
            AppError::BadRequest(_) => 400,
            AppError::Unauthorized(_) => 401,
            AppError::Forbidden(_) => 403,
            AppError::NotFound(_) => 404,
            AppError::Conflict(_) => 409,
            AppError::Internal(_) => 500,
        }
    }

    /// The problem-type code of each kind of error.
    pub open spec fn spec_code(&self) -> Seq<char> {
        match self {
            AppError::BadRequest(_) => "bad-request"@,
            AppError::Unauthorized(_) => "unauthorized"@,
            AppError::Forbidden(_) => "forbidden"@,
            AppError::NotFound(_) => "not-found"@,
            AppError::Conflict(_) => "conflict"@,
            AppError::Internal(_) => "internal"@,
        }
    }

    /// The title of each kind of error.
    pub open spec fn spec_title(&self) -> Seq<char> {
        match self {
            AppError::BadRequest(_) => "Bad request"@,
            AppError::Unauthorized(_) => "Unauthorized"@,
            AppError::Forbidden(_) => "Forbidden"@,
            AppError::NotFound(_) => "Not found"@,
            AppError::Conflict(_) => "Conflict"@,
            AppError::Internal(_) => "Internal server error"@,
        }
    }

    /// The text carried by the error.
    pub open spec fn spec_message(&self) -> Seq<char> {
        match self {
            AppError::BadRequest(m) => m@,
            AppError::Unauthorized(m) => m@,
            AppError::Forbidden(m) => m@,
            AppError::NotFound(m) => m@,
            AppError::Conflict(m) => m@,
            AppError::Internal(m) => m@,
        }
    }

    /// The detail a client may see: the carried text, except that an
    /// internal error shows a fixed sentence so that database messages and
    /// the like never leave the server.
    pub open spec fn spec_public_detail(&self) -> Seq<char> {
        match self {
            AppError::Internal(_) => internal_detail_text(),
            _ => self.spec_message(),
        }
    }

    /// Status, problem-type code and title of this error.
    pub fn meta(&self) -> (r: (u16, &'static str, &'static str))
        ensures
            r.0 == self.spec_status(),
            r.1@ == self.spec_code(),
            r.2@ == self.spec_title(),
    {
        match self {
            AppError::BadRequest(_) => (400, "bad-request", "Bad request"),
            AppError::Unauthorized(_) => (401, "unauthorized", "Unauthorized"),
            AppError::Forbidden(_) => (403, "forbidden", "Forbidden"),
            AppError::NotFound(_) => (404, "not-found", "Not found"),
            AppError::Conflict(_) => (409, "conflict", "Conflict"),
            AppError::Internal(_) => (500, "internal", "Internal server error"),
        }
    }

    /// The detail a client may see.
    pub fn public_detail(&self) -> (s: String)
        ensures
            s@ == self.spec_public_detail(),
    {
        match self {
            AppError::Internal(_) => "サーバー内部でエラーが発生しました".to_owned(),
            AppError::BadRequest(m) => m.clone(),
            AppError::Unauthorized(m) => m.clone(),
            AppError::Forbidden(m) => m.clone(),
            AppError::NotFound(m) => m.clone(),
            AppError::Conflict(m) => m.clone(),
        }
    }

    /// The problem-details body for this error: type `/problems/<code>`, the
    /// kind's title and status, and the public detail.
    pub fn problem_details(&self) -> (p: ProblemDetails)
        ensures
            p.type_uri@ == "/problems/"@ + self.spec_code(),
            p.title@ == self.spec_title(),
            p.status == self.spec_status(),
            p.detail@ == self.spec_public_detail(),
    {
        let (status, code, title) = self.meta();
        let mut type_uri = "/problems/".to_owned();
        type_uri.append(code);
        ProblemDetails { type_uri, title: title.to_owned(), status, detail: self.public_detail() }
    }
}

} // verus!
