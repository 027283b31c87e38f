use vstd::prelude::*;

verus! {

/// The four classes of failure that an operation can report.
#[derive(Clone, Copy, Debug, PartialEq, Eq, Structural)]
pub enum ErrorKind {
    Unauthorized,
    InternalServerError,
    BadRequest,
    Conflict,
}

/// A typed failure with a client-facing message.
#[derive(Clone, Debug, PartialEq, Eq)]
pub enum AppError {
    Unauthorized(String),
    InternalServerError(String),
    BadRequest(String),
    Conflict(String),
}

/// What an error is, abstractly: its class and its message.
pub struct ErrorView {
    pub kind: ErrorKind,
    pub message: Seq<char>,
}

/// The body sent to a client for a failed request.
#[derive(Clone, Debug, PartialEq, Eq)]
pub struct ErrorResponse {
    pub error: String,
}

pub open spec fn failure(kind: ErrorKind, message: Seq<char>) -> ErrorView {
    ErrorView { kind, message }
}

pub open spec fn status_of(kind: ErrorKind) -> u16 {
    match kind {
        ErrorKind::Unauthorized => 401,
        ErrorKind::InternalServerError => 500,
        ErrorKind::BadRequest => 400,
        ErrorKind::Conflict => 409,
    }
}

impl View for AppError {
    type V = ErrorView;

    open spec fn view(&self) -> ErrorView {
        match self {
            AppError::Unauthorized(m) => failure(ErrorKind::Unauthorized, m@),
            AppError::InternalServerError(m) => failure(ErrorKind::InternalServerError, m@),
            AppError::BadRequest(m) => failure(ErrorKind::BadRequest, m@),
            AppError::Conflict(m) => failure(ErrorKind::Conflict, m@),
        }
    }
}

impl AppError {
    /// Builds the error of the given class carrying `message`.
    pub fn new(kind: ErrorKind, message: &str) -> (r: AppError)
        ensures
            r@ == failure(kind, message@),
    {
        let m = message.to_owned();
        match kind {
            ErrorKind::Unauthorized => AppError::Unauthorized(m),
            ErrorKind::InternalServerError => AppError::InternalServerError(m),
            ErrorKind::BadRequest => AppError::BadRequest(m),
            ErrorKind::Conflict => AppError::Conflict(m),
        }
    }

    pub fn kind(&self) -> (r: ErrorKind)
        ensures
            r == self@.kind,
    {
        match self {
            AppError::Unauthorized(_) => ErrorKind::Unauthorized,
            AppError::InternalServerError(_) => ErrorKind::InternalServerError,
            AppError::BadRequest(_) => ErrorKind::BadRequest,
            AppError::Conflict(_) => ErrorKind::Conflict,
        }
    }

    pub fn message(&self) -> (r: &String)
        ensures
            r@ == self@.message,
    {
        match self {
            AppError::Unauthorized(m) => m,
            AppError::InternalServerError(m) => m,
            AppError::BadRequest(m) => m,
            AppError::Conflict(m) => m,
        }
    }

    /// The HTTP status code that this error is reported with.
    pub fn status_code(&self) -> (r: u16)
        ensures
            r == status_of(self@.kind),
    {
        match self {
            AppError::Unauthorized(_) => 401,
            AppError::InternalServerError(_) => 500,
            AppError::BadRequest(_) => 400,
            AppError::Conflict(_) => 409,
        }
    }

    /// The status code and the JSON body `{"error": <message>}` of the reply.
    pub fn into_response_parts(self) -> (r: (u16, ErrorResponse))
        ensures
            r.0 == status_of(self@.kind),
            r.1.error@ == self@.message,
    {
        let status = self.status_code();
        let error = match self {
            AppError::Unauthorized(m) => m,
            AppError::InternalServerError(m) => m,
            AppError::BadRequest(m) => m,
            AppError::Conflict(m) => m,
        };
        (status, ErrorResponse { error })
    }
}

} // verus!
