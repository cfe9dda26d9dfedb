//! Errors of the library and how they are answered over HTTP.
use vstd::prelude::*;

verus! {

/// What can go wrong while handling a request.
#[derive(Debug, Clone, PartialEq, Eq)]
pub enum AppError {
    NotFound,
    Validation(String),
    /// A storage failure, carried by its message.
    Db(String),
    External(String),
}

/// The JSON body that every failed request is answered with.
#[derive(Debug, Clone, PartialEq, Eq)]
pub struct ErrorBody {
    pub error: String,
}

/// `r` is a validation failure whose message reads `msg`.
pub open spec fn validation_failure<T>(r: Result<T, AppError>, msg: Seq<char>) -> bool {
    match r {
        Err(AppError::Validation(m)) => m@ == msg,
        _ => false,
    }
}

impl AppError {
    /// The text that describes the error.
    pub open spec fn text(&self) -> Seq<char> {
        match self {
            AppError::NotFound => "not found"@,
            AppError::Validation(m) => "validation error: "@ + m@,
            AppError::Db(m) => "database error: "@ + m@,
            AppError::External(m) => "external service error: "@ + m@,
        }
    }

    /// The HTTP status that answers the error.
    pub open spec fn status(&self) -> u16 {
        match self {
            AppError::NotFound => 404,
            AppError::Validation(_) => 400,
            AppError::Db(_) => 500,
            AppError::External(_) => 502,
        }
    }

    /// The text that describes the error (its `Display`).
    pub fn message(&self) -> (m: String)
        ensures
            m@ == self.text(),
    {
        let mut m = String::new();
        match self {
            AppError::NotFound => {
                m.append("not found");
            },
            AppError::Validation(s) => {
                m.append("validation error: ");
                m.append(s.as_str());
            },
            AppError::Db(s) => {
                m.append("database error: ");
                m.append(s.as_str());
            },
            AppError::External(s) => {
                m.append("external service error: ");
                m.append(s.as_str());
            },
        }
        proof {
            assert(m@ =~= self.text());
        }
        m
    }

    /// The HTTP status code that answers the error.
    pub fn http_status(&self) -> (code: u16)
        ensures
            code == self.status(),
    {
        match self {
            AppError::NotFound => 404,
            AppError::Validation(_) => 400,
            AppError::Db(_) => 500,
            AppError::External(_) => 502,
        }
    }

    /// The body that answers the error.
    pub fn body(&self) -> (b: ErrorBody)
        ensures
            b.error@ == self.text(),
    {
        ErrorBody { error: self.message() }
    }
}

} // verus!
