use vstd::prelude::*;

verus! {

/// The kind of a failure, with a human-readable description.
#[derive(Debug)]
pub enum ErrorCode {
    /// A failure of no narrower kind: I/O, canonicalization, a watch that broke.
    Message(String),
    /// A configuration file that should exist is not there.
    NotFound(String),
    /// A configuration file is there but its contents are not valid.
    Malformed(String),
}

#[derive(Debug)]
pub(crate) struct ErrorImpl {
    pub(crate) code: ErrorCode,
}

impl ErrorImpl {
    pub(crate) fn new(code: ErrorCode) -> (r: Self)
        ensures
            r.code == code,
    {
        Self { code }
    }
}

/// The error type of every fallible operation of the daemon.
#[derive(Debug)]
pub struct Error {
    err: ErrorImpl,
}

impl Error {
    /// The kind and description of this error.
    pub closed spec fn code(&self) -> ErrorCode {
        self.err.code
    }

    pub fn new(error_message: String) -> (r: Self)
        ensures
            r.code() == ErrorCode::Message(error_message),
    {
        Self { err: ErrorImpl::new(ErrorCode::Message(error_message)) }
    }

    pub fn not_found(path: String) -> (r: Self)
        ensures
            r.code() == ErrorCode::NotFound(path),
    {
        Self { err: ErrorImpl::new(ErrorCode::NotFound(path)) }
    }

    pub fn malformed(detail: String) -> (r: Self)
        ensures
            r.code() == ErrorCode::Malformed(detail),
    {
        Self { err: ErrorImpl::new(ErrorCode::Malformed(detail)) }
    }

    pub fn code_ref(&self) -> (r: &ErrorCode)
        ensures
            *r == self.code(),
    {
        &self.err.code
    }

    pub fn is_not_found(&self) -> (r: bool)
        ensures
            r == (self.code() is NotFound),
    {
        match &self.err.code {
            ErrorCode::NotFound(_) => true,
            _ => false,
        }
    }

    pub fn is_malformed(&self) -> (r: bool)
        ensures
            r == (self.code() is Malformed),
    {
        match &self.err.code {
            ErrorCode::Malformed(_) => true,
            _ => false,
        }
    }

    /// The description carried by this error, whatever its kind.
    pub fn message(&self) -> (r: String)
        ensures
            r@ == self.code().description()@,
    {
        match &self.err.code {
            ErrorCode::Message(m) => m.clone(),
            ErrorCode::NotFound(m) => m.clone(),
            ErrorCode::Malformed(m) => m.clone(),
        }
    }
}

impl ErrorCode {
    pub open spec fn description(&self) -> String {
        match self {
            ErrorCode::Message(m) => *m,
            ErrorCode::NotFound(m) => *m,
            ErrorCode::Malformed(m) => *m,
        }
    }
}

} // verus!
