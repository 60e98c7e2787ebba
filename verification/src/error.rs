//! Errors the service reports, and how each is answered over HTTP.

use vstd::prelude::*;
use vstd::string::*;

verus! {

/// An error answered to an API request.
#[derive(Debug)]
pub enum ApiError {
    BadRequest(String),
    NotFound(String),
    Internal(String),
    Alist(String),
}

/// HTTP status that answers `e`: 400 for a bad request, 404 for something
/// missing, 500 for an internal failure and 502 for a failure of the Alist
/// server behind the service.
pub open spec fn status_for(e: ApiError) -> u16 {
    match e {
        ApiError::BadRequest(_) => 400,
        ApiError::NotFound(_) => 404,
        ApiError::Internal(_) => 500,
        ApiError::Alist(_) => 502,
    }
}

/// The message `e` carries.
pub open spec fn message_of(e: ApiError) -> String {
    match e {
        ApiError::BadRequest(m) => m,
        ApiError::NotFound(m) => m,
        ApiError::Internal(m) => m,
        ApiError::Alist(m) => m,
    }
}

impl ApiError {
    /// The HTTP status that answers this error.
    pub fn status_code(&self) -> (code: u16)
        ensures
            code == status_for(*self),
    {
        match self {
            ApiError::BadRequest(_) => 400,
            ApiError::NotFound(_) => 404,
            ApiError::Internal(_) => 500,
            ApiError::Alist(_) => 502,
        }
    }

    /// The status and the message of the answer, as `(status, message)`.
    pub fn into_parts(self) -> (parts: (u16, String))
        ensures
            parts.0 == status_for(self),
            parts.1 == message_of(self),
    {
        let code = self.status_code();
        match self {
            ApiError::BadRequest(m) => (code, m),
            ApiError::NotFound(m) => (code, m),
            ApiError::Internal(m) => (code, m),
            ApiError::Alist(m) => (code, m),
        }
    }

    /// The answer to a directory listing asked for a path that is no directory.
    pub fn directory_not_found(path: &str) -> (e: ApiError)
        ensures
            e matches ApiError::NotFound(m) && m@ == "目录不存在: "@ + path@,
    {
        let mut m = String::from_str("目录不存在: ");
        m.append(path);
        ApiError::NotFound(m)
    }
}

/// Distinct kinds of error get distinct statuses; only a bad request and a
/// missing resource are blamed on the client (4xx), the others are server
/// side (5xx).
pub proof fn lemma_status_codes(a: ApiError, b: ApiError)
    ensures
        (status_for(a) == status_for(b)) == (a is BadRequest && b is BadRequest || a is NotFound
            && b is NotFound || a is Internal && b is Internal || a is Alist && b is Alist),
        (400 <= status_for(a) < 500) == (a is BadRequest || a is NotFound),
        500 <= status_for(a) < 600 || 400 <= status_for(a) < 500,
{
}

/// An error met while looking at local files.
#[derive(Debug)]
pub enum FsError {
    FileNotFound(String),
    AccessDenied(String),
    Io(String),
}

impl FsError {
    /// The text shown for this error.
    pub fn describe(&self) -> (text: String)
        ensures
            text@ == match *self {
                FsError::FileNotFound(p) => "文件不存在："@ + p@,
                FsError::AccessDenied(p) => "无法访问文件："@ + p@,
                FsError::Io(m) => "IO 错误："@ + m@,
            },
    {
        match self {
            FsError::FileNotFound(p) => {
                let mut t = String::from_str("文件不存在：");
                t.append(p.as_str());
                t
            },
            FsError::AccessDenied(p) => {
                let mut t = String::from_str("无法访问文件：");
                t.append(p.as_str());
                t
            },
            FsError::Io(m) => {
                let mut t = String::from_str("IO 错误：");
                t.append(m.as_str());
                t
            },
        }
    }
}

} // verus!
