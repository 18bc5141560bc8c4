use vstd::prelude::*;
use vstd::string::StringExecFns;

verus! {

pub const STATUS_BAD_REQUEST: u16 = 400;

pub const STATUS_UNAUTHORIZED: u16 = 401;

pub const STATUS_NOT_FOUND: u16 = 404;

pub const STATUS_INTERNAL_ERROR: u16 = 500;

pub const STATUS_BAD_GATEWAY: u16 = 502;

/// Terminal API-facing failure: a short title, an HTTP status and an optional explanation.
pub struct ProblemDetail {
    pub title: String,
    pub status: u16,
    pub detail: Option<String>,
}

/// What a problem says: title, status, detail.
pub type ProblemView = (Seq<char>, u16, Option<Seq<char>>);

pub open spec fn detail_view(d: Option<String>) -> Option<Seq<char>> {
    match d {
        Some(s) => Some(s@),
        None => None,
    }
}

impl View for ProblemDetail {
    type V = ProblemView;

    open spec fn view(&self) -> ProblemView {
        (self.title@, self.status, detail_view(self.detail))
    }
}

impl ProblemDetail {
    pub fn new(title: &str, status: u16) -> (p: ProblemDetail)
        ensures
            p@ == (title@, status, None::<Seq<char>>),
    {
        ProblemDetail { title: String::from_str(title), status, detail: None }
    }

    pub fn with_detail(self, detail: String) -> (p: ProblemDetail)
        ensures
            p@ == (self@.0, self@.1, Some(detail@)),
    {
        ProblemDetail { title: self.title, status: self.status, detail: Some(detail) }
    }
}

/// Failure kinds reported by the daemon's protocol client.
pub enum ErrorKind {
    AccessDenied,
    UnknownDevice,
    Io,
    RequestTimeout,
    /// Any other failure, with the classification the client gave it.
    Other { title: String, status: u16 },
}

/// A failure of one protocol client operation.
pub struct DaemonError {
    pub kind: ErrorKind,
    pub message: String,
}

/// The problem reported when the daemon's credentials are not configured.
pub open spec fn missing_auth_problem() -> ProblemView {
    (
        "Insufficient upsd configuration"@,
        STATUS_UNAUTHORIZED,
        Some("Operation requires valid username and password to be configured."@),
    )
}

pub open spec fn device_not_found_problem() -> ProblemView {
    ("Device not found"@, STATUS_NOT_FOUND, None)
}

/// The one mapping from daemon failures to API problems, shared by every operation
/// that talks to the daemon.
pub open spec fn translated(e: DaemonError) -> ProblemView {
    match e.kind {
        ErrorKind::AccessDenied => ("Access denied"@, STATUS_UNAUTHORIZED, None),
        ErrorKind::UnknownDevice => device_not_found_problem(),
        ErrorKind::Io => ("UPS daemon unreachable"@, STATUS_BAD_GATEWAY, None),
        ErrorKind::RequestTimeout => ("UPS daemon unreachable"@, STATUS_BAD_GATEWAY, None),
        ErrorKind::Other { title, status } => (title@, status, Some(e.message@)),
    }
}

pub fn missing_auth() -> (p: ProblemDetail)
    ensures
        p@ == missing_auth_problem(),
{
    ProblemDetail::new("Insufficient upsd configuration", STATUS_UNAUTHORIZED).with_detail(
        String::from_str("Operation requires valid username and password to be configured."),
    )
}

pub fn device_not_found() -> (p: ProblemDetail)
    ensures
        p@ == device_not_found_problem(),
{
    ProblemDetail::new("Device not found", STATUS_NOT_FOUND)
}

pub fn translate_error(e: DaemonError) -> (p: ProblemDetail)
    ensures
        p@ == translated(e),
{
    match e.kind {
        ErrorKind::AccessDenied => ProblemDetail::new("Access denied", STATUS_UNAUTHORIZED),
        ErrorKind::UnknownDevice => device_not_found(),
        ErrorKind::Io => ProblemDetail::new("UPS daemon unreachable", STATUS_BAD_GATEWAY),
        ErrorKind::RequestTimeout => ProblemDetail::new("UPS daemon unreachable", STATUS_BAD_GATEWAY),
        ErrorKind::Other { title, status } => ProblemDetail {
            title,
            status,
            detail: Some(e.message),
        },
    }
}

} // verus!
