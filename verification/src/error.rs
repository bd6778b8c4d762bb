use crate::response::{answer_of, said};
use crate::text::joined;
use vstd::prelude::*;

verus! {

/// The closed set of failure kinds that a request can end in.
#[derive(Clone, Copy, Debug, PartialEq, Eq, Hash, Structural)]
pub enum ErrorKind {
    ScreenshotError,
    RecordingError,
    InvalidUrl,
    InvalidRequest,
    BrowserError,
    BrowserTimeout,
    FileSystemError,
    IoError,
    WebDriverError,
    ServiceUnavailable,
    RequestTimeout,
}

/// A failure of the service: its kind, and a cause in words.
#[derive(Clone, Debug, PartialEq, Eq)]
pub enum ApiError {
    ScreenshotError(String),
    RecordingError(String),
    InvalidUrl(String),
    InvalidRequest(String),
    BrowserError(String),
    BrowserTimeout(String),
    FileSystemError(String),
    /// Holds the text of the I/O error that caused it.
    IoError(String),
    /// Holds the text of the browser driver's error that caused it.
    WebDriverError(String),
    ServiceUnavailable(String),
    RequestTimeout(String),
}

/// What an [`ApiError`] is to the contracts: a kind and the characters of the cause.
pub ghost struct Fault {
    pub kind: ErrorKind,
    pub detail: Seq<char>,
}

/// The fault of the given kind and cause.
pub open spec fn fault(kind: ErrorKind, detail: Seq<char>) -> Fault {
    Fault { kind, detail }
}

impl View for ApiError {
    type V = Fault;

    open spec fn view(&self) -> Fault {
        match self {
            ApiError::ScreenshotError(d) => fault(ErrorKind::ScreenshotError, d@),
            ApiError::RecordingError(d) => fault(ErrorKind::RecordingError, d@),
            ApiError::InvalidUrl(d) => fault(ErrorKind::InvalidUrl, d@),
            ApiError::InvalidRequest(d) => fault(ErrorKind::InvalidRequest, d@),
            ApiError::BrowserError(d) => fault(ErrorKind::BrowserError, d@),
            ApiError::BrowserTimeout(d) => fault(ErrorKind::BrowserTimeout, d@),
            ApiError::FileSystemError(d) => fault(ErrorKind::FileSystemError, d@),
            ApiError::IoError(d) => fault(ErrorKind::IoError, d@),
            ApiError::WebDriverError(d) => fault(ErrorKind::WebDriverError, d@),
            ApiError::ServiceUnavailable(d) => fault(ErrorKind::ServiceUnavailable, d@),
            ApiError::RequestTimeout(d) => fault(ErrorKind::RequestTimeout, d@),
        }
    }
}

/// The HTTP status that answers a failure of the given kind.
pub open spec fn status_of(kind: ErrorKind) -> u16 {
    match kind {
        ErrorKind::InvalidUrl | ErrorKind::InvalidRequest => 400,
        ErrorKind::ScreenshotError | ErrorKind::RecordingError => 422,
        ErrorKind::BrowserTimeout | ErrorKind::RequestTimeout => 408,
        ErrorKind::BrowserError | ErrorKind::ServiceUnavailable | ErrorKind::WebDriverError => 503,
        ErrorKind::FileSystemError | ErrorKind::IoError => 500,
    }
}

/// Whether the kind says that a bounded stage ran past its deadline.
pub open spec fn is_timeout(kind: ErrorKind) -> bool {
    kind == ErrorKind::BrowserTimeout || kind == ErrorKind::RequestTimeout
}

/// The words that open the message of a failure of the given kind.
pub open spec fn headline_of(kind: ErrorKind) -> Seq<char> {
    match kind {
        ErrorKind::ScreenshotError => "Screenshot capture failed: "@,
        ErrorKind::RecordingError => "Recording failed: "@,
        ErrorKind::InvalidUrl => "Invalid URL: "@,
        ErrorKind::InvalidRequest => "Invalid request parameters: "@,
        ErrorKind::BrowserError => "Browser error: "@,
        ErrorKind::BrowserTimeout => "Browser timeout: "@,
        ErrorKind::FileSystemError => "File system error: "@,
        ErrorKind::IoError => "IO error: "@,
        ErrorKind::WebDriverError => "WebDriver error: "@,
        ErrorKind::ServiceUnavailable => "Service unavailable: "@,
        ErrorKind::RequestTimeout => "Request timeout: "@,
    }
}

/// The message shown for a fault: the kind's headline, then the cause.
pub open spec fn message_of(f: Fault) -> Seq<char> {
    headline_of(f.kind) + f.detail
}

impl ErrorKind {
    /// The HTTP status that answers a failure of this kind.
    pub fn status_code(self) -> (code: u16)
        ensures
            code == status_of(self),
    {
        match self {
            ErrorKind::InvalidUrl | ErrorKind::InvalidRequest => 400,
            ErrorKind::ScreenshotError | ErrorKind::RecordingError => 422,
            ErrorKind::BrowserTimeout | ErrorKind::RequestTimeout => 408,
            ErrorKind::BrowserError
            | ErrorKind::ServiceUnavailable
            | ErrorKind::WebDriverError => 503,
            ErrorKind::FileSystemError | ErrorKind::IoError => 500,
        }
    }

    /// Whether this kind says that a bounded stage ran past its deadline.
    pub fn is_timeout(self) -> (b: bool)
        ensures
            b == is_timeout(self),
    {
        match self {
            ErrorKind::BrowserTimeout | ErrorKind::RequestTimeout => true,
            _ => false,
        }
    }

    fn headline(self) -> (text: &'static str)
        ensures
            text@ == headline_of(self),
    {
        match self {
            ErrorKind::ScreenshotError => "Screenshot capture failed: ",
            ErrorKind::RecordingError => "Recording failed: ",
            ErrorKind::InvalidUrl => "Invalid URL: ",
            ErrorKind::InvalidRequest => "Invalid request parameters: ",
            ErrorKind::BrowserError => "Browser error: ",
            ErrorKind::BrowserTimeout => "Browser timeout: ",
            ErrorKind::FileSystemError => "File system error: ",
            ErrorKind::IoError => "IO error: ",
            ErrorKind::WebDriverError => "WebDriver error: ",
            ErrorKind::ServiceUnavailable => "Service unavailable: ",
            ErrorKind::RequestTimeout => "Request timeout: ",
        }
    }
}

/// The body of an error answer.
#[derive(Clone, Debug, PartialEq, Eq)]
pub struct ErrorResponse {
    pub success: bool,
    pub error: String,
}

impl ApiError {
    /// The failure of the given kind and cause.
    pub fn of(kind: ErrorKind, detail: String) -> (error: ApiError)
        ensures
            error@ == fault(kind, detail@),
    {
        match kind {
            ErrorKind::ScreenshotError => ApiError::ScreenshotError(detail),
            ErrorKind::RecordingError => ApiError::RecordingError(detail),
            ErrorKind::InvalidUrl => ApiError::InvalidUrl(detail),
            ErrorKind::InvalidRequest => ApiError::InvalidRequest(detail),
            ErrorKind::BrowserError => ApiError::BrowserError(detail),
            ErrorKind::BrowserTimeout => ApiError::BrowserTimeout(detail),
            ErrorKind::FileSystemError => ApiError::FileSystemError(detail),
            ErrorKind::IoError => ApiError::IoError(detail),
            ErrorKind::WebDriverError => ApiError::WebDriverError(detail),
            ErrorKind::ServiceUnavailable => ApiError::ServiceUnavailable(detail),
            ErrorKind::RequestTimeout => ApiError::RequestTimeout(detail),
        }
    }

    /// The failure of the given kind whose cause is `context` followed by `cause`.
    pub fn caused(kind: ErrorKind, context: &str, cause: &str) -> (error: ApiError)
        ensures
            error@ == fault(kind, context@ + cause@),
    {
        ApiError::of(kind, joined(context, cause))
    }

    pub fn kind(&self) -> (kind: ErrorKind)
        ensures
            kind == self@.kind,
    {
        match self {
            ApiError::ScreenshotError(_) => ErrorKind::ScreenshotError,
            ApiError::RecordingError(_) => ErrorKind::RecordingError,
            ApiError::InvalidUrl(_) => ErrorKind::InvalidUrl,
            ApiError::InvalidRequest(_) => ErrorKind::InvalidRequest,
            ApiError::BrowserError(_) => ErrorKind::BrowserError,
            ApiError::BrowserTimeout(_) => ErrorKind::BrowserTimeout,
            ApiError::FileSystemError(_) => ErrorKind::FileSystemError,
            ApiError::IoError(_) => ErrorKind::IoError,
            ApiError::WebDriverError(_) => ErrorKind::WebDriverError,
            ApiError::ServiceUnavailable(_) => ErrorKind::ServiceUnavailable,
            ApiError::RequestTimeout(_) => ErrorKind::RequestTimeout,
        }
    }

    /// The cause in words, without the kind's headline.
    pub fn detail(&self) -> (detail: &str)
        ensures
            detail@ == self@.detail,
    {
        match self {
            ApiError::ScreenshotError(d) => d.as_str(),
            ApiError::RecordingError(d) => d.as_str(),
            ApiError::InvalidUrl(d) => d.as_str(),
            ApiError::InvalidRequest(d) => d.as_str(),
            ApiError::BrowserError(d) => d.as_str(),
            ApiError::BrowserTimeout(d) => d.as_str(),
            ApiError::FileSystemError(d) => d.as_str(),
            ApiError::IoError(d) => d.as_str(),
            ApiError::WebDriverError(d) => d.as_str(),
            ApiError::ServiceUnavailable(d) => d.as_str(),
            ApiError::RequestTimeout(d) => d.as_str(),
        }
    }

    /// The HTTP status that answers this failure.
    pub fn status_code(&self) -> (code: u16)
        ensures
            code == status_of(self@.kind),
    {
        self.kind().status_code()
    }

    /// The message shown to the caller: the kind's headline, then the cause.
    pub fn message(&self) -> (text: String)
        ensures
            text@ == message_of(self@),
    {
        joined(self.kind().headline(), self.detail())
    }

    /// The answer that reports this failure: its status and its body, which never claims
    /// success and carries the message.
    pub fn into_response(self) -> (answer: (u16, ErrorResponse))
        ensures
            answer.0 == status_of(self@.kind),
            !answer.1.success,
            answer.1.error@ == message_of(self@),
            said(answer.0, answer.1.success, answer.1.error@) == answer_of(Err(self@)),
    {
        let status = self.status_code();
        let error = self.message();
        (status, ErrorResponse { success: false, error })
    }
}

/// Every kind answers with one of five statuses: bad input with 400, a deadline with 408,
/// a failed capture with 422, a fault of the host with 500, and a browser that cannot be
/// had with 503.
pub proof fn lemma_status_mapping_is_total(kind: ErrorKind)
    ensures
        status_of(kind) == 400 || status_of(kind) == 408 || status_of(kind) == 422 || status_of(
            kind,
        ) == 500 || status_of(kind) == 503,
        status_of(kind) == 400 <==> (kind == ErrorKind::InvalidUrl || kind
            == ErrorKind::InvalidRequest),
        status_of(kind) == 408 <==> is_timeout(kind),
{
}

} // verus!
