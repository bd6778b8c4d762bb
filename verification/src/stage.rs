use crate::error::{fault, is_timeout, ApiError, ErrorKind, Fault};
use crate::text::{decimal, decimal_text};
use vstd::prelude::*;

verus! {

/// Frames captured for each second of a recording.
pub const FRAME_RATE: u32 = 10;

/// Seconds allowed for reaching the browser driver and opening a session.
pub const CONNECT_TIMEOUT_SECS: u64 = 10;

/// Seconds allowed for loading the page.
pub const NAVIGATION_TIMEOUT_SECS: u64 = 30;

/// Seconds to wait after the page has loaded, so that it can finish drawing.
pub const SETTLE_DELAY_SECS: u64 = 2;

/// Seconds allowed for a wait between two stages.
pub const WAIT_TIMEOUT_SECS: u64 = 5;

/// Seconds allowed for taking one image.
pub const CAPTURE_TIMEOUT_SECS: u64 = 15;

/// Seconds allowed for an operation on a temporary file.
pub const FILE_TIMEOUT_SECS: u64 = 10;

/// Seconds allowed for the encoder to assemble the video.
pub const ENCODE_TIMEOUT_SECS: u64 = 600;

/// Seconds allowed for closing the session.
pub const TEARDOWN_TIMEOUT_SECS: u64 = 5;

/// What a request asks for.
#[derive(Clone, Copy, Debug, PartialEq, Eq, Structural)]
pub enum Operation {
    /// One image of the page.
    Screenshot,
    /// A video of the page over `duration` seconds.
    Recording { duration: u32 },
}

/// Where a request stands. Each stage waits for one action of the host.
#[derive(Clone, Copy, Debug, PartialEq, Eq, Structural)]
pub enum Stage {
    SessionOpening,
    Navigating,
    Settling,
    FileCreating,
    Capturing,
    Reading,
    FrameCapturing,
    FramePacing,
    Encoding,
    FramesRemoving,
    VideoReading,
    VideoRemoving,
    SessionClosing,
    Done,
}

/// What the host is to do next for a request.
#[derive(Clone, Copy, Debug, PartialEq, Eq, Structural)]
pub enum Action {
    /// Open a browser session with the request's capability set.
    OpenSession,
    /// Load the request's address.
    Navigate,
    /// Wait for the settle delay.
    Settle,
    /// Create the temporary file that will hold the image.
    CreateImageFile,
    /// Take one image into the temporary file.
    CaptureImage,
    /// Read the image file, and report its bytes.
    ReadImage,
    /// Take one image into the frame file of the given index.
    CaptureFrame { index: u32 },
    /// Wait for the interval between two frames.
    Pace,
    /// Run the encoder once over the frame files.
    Encode,
    /// Delete the frame files of the indices below `count`, ignoring what cannot be deleted.
    RemoveFrames { count: u32 },
    /// Read the video file, and report its bytes.
    ReadVideo,
    /// Delete the video file.
    RemoveVideo,
    /// Close the browser session.
    CloseSession,
    /// Nothing: the request has its result.
    Finish,
}

impl Action {
    /// Seconds within which the action must end; the host abandons it after that and
    /// reports a missed deadline. No action may take for ever.
    pub open spec fn spec_time_limit_secs(self) -> u64 {
        match self {
            Action::OpenSession => CONNECT_TIMEOUT_SECS,
            Action::Navigate => NAVIGATION_TIMEOUT_SECS,
            Action::Settle => WAIT_TIMEOUT_SECS,
            Action::CreateImageFile => FILE_TIMEOUT_SECS,
            Action::CaptureImage => CAPTURE_TIMEOUT_SECS,
            Action::ReadImage => FILE_TIMEOUT_SECS,
            Action::CaptureFrame { .. } => CAPTURE_TIMEOUT_SECS,
            Action::Pace => WAIT_TIMEOUT_SECS,
            Action::Encode => ENCODE_TIMEOUT_SECS,
            Action::RemoveFrames { .. } => FILE_TIMEOUT_SECS,
            Action::ReadVideo => FILE_TIMEOUT_SECS,
            Action::RemoveVideo => FILE_TIMEOUT_SECS,
            Action::CloseSession => TEARDOWN_TIMEOUT_SECS,
            Action::Finish => 0,
        }
    }

    /// Seconds within which the action must end; 0 only for `Finish`, which asks for
    /// nothing.
    #[verifier::when_used_as_spec(spec_time_limit_secs)]
    pub fn time_limit_secs(self) -> (secs: u64)
        ensures
            secs == self.spec_time_limit_secs(),
            self != Action::Finish ==> 5 <= secs <= 600,
    {
        match self {
            Action::OpenSession => CONNECT_TIMEOUT_SECS,
            Action::Navigate => NAVIGATION_TIMEOUT_SECS,
            Action::Settle => WAIT_TIMEOUT_SECS,
            Action::CreateImageFile => FILE_TIMEOUT_SECS,
            Action::CaptureImage => CAPTURE_TIMEOUT_SECS,
            Action::ReadImage => FILE_TIMEOUT_SECS,
            Action::CaptureFrame { .. } => CAPTURE_TIMEOUT_SECS,
            Action::Pace => WAIT_TIMEOUT_SECS,
            Action::Encode => ENCODE_TIMEOUT_SECS,
            Action::RemoveFrames { .. } => FILE_TIMEOUT_SECS,
            Action::ReadVideo => FILE_TIMEOUT_SECS,
            Action::RemoveVideo => FILE_TIMEOUT_SECS,
            Action::CloseSession => TEARDOWN_TIMEOUT_SECS,
            Action::Finish => 0,
        }
    }
}

/// How an action of the host ended.
#[derive(Clone, Debug, PartialEq, Eq)]
pub enum StageReport {
    /// It was done.
    Completed,
    /// It was done, and gave these bytes.
    Data(Vec<u8>),
    /// It failed, for the cause given in words.
    Failed(String),
    /// It ran past its deadline and was abandoned.
    TimedOut,
    /// The encoder ran and exited, with these words on its error stream.
    EncoderExited { success: bool, diagnostics: String },
}

/// What a [`StageReport`] is to the contracts.
pub ghost enum Report {
    Completed,
    Data(Seq<u8>),
    Failed(Seq<char>),
    TimedOut,
    EncoderExited { success: bool, diagnostics: Seq<char> },
}

impl View for StageReport {
    type V = Report;

    open spec fn view(&self) -> Report {
        match self {
            StageReport::Completed => Report::Completed,
            StageReport::Data(bytes) => Report::Data(bytes@),
            StageReport::Failed(cause) => Report::Failed(cause@),
            StageReport::TimedOut => Report::TimedOut,
            StageReport::EncoderExited { success, diagnostics } => Report::EncoderExited {
                success: *success,
                diagnostics: diagnostics@,
            },
        }
    }
}

impl Report {
    /// Whether the action did its work.
    pub open spec fn succeeded(self) -> bool {
        match self {
            Report::Completed => true,
            Report::Data(_) => true,
            Report::EncoderExited { success, .. } => success,
            _ => false,
        }
    }

    /// The bytes that the action gave; none where it gave none.
    pub open spec fn payload(self) -> Seq<u8> {
        match self {
            Report::Data(bytes) => bytes,
            _ => Seq::empty(),
        }
    }

    /// The cause of a failure in words; empty where none was given.
    pub open spec fn cause(self) -> Seq<char> {
        match self {
            Report::Failed(cause) => cause,
            Report::EncoderExited { diagnostics, .. } => diagnostics,
            _ => Seq::empty(),
        }
    }
}

/// How a request ended: with the bytes of the image or video, or with a failure.
pub type Outcome = Result<Seq<u8>, Fault>;

/// What a result is to the contracts.
pub open spec fn outcome_of(result: Result<Vec<u8>, ApiError>) -> Outcome {
    match result {
        Ok(bytes) => Ok(bytes@),
        Err(e) => Err(e@),
    }
}

/// What a result that may not be there yet is to the contracts.
pub open spec fn pending_outcome_of(result: Option<Result<Vec<u8>, ApiError>>) -> Option<Outcome> {
    match result {
        Some(r) => Some(outcome_of(r)),
        None => None,
    }
}

/// The failure that a report other than a success means at a stage. A deadline that was
/// missed always gives a failure of a timeout kind: of the browser where the browser was
/// at work, of the request elsewhere.
pub open spec fn failure_of(operation: Operation, stage: Stage, frame: u32, report: Report) -> Fault {
    if report is TimedOut {
        match stage {
            Stage::SessionOpening => fault(
                ErrorKind::BrowserTimeout,
                "Failed to create driver within timeout"@,
            ),
            Stage::Navigating => fault(ErrorKind::BrowserTimeout, "Navigation timeout"@),
            Stage::Settling => fault(ErrorKind::RequestTimeout, "Page load timeout"@),
            Stage::FileCreating => fault(ErrorKind::RequestTimeout, "File creation timeout"@),
            Stage::Capturing => fault(ErrorKind::BrowserTimeout, "Screenshot capture timeout"@),
            Stage::Reading => fault(ErrorKind::RequestTimeout, "File read timeout"@),
            Stage::FrameCapturing => fault(ErrorKind::BrowserTimeout, "Frame capture timeout"@),
            Stage::FramePacing => fault(ErrorKind::RequestTimeout, "Frame pacing timeout"@),
            Stage::Encoding => fault(ErrorKind::RequestTimeout, "Video encoding timeout"@),
            Stage::FramesRemoving => fault(ErrorKind::RequestTimeout, "File cleanup timeout"@),
            Stage::VideoReading => fault(ErrorKind::RequestTimeout, "File read timeout"@),
            Stage::VideoRemoving => fault(ErrorKind::RequestTimeout, "File cleanup timeout"@),
            Stage::SessionClosing => fault(ErrorKind::BrowserTimeout, "Failed to quit driver within timeout"@),
            Stage::Done => fault(ErrorKind::RequestTimeout, "Request timeout"@),
        }
    } else {
        let cause = report.cause();
        match stage {
            Stage::SessionOpening => fault(
                ErrorKind::BrowserError,
                "Failed to create driver: "@ + cause,
            ),
            Stage::Navigating => fault(
                if operation is Screenshot {
                    ErrorKind::ScreenshotError
                } else {
                    ErrorKind::RecordingError
                },
                "Failed to navigate to URL: "@ + cause,
            ),
            Stage::Settling => fault(ErrorKind::IoError, "Failed to wait for the page: "@ + cause),
            Stage::FileCreating => fault(
                ErrorKind::FileSystemError,
                "Failed to create temp file: "@ + cause,
            ),
            Stage::Capturing => fault(
                ErrorKind::ScreenshotError,
                "Failed to capture screenshot: "@ + cause,
            ),
            Stage::Reading => fault(
                ErrorKind::FileSystemError,
                "Failed to read screenshot: "@ + cause,
            ),
            Stage::FrameCapturing => fault(
                ErrorKind::RecordingError,
                "Failed to capture frame "@ + decimal(frame as nat) + ": "@ + cause,
            ),
            Stage::FramePacing => fault(
                ErrorKind::IoError,
                "Failed to wait for the next frame: "@ + cause,
            ),
            Stage::Encoding => fault(
                ErrorKind::RecordingError,
                if report is EncoderExited {
                    "ffmpeg failed: "@ + cause
                } else {
                    "Failed to run ffmpeg: "@ + cause
                },
            ),
            Stage::FramesRemoving => fault(
                ErrorKind::FileSystemError,
                "Failed to cleanup frame files: "@ + cause,
            ),
            Stage::VideoReading => fault(
                ErrorKind::FileSystemError,
                "Failed to read video file: "@ + cause,
            ),
            Stage::VideoRemoving => fault(
                ErrorKind::FileSystemError,
                "Failed to cleanup video file: "@ + cause,
            ),
            Stage::SessionClosing => fault(
                ErrorKind::BrowserError,
                "Failed to quit driver: "@ + cause,
            ),
            Stage::Done => fault(ErrorKind::IoError, cause),
        }
    }
}

/// A missed deadline is reported as a timeout, at every stage and for both operations.
pub proof fn lemma_missed_deadline_is_a_timeout(operation: Operation, stage: Stage, frame: u32)
    ensures
        is_timeout(failure_of(operation, stage, frame, Report::TimedOut).kind),
{
}

/// A failure that is no missed deadline is never reported as a timeout.
pub proof fn lemma_failure_is_no_timeout(
    operation: Operation,
    stage: Stage,
    frame: u32,
    report: Report,
)
    requires
        !(report is TimedOut),
    ensures
        !is_timeout(failure_of(operation, stage, frame, report).kind),
{
}

impl Operation {
    /// Frames that the operation takes in all: the duration times the frame rate, and none
    /// for a screenshot.
    pub open spec fn total_frames(self) -> nat {
        match self {
            Operation::Screenshot => 0,
            Operation::Recording { duration } => (duration * FRAME_RATE) as nat,
        }
    }
}

impl StageReport {
    /// Whether the action did its work.
    pub fn succeeded(&self) -> (b: bool)
        ensures
            b == self@.succeeded(),
    {
        match self {
            StageReport::Completed => true,
            StageReport::Data(_) => true,
            StageReport::EncoderExited { success, .. } => *success,
            _ => false,
        }
    }

    /// Whether the action ran past its deadline.
    pub fn timed_out(&self) -> (b: bool)
        ensures
            b == (self@ is TimedOut),
    {
        match self {
            StageReport::TimedOut => true,
            _ => false,
        }
    }

    /// The bytes that the action gave; none where it gave none.
    pub fn into_payload(self) -> (bytes: Vec<u8>)
        ensures
            bytes@ == self@.payload(),
    {
        match self {
            StageReport::Data(bytes) => bytes,
            _ => Vec::new(),
        }
    }

    /// The cause of a failure in words; empty where none was given.
    pub fn cause(&self) -> (cause: &str)
        ensures
            cause@ == self@.cause(),
    {
        match self {
            StageReport::Failed(cause) => cause.as_str(),
            StageReport::EncoderExited { diagnostics, .. } => diagnostics.as_str(),
            _ => {
                proof {
                    reveal_strlit("");
                }
                assert(""@ =~= Seq::<char>::empty());
                ""
            },
        }
    }
}

/// Turns a report other than a success into the failure that it means at a stage;
/// `frame` is the index of the frame at hand and counts only while frames are captured.
pub fn stage_failure(operation: Operation, stage: Stage, frame: u32, report: &StageReport) -> (error:
    ApiError)
    ensures
        error@ == failure_of(operation, stage, frame, report@),
{
    if report.timed_out() {
        let (kind, words) = match stage {
            Stage::SessionOpening => (
                ErrorKind::BrowserTimeout,
                "Failed to create driver within timeout",
            ),
            Stage::Navigating => (ErrorKind::BrowserTimeout, "Navigation timeout"),
            Stage::Settling => (ErrorKind::RequestTimeout, "Page load timeout"),
            Stage::FileCreating => (ErrorKind::RequestTimeout, "File creation timeout"),
            Stage::Capturing => (ErrorKind::BrowserTimeout, "Screenshot capture timeout"),
            Stage::Reading => (ErrorKind::RequestTimeout, "File read timeout"),
            Stage::FrameCapturing => (ErrorKind::BrowserTimeout, "Frame capture timeout"),
            Stage::FramePacing => (ErrorKind::RequestTimeout, "Frame pacing timeout"),
            Stage::Encoding => (ErrorKind::RequestTimeout, "Video encoding timeout"),
            Stage::FramesRemoving => (ErrorKind::RequestTimeout, "File cleanup timeout"),
            Stage::VideoReading => (ErrorKind::RequestTimeout, "File read timeout"),
            Stage::VideoRemoving => (ErrorKind::RequestTimeout, "File cleanup timeout"),
            Stage::SessionClosing => (
                ErrorKind::BrowserTimeout,
                "Failed to quit driver within timeout",
            ),
            Stage::Done => (ErrorKind::RequestTimeout, "Request timeout"),
        };
        return ApiError::of(kind, String::from_str(words));
    }
    let cause = report.cause();
    match stage {
        Stage::SessionOpening => ApiError::caused(
            ErrorKind::BrowserError,
            "Failed to create driver: ",
            cause,
        ),
        Stage::Navigating => {
            let kind = match operation {
                Operation::Screenshot => ErrorKind::ScreenshotError,
                Operation::Recording { .. } => ErrorKind::RecordingError,
            };
            ApiError::caused(kind, "Failed to navigate to URL: ", cause)
        },
        Stage::Settling => ApiError::caused(
            ErrorKind::IoError,
            "Failed to wait for the page: ",
            cause,
        ),
        Stage::FileCreating => ApiError::caused(
            ErrorKind::FileSystemError,
            "Failed to create temp file: ",
            cause,
        ),
        Stage::Capturing => ApiError::caused(
            ErrorKind::ScreenshotError,
            "Failed to capture screenshot: ",
            cause,
        ),
        Stage::Reading => ApiError::caused(
            ErrorKind::FileSystemError,
            "Failed to read screenshot: ",
            cause,
        ),
        Stage::FrameCapturing => {
            let mut words = String::from_str("Failed to capture frame ");
            let index = decimal_text(frame);
            words.append(index.as_str());
            words.append(": ");
            words.append(cause);
            assert(words@ =~= "Failed to capture frame "@ + decimal(frame as nat) + ": "@
                + cause@);
            ApiError::of(ErrorKind::RecordingError, words)
        },
        Stage::FramePacing => ApiError::caused(
            ErrorKind::IoError,
            "Failed to wait for the next frame: ",
            cause,
        ),
        Stage::Encoding => {
            let context = match report {
                StageReport::EncoderExited { .. } => "ffmpeg failed: ",
                _ => "Failed to run ffmpeg: ",
            };
            ApiError::caused(ErrorKind::RecordingError, context, cause)
        },
        Stage::FramesRemoving => ApiError::caused(
            ErrorKind::FileSystemError,
            "Failed to cleanup frame files: ",
            cause,
        ),
        Stage::VideoReading => ApiError::caused(
            ErrorKind::FileSystemError,
            "Failed to read video file: ",
            cause,
        ),
        Stage::VideoRemoving => ApiError::caused(
            ErrorKind::FileSystemError,
            "Failed to cleanup video file: ",
            cause,
        ),
        Stage::SessionClosing => ApiError::caused(
            ErrorKind::BrowserError,
            "Failed to quit driver: ",
            cause,
        ),
        Stage::Done => {
            proof {
                reveal_strlit("");
            }
            assert(""@ + cause@ =~= cause@);
            ApiError::caused(ErrorKind::IoError, "", cause)
        },
    }
}

} // verus!
