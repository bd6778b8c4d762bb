use screech::driver::{
    driver_arguments, driver_endpoint, driver_program, start_chromedriver, DriverProbe,
};
use screech::error::{ApiError, ErrorKind, ErrorResponse};
use screech::response::{answer_headers, health_check};

fn all_kinds() -> Vec<ErrorKind> {
    vec![
        ErrorKind::ScreenshotError,
        ErrorKind::RecordingError,
        ErrorKind::InvalidUrl,
        ErrorKind::InvalidRequest,
        ErrorKind::BrowserError,
        ErrorKind::BrowserTimeout,
        ErrorKind::FileSystemError,
        ErrorKind::IoError,
        ErrorKind::WebDriverError,
        ErrorKind::ServiceUnavailable,
        ErrorKind::RequestTimeout,
    ]
}

#[test]
fn every_kind_has_its_status() {
    assert_eq!(ErrorKind::InvalidUrl.status_code(), 400);
    assert_eq!(ErrorKind::InvalidRequest.status_code(), 400);
    assert_eq!(ErrorKind::ScreenshotError.status_code(), 422);
    assert_eq!(ErrorKind::RecordingError.status_code(), 422);
    assert_eq!(ErrorKind::BrowserTimeout.status_code(), 408);
    assert_eq!(ErrorKind::RequestTimeout.status_code(), 408);
    assert_eq!(ErrorKind::BrowserError.status_code(), 503);
    assert_eq!(ErrorKind::ServiceUnavailable.status_code(), 503);
    assert_eq!(ErrorKind::WebDriverError.status_code(), 503);
    assert_eq!(ErrorKind::FileSystemError.status_code(), 500);
    assert_eq!(ErrorKind::IoError.status_code(), 500);
}

#[test]
fn only_the_two_timeout_kinds_are_timeouts() {
    for kind in all_kinds() {
        let expected = kind == ErrorKind::BrowserTimeout || kind == ErrorKind::RequestTimeout;
        assert_eq!(kind.is_timeout(), expected);
        assert_eq!(kind.status_code() == 408, expected);
    }
}

#[test]
fn every_kind_has_its_headline() {
    let text = |e: ApiError| e.message();
    assert_eq!(text(ApiError::ScreenshotError("x".into())), "Screenshot capture failed: x");
    assert_eq!(text(ApiError::RecordingError("x".into())), "Recording failed: x");
    assert_eq!(text(ApiError::InvalidUrl("x".into())), "Invalid URL: x");
    assert_eq!(text(ApiError::InvalidRequest("x".into())), "Invalid request parameters: x");
    assert_eq!(text(ApiError::BrowserError("x".into())), "Browser error: x");
    assert_eq!(text(ApiError::BrowserTimeout("x".into())), "Browser timeout: x");
    assert_eq!(text(ApiError::FileSystemError("x".into())), "File system error: x");
    assert_eq!(text(ApiError::IoError("x".into())), "IO error: x");
    assert_eq!(text(ApiError::WebDriverError("x".into())), "WebDriver error: x");
    assert_eq!(text(ApiError::ServiceUnavailable("x".into())), "Service unavailable: x");
    assert_eq!(text(ApiError::RequestTimeout("x".into())), "Request timeout: x");
}

#[test]
fn an_error_is_built_from_its_kind_and_read_back() {
    for kind in all_kinds() {
        let error = ApiError::of(kind, "cause".to_string());
        assert_eq!(error.kind(), kind);
        assert_eq!(error.detail(), "cause");
        assert_eq!(error.status_code(), kind.status_code());
        let joined = ApiError::caused(kind, "Because: ", "cause");
        assert_eq!(joined.kind(), kind);
        assert_eq!(joined.detail(), "Because: cause");
    }
    assert_eq!(
        ApiError::of(ErrorKind::InvalidUrl, "u".to_string()),
        ApiError::InvalidUrl("u".to_string())
    );
}

#[test]
fn an_error_answers_with_status_and_message() {
    let (status, body) = ApiError::ScreenshotError("Failed to navigate to URL: dns".into())
        .into_response();
    assert_eq!(status, 422);
    assert_eq!(
        body,
        ErrorResponse {
            success: false,
            error: "Screenshot capture failed: Failed to navigate to URL: dns".to_string(),
        }
    );
    let (status, body) = ApiError::BrowserTimeout("Navigation timeout".into()).into_response();
    assert_eq!(status, 408);
    assert!(!body.success);
    assert_eq!(body.error, "Browser timeout: Navigation timeout");
    let (status, _) = ApiError::FileSystemError(String::new()).into_response();
    assert_eq!(status, 500);
}

#[test]
fn health_check_is_always_a_success() {
    for _ in 0..3 {
        let (status, body) = health_check();
        assert_eq!(status, 200);
        assert!(body.success);
        assert_eq!(body.data, Some("API is running"));
        assert_eq!(body.error, None);
    }
}

#[test]
fn answers_are_json_and_captures_are_not_cached() {
    assert_eq!(answer_headers(true), vec![("content-type", "application/json")]);
    assert_eq!(
        answer_headers(false),
        vec![("content-type", "application/json"), ("cache-control", "no-cache")]
    );
}

#[test]
fn a_running_driver_lets_the_service_start() {
    assert_eq!(start_chromedriver(&DriverProbe::Running), Ok(()));
}

#[test]
fn a_driver_that_does_not_run_makes_the_service_unavailable() {
    assert_eq!(
        start_chromedriver(&DriverProbe::NotStarted("No such file".to_string())),
        Err(ApiError::ServiceUnavailable(
            "Failed to start ChromeDriver: No such file. Make sure ChromeDriver is installed and in PATH."
                .to_string()
        ))
    );
    assert_eq!(
        start_chromedriver(&DriverProbe::Exited("ExitStatus(unix_wait_status(256))".to_string())),
        Err(ApiError::ServiceUnavailable(
            "ChromeDriver exited early with status: ExitStatus(unix_wait_status(256)). Check if ChromeDriver is properly installed."
                .to_string()
        ))
    );
    assert_eq!(
        start_chromedriver(&DriverProbe::Unknown("interrupted".to_string())),
        Err(ApiError::ServiceUnavailable(
            "Failed to check ChromeDriver status: interrupted".to_string()
        ))
    );
    let error = start_chromedriver(&DriverProbe::Unknown(String::new())).unwrap_err();
    assert_eq!(error.status_code(), 503);
}

#[test]
fn the_driver_is_started_on_its_port() {
    assert_eq!(driver_program(), "chromedriver");
    assert_eq!(driver_endpoint(), "http://localhost:9515");
    assert_eq!(
        driver_arguments(),
        vec!["--port=9515", "--log-level=WARNING", "--disable-dev-shm-usage"]
    );
}
