use screech::error::{ApiError, ErrorKind};
use screech::recording::RecordingService;
use screech::request::ScreenshotRequest;
use screech::response::{take_screenshot, RequestStamp};
use screech::run::Run;
use screech::screenshot::ScreenshotService;
use screech::stage::{stage_failure, Action, Operation, Stage, StageReport};

const PNG: [u8; 8] = [0x89, b'P', b'N', b'G', 0x0d, 0x0a, 0x1a, 0x0a];

fn capture() -> Run {
    Run::begin_capture("https://example.com", Some(800), Some(600)).unwrap()
}

fn recording(duration: u32) -> Run {
    Run::begin_recording("https://example.com", duration, None, None, "abc").unwrap()
}

fn failed(cause: &str) -> StageReport {
    StageReport::Failed(cause.to_string())
}

/// Carries a request out: answers each action with `answer`, and lists the actions.
fn drive(mut run: Run, answer: &dyn Fn(Action) -> StageReport) -> (Vec<Action>, Run) {
    let mut actions = Vec::new();
    while !run.is_done() {
        let action = run.action();
        actions.push(action);
        run = run.advance(answer(action));
        assert!(actions.len() < 10_000);
    }
    (actions, run)
}

fn all_fine(action: Action) -> StageReport {
    match action {
        Action::ReadImage => StageReport::Data(PNG.to_vec()),
        Action::ReadVideo => StageReport::Data(b"video".to_vec()),
        Action::Encode => StageReport::EncoderExited { success: true, diagnostics: String::new() },
        _ => StageReport::Completed,
    }
}

fn count(actions: &[Action], wanted: Action) -> usize {
    actions.iter().filter(|a| **a == wanted).count()
}

#[test]
fn a_capture_begins_by_opening_a_session() {
    let run = capture();
    assert_eq!(run.operation(), Operation::Screenshot);
    assert_eq!(run.stage(), Stage::SessionOpening);
    assert_eq!(run.action(), Action::OpenSession);
    assert_eq!(run.url(), "https://example.com");
    assert_eq!(run.viewport(), (800, 600));
    assert!(!run.is_done());
    assert_eq!(run.into_result(), None);
}

#[test]
fn a_capture_that_goes_well_gives_the_image() {
    let (actions, run) = drive(capture(), &all_fine);
    assert_eq!(
        actions,
        vec![
            Action::OpenSession,
            Action::Navigate,
            Action::Settle,
            Action::CreateImageFile,
            Action::CaptureImage,
            Action::ReadImage,
            Action::CloseSession,
        ]
    );
    assert_eq!(run.stage(), Stage::Done);
    assert_eq!(run.action(), Action::Finish);
    assert_eq!(run.into_result(), Some(Ok(PNG.to_vec())));
}

#[test]
fn screenshot_of_example_com_answers_with_the_image() {
    let request = ScreenshotRequest {
        url: "https://example.com".to_string(),
        width: Some(800),
        height: Some(600),
    };
    assert_eq!(request.validate(), Ok(()));
    let stamp = RequestStamp::issue();
    let (run, capabilities) = ScreenshotService::new()
        .capture_screenshot(&request.url, request.width, request.height)
        .unwrap();
    assert_eq!(run.viewport(), (800, 600));
    assert!(thirtyfour::BrowserCapabilitiesHelper::has_arg(
        &capabilities,
        "--window-size=800,600"
    ));
    let (_, run) = drive(run, &all_fine);
    let image = run.into_result().unwrap().unwrap();
    assert!(!image.is_empty());
    let (status, body) = take_screenshot(stamp.clone(), request.url.clone(), &image);
    assert_eq!(status, 200);
    assert!(body.success);
    let data = body.data.unwrap();
    assert_eq!(data.url, "https://example.com");
    assert_eq!(data.id, stamp.id);
    let decoded =
        base64::Engine::decode(&base64::engine::general_purpose::STANDARD, &data.image_data)
            .unwrap();
    assert_eq!(decoded, PNG.to_vec());
    assert_eq!(&decoded[1..4], b"PNG");
}

#[test]
fn a_session_that_cannot_be_closed_does_not_spoil_the_image() {
    for closing in [failed("gone"), StageReport::TimedOut] {
        let (actions, run) = drive(capture(), &|action| match action {
            Action::CloseSession => closing.clone(),
            other => all_fine(other),
        });
        assert_eq!(actions.last(), Some(&Action::CloseSession));
        assert_eq!(run.into_result(), Some(Ok(PNG.to_vec())));
    }
}

#[test]
fn a_capture_never_asks_for_the_encoder() {
    let stages = [
        Action::OpenSession,
        Action::Navigate,
        Action::Settle,
        Action::CreateImageFile,
        Action::CaptureImage,
        Action::ReadImage,
        Action::CloseSession,
    ];
    for failing in stages {
        let (actions, _) = drive(capture(), &|action| {
            if action == failing {
                failed("x")
            } else {
                all_fine(action)
            }
        });
        for action in &actions {
            assert!(stages.contains(action));
        }
        assert_eq!(count(&actions, Action::OpenSession), 1);
        assert!(count(&actions, Action::CaptureImage) <= 1);
    }
}

#[test]
fn a_session_that_cannot_be_opened_ends_the_request_at_once() {
    let run = capture().advance(failed("connection refused"));
    assert!(run.is_done());
    assert_eq!(
        run.into_result(),
        Some(Err(ApiError::BrowserError(
            "Failed to create driver: connection refused".to_string()
        )))
    );
    let run = capture().advance(StageReport::TimedOut);
    assert!(run.is_done());
    assert_eq!(
        run.into_result(),
        Some(Err(ApiError::BrowserTimeout("Failed to create driver within timeout".to_string())))
    );
}

fn capture_failing_at(failing: Action, report: StageReport) -> (Vec<Action>, ApiError) {
    let (actions, run) = drive(capture(), &|action| {
        if action == failing {
            report.clone()
        } else {
            all_fine(action)
        }
    });
    (actions, run.into_result().unwrap().unwrap_err())
}

#[test]
fn a_capture_stage_that_fails_ends_the_request_with_its_failure() {
    let (actions, error) = capture_failing_at(Action::Navigate, failed("dns"));
    assert_eq!(actions, vec![Action::OpenSession, Action::Navigate, Action::CloseSession]);
    assert_eq!(error, ApiError::ScreenshotError("Failed to navigate to URL: dns".to_string()));
    assert_eq!(error.status_code(), 422);

    let (actions, error) = capture_failing_at(Action::Settle, failed("woken"));
    assert_eq!(actions.len(), 4);
    assert_eq!(error, ApiError::IoError("Failed to wait for the page: woken".to_string()));

    let (_, error) = capture_failing_at(Action::CreateImageFile, failed("disk full"));
    assert_eq!(error, ApiError::FileSystemError("Failed to create temp file: disk full".to_string()));
    assert_eq!(error.status_code(), 500);

    let (_, error) = capture_failing_at(Action::CaptureImage, failed("no window"));
    assert_eq!(
        error,
        ApiError::ScreenshotError("Failed to capture screenshot: no window".to_string())
    );

    let (actions, error) = capture_failing_at(Action::ReadImage, failed("denied"));
    assert_eq!(error, ApiError::FileSystemError("Failed to read screenshot: denied".to_string()));
    assert_eq!(actions.last(), Some(&Action::CloseSession));
}

#[test]
fn a_capture_stage_that_hangs_ends_the_request_with_a_timeout() {
    let cases = [
        (Action::Navigate, ApiError::BrowserTimeout("Navigation timeout".to_string())),
        (Action::Settle, ApiError::RequestTimeout("Page load timeout".to_string())),
        (Action::CreateImageFile, ApiError::RequestTimeout("File creation timeout".to_string())),
        (Action::CaptureImage, ApiError::BrowserTimeout("Screenshot capture timeout".to_string())),
        (Action::ReadImage, ApiError::RequestTimeout("File read timeout".to_string())),
    ];
    for (failing, expected) in cases {
        let (actions, error) = capture_failing_at(failing, StageReport::TimedOut);
        assert_eq!(error, expected);
        assert!(error.kind().is_timeout());
        assert_eq!(error.status_code(), 408);
        assert_eq!(actions.last(), Some(&Action::CloseSession));
    }
}

#[test]
fn a_request_that_is_done_stays_as_it_is() {
    let (_, run) = drive(capture(), &all_fine);
    let run = run.advance(failed("late")).advance(StageReport::TimedOut);
    assert!(run.is_done());
    assert_eq!(run.action(), Action::Finish);
    assert_eq!(run.into_result(), Some(Ok(PNG.to_vec())));
}

#[test]
fn a_report_without_bytes_gives_no_bytes() {
    let (_, run) = drive(capture(), &|_| StageReport::Completed);
    assert_eq!(run.into_result(), Some(Ok(Vec::new())));
}

#[test]
fn a_recording_takes_ten_frames_a_second_and_encodes_once() {
    for duration in [1u32, 2, 7] {
        let (actions, run) = drive(recording(duration), &all_fine);
        let total = duration * 10;
        assert_eq!(actions.len() as u32, 2 * total + 8);
        assert_eq!(&actions[..3], &[Action::OpenSession, Action::Navigate, Action::Settle]);
        for index in 0..total {
            let at = 3 + 2 * index as usize;
            assert_eq!(actions[at], Action::CaptureFrame { index });
            assert_eq!(actions[at + 1], Action::Pace);
        }
        let rest = 3 + 2 * total as usize;
        assert_eq!(
            &actions[rest..],
            &[
                Action::Encode,
                Action::RemoveFrames { count: total },
                Action::ReadVideo,
                Action::RemoveVideo,
                Action::CloseSession,
            ]
        );
        assert_eq!(count(&actions, Action::Encode), 1);
        assert_eq!(count(&actions, Action::OpenSession), 1);
        assert_eq!(run.into_result(), Some(Ok(b"video".to_vec())));
    }
}

#[test]
fn the_longest_recording_takes_three_thousand_frames() {
    let (actions, run) = drive(recording(300), &all_fine);
    assert_eq!(actions.len(), 6008);
    assert_eq!(actions[6001], Action::CaptureFrame { index: 2999 });
    assert_eq!(actions[6002], Action::Pace);
    assert_eq!(actions[6003], Action::Encode);
    assert_eq!(actions[6004], Action::RemoveFrames { count: 3000 });
    assert!(run.into_result().unwrap().is_ok());
}

#[test]
fn a_recording_is_named_after_its_request() {
    let run = recording(1);
    assert_eq!(run.operation(), Operation::Recording { duration: 1 });
    assert_eq!(run.video_name(), "recording_abc.mp4");
    assert_eq!(run.viewport(), (1920, 1080));
    let (run, _) =
        RecordingService::new().record_screencast("https://example.com", 1, None, None).unwrap();
    assert_eq!(run.action(), Action::OpenSession);
}

#[test]
fn a_frame_that_fails_ends_the_recording_and_the_frames_are_removed() {
    let (actions, run) = drive(recording(1), &|action| match action {
        Action::CaptureFrame { index: 3 } => failed("tab crashed"),
        other => all_fine(other),
    });
    assert_eq!(actions.len(), 3 + 2 * 3 + 1 + 2);
    assert_eq!(actions[9], Action::CaptureFrame { index: 3 });
    assert_eq!(&actions[10..], &[Action::RemoveFrames { count: 4 }, Action::CloseSession]);
    assert_eq!(count(&actions, Action::Encode), 0);
    assert_eq!(
        run.into_result(),
        Some(Err(ApiError::RecordingError("Failed to capture frame 3: tab crashed".to_string())))
    );
}

#[test]
fn a_first_frame_that_hangs_still_has_its_file_removed() {
    let (actions, run) = drive(recording(1), &|action| match action {
        Action::CaptureFrame { .. } => StageReport::TimedOut,
        other => all_fine(other),
    });
    assert_eq!(
        actions,
        vec![
            Action::OpenSession,
            Action::Navigate,
            Action::Settle,
            Action::CaptureFrame { index: 0 },
            Action::RemoveFrames { count: 1 },
            Action::CloseSession,
        ]
    );
    assert_eq!(
        run.into_result(),
        Some(Err(ApiError::BrowserTimeout("Frame capture timeout".to_string())))
    );
}

#[test]
fn a_recording_that_fails_before_its_frames_leaves_nothing_to_remove() {
    let (actions, run) = drive(recording(2), &|action| match action {
        Action::Navigate => failed("dns"),
        other => all_fine(other),
    });
    assert_eq!(actions, vec![Action::OpenSession, Action::Navigate, Action::CloseSession]);
    assert_eq!(
        run.into_result(),
        Some(Err(ApiError::RecordingError("Failed to navigate to URL: dns".to_string())))
    );
}

#[test]
fn an_encoder_that_fails_still_has_frames_and_video_removed() {
    let cases = [
        (
            StageReport::EncoderExited { success: false, diagnostics: "bad codec".to_string() },
            ApiError::RecordingError("ffmpeg failed: bad codec".to_string()),
        ),
        (failed("not found"), ApiError::RecordingError("Failed to run ffmpeg: not found".to_string())),
        (StageReport::TimedOut, ApiError::RequestTimeout("Video encoding timeout".to_string())),
    ];
    for (report, expected) in cases {
        let (actions, run) = drive(recording(1), &|action| match action {
            Action::Encode => report.clone(),
            other => all_fine(other),
        });
        assert_eq!(
            &actions[23..],
            &[
                Action::Encode,
                Action::RemoveFrames { count: 10 },
                Action::RemoveVideo,
                Action::CloseSession,
            ]
        );
        assert_eq!(count(&actions, Action::ReadVideo), 0);
        assert_eq!(run.into_result(), Some(Err(expected)));
    }
}

#[test]
fn frames_that_cannot_be_removed_do_not_spoil_the_video() {
    for report in [failed("busy"), StageReport::TimedOut] {
        let (_, run) = drive(recording(1), &|action| match action {
            Action::RemoveFrames { .. } => report.clone(),
            other => all_fine(other),
        });
        assert_eq!(run.into_result(), Some(Ok(b"video".to_vec())));
    }
}

#[test]
fn a_video_that_cannot_be_read_or_removed_fails_the_recording() {
    let (actions, run) = drive(recording(1), &|action| match action {
        Action::ReadVideo => failed("missing"),
        other => all_fine(other),
    });
    assert_eq!(&actions[25..], &[Action::ReadVideo, Action::RemoveVideo, Action::CloseSession]);
    assert_eq!(
        run.into_result(),
        Some(Err(ApiError::FileSystemError("Failed to read video file: missing".to_string())))
    );

    let (_, run) = drive(recording(1), &|action| match action {
        Action::RemoveVideo => failed("busy"),
        other => all_fine(other),
    });
    assert_eq!(
        run.into_result(),
        Some(Err(ApiError::FileSystemError("Failed to cleanup video file: busy".to_string())))
    );

    let (_, run) = drive(recording(1), &|action| match action {
        Action::RemoveVideo => StageReport::TimedOut,
        other => all_fine(other),
    });
    assert_eq!(
        run.into_result(),
        Some(Err(ApiError::RequestTimeout("File cleanup timeout".to_string())))
    );

    let (_, run) = drive(recording(1), &|action| match action {
        Action::ReadVideo => failed("missing"),
        Action::RemoveVideo => failed("busy"),
        other => all_fine(other),
    });
    assert_eq!(
        run.into_result(),
        Some(Err(ApiError::FileSystemError("Failed to read video file: missing".to_string())))
    );
}

#[test]
fn a_wait_between_frames_that_fails_ends_the_recording() {
    let (actions, run) = drive(recording(1), &|action| match action {
        Action::Pace => StageReport::TimedOut,
        other => all_fine(other),
    });
    assert_eq!(
        &actions[3..],
        &[
            Action::CaptureFrame { index: 0 },
            Action::Pace,
            Action::RemoveFrames { count: 1 },
            Action::CloseSession,
        ]
    );
    assert_eq!(
        run.into_result(),
        Some(Err(ApiError::RequestTimeout("Frame pacing timeout".to_string())))
    );
}

#[test]
fn every_request_ends_whatever_is_reported() {
    let reports = [
        StageReport::Completed,
        StageReport::Data(vec![1]),
        failed("x"),
        StageReport::TimedOut,
        StageReport::EncoderExited { success: false, diagnostics: "d".to_string() },
    ];
    for seed in 0..200usize {
        let mut run = if seed % 2 == 0 { capture() } else { recording(1) };
        let mut steps = 0usize;
        let mut state = seed;
        while !run.is_done() {
            state = state.wrapping_mul(6364136223846793005).wrapping_add(1442695040888963407);
            let pick = if (state >> 33) % 4 == 0 { (state >> 40) % 5 } else { 0 };
            run = run.advance(reports[pick].clone());
            steps += 1;
            assert!(steps <= 30);
        }
        assert!(run.into_result().is_some());
    }
}

#[test]
fn a_failure_is_translated_by_stage_and_report() {
    let shot = Operation::Screenshot;
    let clip = Operation::Recording { duration: 3 };
    assert_eq!(
        stage_failure(shot, Stage::Navigating, 0, &failed("x")),
        ApiError::ScreenshotError("Failed to navigate to URL: x".to_string())
    );
    assert_eq!(
        stage_failure(clip, Stage::Navigating, 0, &failed("x")),
        ApiError::RecordingError("Failed to navigate to URL: x".to_string())
    );
    assert_eq!(
        stage_failure(clip, Stage::FrameCapturing, 29, &failed("x")),
        ApiError::RecordingError("Failed to capture frame 29: x".to_string())
    );
    assert_eq!(
        stage_failure(clip, Stage::SessionClosing, 0, &failed("x")),
        ApiError::BrowserError("Failed to quit driver: x".to_string())
    );
    assert_eq!(
        stage_failure(clip, Stage::FramesRemoving, 0, &failed("x")),
        ApiError::FileSystemError("Failed to cleanup frame files: x".to_string())
    );
    assert_eq!(
        stage_failure(clip, Stage::FramePacing, 0, &failed("x")),
        ApiError::IoError("Failed to wait for the next frame: x".to_string())
    );
    assert_eq!(
        stage_failure(shot, Stage::Done, 0, &failed("x")),
        ApiError::IoError("x".to_string())
    );
    assert_eq!(
        stage_failure(shot, Stage::Capturing, 0, &StageReport::Completed),
        ApiError::ScreenshotError("Failed to capture screenshot: ".to_string())
    );
    let stages = [
        Stage::SessionOpening,
        Stage::Navigating,
        Stage::Settling,
        Stage::FileCreating,
        Stage::Capturing,
        Stage::Reading,
        Stage::FrameCapturing,
        Stage::FramePacing,
        Stage::Encoding,
        Stage::FramesRemoving,
        Stage::VideoReading,
        Stage::VideoRemoving,
        Stage::SessionClosing,
        Stage::Done,
    ];
    for stage in stages {
        for operation in [shot, clip] {
            let hung = stage_failure(operation, stage, 1, &StageReport::TimedOut);
            assert!(hung.kind().is_timeout());
            let broke = stage_failure(operation, stage, 1, &failed("x"));
            assert!(!broke.kind().is_timeout());
            assert_ne!(broke.kind(), ErrorKind::InvalidRequest);
        }
    }
}

#[test]
fn a_report_knows_what_it_says() {
    assert!(StageReport::Completed.succeeded());
    assert!(StageReport::Data(vec![]).succeeded());
    assert!(StageReport::EncoderExited { success: true, diagnostics: "w".into() }.succeeded());
    assert!(!StageReport::EncoderExited { success: false, diagnostics: "w".into() }.succeeded());
    assert!(!failed("x").succeeded());
    assert!(!StageReport::TimedOut.succeeded());
    assert!(StageReport::TimedOut.timed_out());
    assert!(!failed("x").timed_out());
    assert_eq!(failed("x").cause(), "x");
    assert_eq!(StageReport::TimedOut.cause(), "");
    assert_eq!(
        StageReport::EncoderExited { success: false, diagnostics: "w".into() }.cause(),
        "w"
    );
    assert_eq!(StageReport::Data(vec![1, 2]).into_payload(), vec![1, 2]);
    assert_eq!(StageReport::Completed.into_payload(), Vec::<u8>::new());
}

#[test]
fn every_action_has_its_deadline() {
    assert_eq!(Action::OpenSession.time_limit_secs(), 10);
    assert_eq!(Action::Navigate.time_limit_secs(), 30);
    assert_eq!(Action::Settle.time_limit_secs(), 5);
    assert_eq!(Action::CreateImageFile.time_limit_secs(), 10);
    assert_eq!(Action::CaptureImage.time_limit_secs(), 15);
    assert_eq!(Action::ReadImage.time_limit_secs(), 10);
    assert_eq!(Action::CaptureFrame { index: 7 }.time_limit_secs(), 15);
    assert_eq!(Action::Pace.time_limit_secs(), 5);
    assert_eq!(Action::Encode.time_limit_secs(), 600);
    assert_eq!(Action::RemoveFrames { count: 7 }.time_limit_secs(), 10);
    assert_eq!(Action::ReadVideo.time_limit_secs(), 10);
    assert_eq!(Action::RemoveVideo.time_limit_secs(), 10);
    assert_eq!(Action::CloseSession.time_limit_secs(), 5);
    assert_eq!(Action::Finish.time_limit_secs(), 0);
    assert_eq!(screech::stage::SETTLE_DELAY_SECS, 2);
    assert_eq!(screech::stage::FRAME_RATE, 10);
}
