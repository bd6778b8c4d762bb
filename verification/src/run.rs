use crate::error::{ApiError, Fault};
use crate::request::{
    capture_defect, check_duration, check_length, check_scheme, check_url, check_viewport,
    duration_out_of_range, recording_defect, url_defect, viewport, viewport_of, MAX_DIMENSION,
    MIN_DIMENSION,
};
use crate::stage::{
    failure_of, pending_outcome_of, stage_failure, Action, Operation, Outcome, Report, Stage,
    StageReport, FRAME_RATE,
};
use vstd::prelude::*;

verus! {

/// What a request in progress is to the contracts.
pub ghost struct RunModel {
    pub operation: Operation,
    pub url: Seq<char>,
    pub width: u32,
    pub height: u32,
    /// Name of the video file; empty for a screenshot.
    pub video_name: Seq<char>,
    pub stage: Stage,
    /// Frames taken so far, each into a file of its own.
    pub frames_captured: nat,
    /// Frame files that may exist: those of the indices below this number.
    pub frames_on_disk: nat,
    /// Whether the encoder has run, so that the video file may exist.
    pub video_on_disk: bool,
    /// The result, once the bytes are in hand or a stage has failed.
    pub outcome: Option<Outcome>,
}

impl RunModel {
    /// Frames that the operation takes in all: the duration times the frame rate.
    pub open spec fn total_frames(self) -> nat {
        self.operation.total_frames()
    }

    /// Whether the request was accepted and its record is consistent with its stage.
    pub open spec fn wf(self) -> bool {
        &&& url_defect(self.url) is None
        &&& MIN_DIMENSION <= self.width <= MAX_DIMENSION
        &&& MIN_DIMENSION <= self.height <= MAX_DIMENSION
        &&& match self.operation {
            Operation::Screenshot => !(self.stage is FrameCapturing || self.stage is FramePacing
                || self.stage is Encoding || self.stage is FramesRemoving
                || self.stage is VideoReading || self.stage is VideoRemoving),
            Operation::Recording { duration } => !duration_out_of_range(duration) && !(
            self.stage is FileCreating || self.stage is Capturing || self.stage is Reading),
        }
        &&& self.frames_captured <= self.total_frames()
        &&& self.frames_on_disk <= self.total_frames()
        &&& self.video_on_disk ==> self.frames_captured == self.total_frames()
        &&& match self.stage {
            Stage::SessionOpening
            | Stage::Navigating
            | Stage::Settling
            | Stage::FileCreating
            | Stage::Capturing
            | Stage::Reading => self.outcome is None && self.frames_captured == 0
                && self.frames_on_disk == 0 && !self.video_on_disk,
            Stage::FrameCapturing => self.outcome is None && self.frames_captured
                < self.total_frames() && self.frames_on_disk == self.frames_captured
                && !self.video_on_disk,
            Stage::FramePacing => self.outcome is None && 1 <= self.frames_captured
                && self.frames_on_disk == self.frames_captured && !self.video_on_disk,
            Stage::Encoding => self.outcome is None && self.frames_captured == self.total_frames()
                && self.frames_on_disk == self.total_frames() && !self.video_on_disk,
            Stage::FramesRemoving => self.frames_on_disk > 0 && !(self.outcome matches Some(Ok(_)))
                && (self.outcome is None ==> self.video_on_disk),
            Stage::VideoReading => self.outcome is None && self.frames_on_disk == 0
                && self.video_on_disk,
            Stage::VideoRemoving => self.outcome is Some && self.frames_on_disk == 0
                && self.video_on_disk,
            Stage::SessionClosing | Stage::Done => self.outcome is Some && self.frames_on_disk == 0
                && !self.video_on_disk,
        }
    }

    /// What the host is to do at this stage.
    pub open spec fn action(self) -> Action {
        match self.stage {
            Stage::SessionOpening => Action::OpenSession,
            Stage::Navigating => Action::Navigate,
            Stage::Settling => Action::Settle,
            Stage::FileCreating => Action::CreateImageFile,
            Stage::Capturing => Action::CaptureImage,
            Stage::Reading => Action::ReadImage,
            Stage::FrameCapturing => Action::CaptureFrame { index: self.frames_captured as u32 },
            Stage::FramePacing => Action::Pace,
            Stage::Encoding => Action::Encode,
            Stage::FramesRemoving => Action::RemoveFrames { count: self.frames_on_disk as u32 },
            Stage::VideoReading => Action::ReadVideo,
            Stage::VideoRemoving => Action::RemoveVideo,
            Stage::SessionClosing => Action::CloseSession,
            Stage::Done => Action::Finish,
        }
    }

    /// The failure that a report other than a success means at this stage.
    pub open spec fn failure(self, report: Report) -> Fault {
        failure_of(self.operation, self.stage, self.frames_captured as u32, report)
    }

    /// This record with the result set to the given failure.
    pub open spec fn failed(self, report: Report) -> RunModel {
        RunModel { outcome: Some(Err(self.failure(report))), ..self }
    }

    /// This record at the first stage of the way out: what lies on disk is removed, frames
    /// before the video, and then the session is closed.
    pub open spec fn wind_down(self) -> RunModel {
        RunModel {
            stage: if self.frames_on_disk > 0 {
                Stage::FramesRemoving
            } else if self.video_on_disk {
                Stage::VideoRemoving
            } else {
                Stage::SessionClosing
            },
            ..self
        }
    }

    /// This record at the given stage.
    pub open spec fn at(self, stage: Stage) -> RunModel {
        RunModel { stage, ..self }
    }

    /// The record after the host has reported how the action of this stage ended.
    ///
    /// A stage that succeeds hands over to the next one. The first stage that fails sets the
    /// result to its failure and starts the way out; no stage is tried again. What fails on
    /// the way out does not replace a failure that is already recorded, and a session that
    /// cannot be closed changes nothing.
    pub open spec fn step(self, report: Report) -> RunModel {
        match self.stage {
            Stage::SessionOpening => if report.succeeded() {
                self.at(Stage::Navigating)
            } else {
                self.failed(report).at(Stage::Done)
            },
            Stage::Navigating => if report.succeeded() {
                self.at(Stage::Settling)
            } else {
                self.failed(report).wind_down()
            },
            Stage::Settling => if report.succeeded() {
                match self.operation {
                    Operation::Screenshot => self.at(Stage::FileCreating),
                    Operation::Recording { .. } => self.at(Stage::FrameCapturing),
                }
            } else {
                self.failed(report).wind_down()
            },
            Stage::FileCreating => if report.succeeded() {
                self.at(Stage::Capturing)
            } else {
                self.failed(report).wind_down()
            },
            Stage::Capturing => if report.succeeded() {
                self.at(Stage::Reading)
            } else {
                self.failed(report).wind_down()
            },
            Stage::Reading | Stage::VideoReading => if report.succeeded() {
                RunModel { outcome: Some(Ok(report.payload())), ..self }.wind_down()
            } else {
                self.failed(report).wind_down()
            },
            Stage::FrameCapturing => if report.succeeded() {
                RunModel {
                    frames_captured: self.frames_captured + 1,
                    frames_on_disk: self.frames_captured + 1,
                    ..self
                }.at(Stage::FramePacing)
            } else {
                RunModel { frames_on_disk: self.frames_captured + 1, ..self.failed(report) }.wind_down()
            },
            Stage::FramePacing => if report.succeeded() {
                if self.frames_captured >= self.total_frames() {
                    self.at(Stage::Encoding)
                } else {
                    self.at(Stage::FrameCapturing)
                }
            } else {
                self.failed(report).wind_down()
            },
            Stage::Encoding => if report.succeeded() {
                RunModel { video_on_disk: true, ..self }.at(Stage::FramesRemoving)
            } else {
                RunModel { video_on_disk: true, ..self.failed(report) }.at(Stage::FramesRemoving)
            },
            Stage::FramesRemoving => {
                let cleared = RunModel { frames_on_disk: 0, ..self };
                if cleared.outcome is None {
                    cleared.at(Stage::VideoReading)
                } else {
                    cleared.wind_down()
                }
            },
            Stage::VideoRemoving => {
                let cleared = RunModel { video_on_disk: false, ..self }.at(Stage::SessionClosing);
                if !report.succeeded() && self.outcome matches Some(Ok(_)) {
                    RunModel { outcome: Some(Err(self.failure(report))), ..cleared }
                } else {
                    cleared
                }
            },
            Stage::SessionClosing => self.at(Stage::Done),
            Stage::Done => self,
        }
    }

    /// How far the request has come: a number that every step raises until the request is
    /// done.
    pub open spec fn progress(self) -> nat {
        let way_out = 2 * self.total_frames() + 6;
        match self.stage {
            Stage::SessionOpening => 0,
            Stage::Navigating => 1,
            Stage::Settling => 2,
            Stage::FileCreating => 3,
            Stage::Capturing => 4,
            Stage::Reading => 5,
            Stage::FrameCapturing => 3 + 2 * self.frames_captured,
            Stage::FramePacing => 2 + 2 * self.frames_captured,
            Stage::Encoding => 3 + 2 * self.total_frames(),
            Stage::FramesRemoving => way_out,
            Stage::VideoReading => way_out + 1,
            Stage::VideoRemoving => way_out + 2,
            Stage::SessionClosing => way_out + 3,
            Stage::Done => way_out + 4,
        }
    }

    /// The record after the host has reported on one action after the other.
    pub open spec fn run(self, reports: Seq<Report>) -> RunModel
        decreases reports.len(),
    {
        if reports.len() == 0 {
            self
        } else {
            self.run(reports.drop_last()).step(reports.last())
        }
    }

    /// The actions that the host is asked for while it makes the given reports, one for each
    /// report.
    pub open spec fn actions(self, reports: Seq<Report>) -> Seq<Action> {
        Seq::new(reports.len(), |i: int| self.run(reports.take(i)).action())
    }
}

/// A step keeps the record consistent, changes nothing of the request itself, and brings
/// the request further unless it is done.
pub proof fn lemma_step_is_sound(m: RunModel, report: Report)
    requires
        m.wf(),
    ensures
        m.step(report).wf(),
        m.step(report).operation == m.operation,
        m.step(report).url == m.url,
        m.step(report).width == m.width,
        m.step(report).height == m.height,
        m.step(report).video_name == m.video_name,
        m.stage != Stage::Done ==> m.step(report).progress() > m.progress(),
        m.stage == Stage::Done ==> m.step(report) == m,
        m.progress() <= 2 * m.total_frames() + 10,
{
}

/// The record of a request that was accepted and has not begun: nothing is on disk, and the
/// first thing to do is to open a session.
pub open spec fn initial_model(
    operation: Operation,
    url: Seq<char>,
    viewport: (u32, u32),
    video_name: Seq<char>,
) -> RunModel {
    RunModel {
        operation,
        url,
        width: viewport.0,
        height: viewport.1,
        video_name,
        stage: Stage::SessionOpening,
        frames_captured: 0,
        frames_on_disk: 0,
        video_on_disk: false,
        outcome: None,
    }
}

/// The name of the video file of the request with the given identifier.
pub open spec fn video_name_of(request_id: Seq<char>) -> Seq<char> {
    "recording_"@ + request_id + ".mp4"@
}

/// A request in progress: what was asked, how far it has come, what lies on disk, and the
/// result once there is one. It is made only for a request that was accepted, and moved on
/// only by [`Run::advance`].
#[derive(Debug)]
pub struct Run {
    operation: Operation,
    url: String,
    width: u32,
    height: u32,
    video_name: String,
    stage: Stage,
    frames_captured: u32,
    frames_on_disk: u32,
    video_on_disk: bool,
    outcome: Option<Result<Vec<u8>, ApiError>>,
}

impl View for Run {
    type V = RunModel;

    closed spec fn view(&self) -> RunModel {
        RunModel {
            operation: self.operation,
            url: self.url@,
            width: self.width,
            height: self.height,
            video_name: self.video_name@,
            stage: self.stage,
            frames_captured: self.frames_captured as nat,
            frames_on_disk: self.frames_on_disk as nat,
            video_on_disk: self.video_on_disk,
            outcome: pending_outcome_of(self.outcome),
        }
    }
}

fn way_out(frames_on_disk: u32, video_on_disk: bool) -> (stage: Stage)
    ensures
        stage == if frames_on_disk > 0 {
            Stage::FramesRemoving
        } else if video_on_disk {
            Stage::VideoRemoving
        } else {
            Stage::SessionClosing
        },
{
    if frames_on_disk > 0 {
        Stage::FramesRemoving
    } else if video_on_disk {
        Stage::VideoRemoving
    } else {
        Stage::SessionClosing
    }
}

impl Run {
    #[verifier::type_invariant]
    closed spec fn consistent(self) -> bool {
        self@.wf()
    }

    /// Accepts a request for one image and makes its record, or refuses it with the first
    /// constraint that it breaks: the address is judged before the viewport.
    pub fn begin_capture(url: &str, width: Option<u32>, height: Option<u32>) -> (result: Result<
        Run,
        ApiError,
    >)
        ensures
            match capture_defect(url@, width, height) {
                Some(f) => result matches Err(e) && e@ == f,
                None => result matches Ok(run) && run@ == initial_model(
                    Operation::Screenshot,
                    url@,
                    viewport_of(width, height),
                    Seq::empty(),
                ) && run@.wf(),
            },
    {
        match check_url(url) {
            Err(e) => {
                return Err(e);
            },
            Ok(()) => {},
        }
        match check_viewport(width, height) {
            Err(e) => {
                return Err(e);
            },
            Ok(()) => {},
        }
        let (w, h) = viewport(width, height);
        Ok(
            Run {
                operation: Operation::Screenshot,
                url: String::from_str(url),
                width: w,
                height: h,
                video_name: String::new(),
                stage: Stage::SessionOpening,
                frames_captured: 0,
                frames_on_disk: 0,
                video_on_disk: false,
                outcome: None,
            },
        )
    }

    /// Accepts a request for a recording and makes its record, with a video file named
    /// after `request_id`; or refuses it with the first constraint that it breaks: the
    /// scheme of the address is judged first, then the duration, then the length of the
    /// address, then the viewport.
    pub fn begin_recording(
        url: &str,
        duration: u32,
        width: Option<u32>,
        height: Option<u32>,
        request_id: &str,
    ) -> (result: Result<Run, ApiError>)
        ensures
            match recording_defect(url@, duration, width, height) {
                Some(f) => result matches Err(e) && e@ == f,
                None => result matches Ok(run) && run@ == initial_model(
                    Operation::Recording { duration },
                    url@,
                    viewport_of(width, height),
                    video_name_of(request_id@),
                ) && run@.wf(),
            },
    {
        match check_scheme(url) {
            Err(e) => {
                return Err(e);
            },
            Ok(()) => {},
        }
        match check_duration(duration) {
            Err(e) => {
                return Err(e);
            },
            Ok(()) => {},
        }
        match check_length(url) {
            Err(e) => {
                return Err(e);
            },
            Ok(()) => {},
        }
        match check_viewport(width, height) {
            Err(e) => {
                return Err(e);
            },
            Ok(()) => {},
        }
        let (w, h) = viewport(width, height);
        let mut video_name = String::from_str("recording_");
        video_name.append(request_id);
        video_name.append(".mp4");
        Ok(
            Run {
                operation: Operation::Recording { duration },
                url: String::from_str(url),
                width: w,
                height: h,
                video_name,
                stage: Stage::SessionOpening,
                frames_captured: 0,
                frames_on_disk: 0,
                video_on_disk: false,
                outcome: None,
            },
        )
    }

    /// What was asked for.
    pub fn operation(&self) -> (operation: Operation)
        ensures
            operation == self@.operation,
    {
        self.operation
    }

    /// The address of the page.
    pub fn url(&self) -> (url: &str)
        ensures
            url@ == self@.url,
    {
        self.url.as_str()
    }

    /// Width and height of the browser window, in pixels.
    pub fn viewport(&self) -> (size: (u32, u32))
        ensures
            size == (self@.width, self@.height),
    {
        (self.width, self.height)
    }

    /// Name of the video file; empty for a screenshot.
    pub fn video_name(&self) -> (name: &str)
        ensures
            name@ == self@.video_name,
    {
        self.video_name.as_str()
    }

    /// Where the request stands.
    pub fn stage(&self) -> (stage: Stage)
        ensures
            stage == self@.stage,
    {
        self.stage
    }

    /// Whether the request has its result and nothing is left to do.
    pub fn is_done(&self) -> (done: bool)
        ensures
            done == (self@.stage == Stage::Done),
    {
        match self.stage {
            Stage::Done => true,
            _ => false,
        }
    }

    /// What the host is to do now. Whatever it is, the request behind it was accepted.
    pub fn action(&self) -> (action: Action)
        ensures
            action == self@.action(),
            self@.wf(),
    {
        proof {
            use_type_invariant(self);
        }
        match self.stage {
            Stage::SessionOpening => Action::OpenSession,
            Stage::Navigating => Action::Navigate,
            Stage::Settling => Action::Settle,
            Stage::FileCreating => Action::CreateImageFile,
            Stage::Capturing => Action::CaptureImage,
            Stage::Reading => Action::ReadImage,
            Stage::FrameCapturing => Action::CaptureFrame { index: self.frames_captured },
            Stage::FramePacing => Action::Pace,
            Stage::Encoding => Action::Encode,
            Stage::FramesRemoving => Action::RemoveFrames { count: self.frames_on_disk },
            Stage::VideoReading => Action::ReadVideo,
            Stage::VideoRemoving => Action::RemoveVideo,
            Stage::SessionClosing => Action::CloseSession,
            Stage::Done => Action::Finish,
        }
    }

    /// Takes the host's report on the action of this stage and moves the request on.
    pub fn advance(self, report: StageReport) -> (next: Run)
        ensures
            next@ == self@.step(report@),
            self@.wf(),
            next@.wf(),
    {
        proof {
            use_type_invariant(&self);
            lemma_step_is_sound(self@, report@);
        }
        let ghost before = self@;
        let ghost told = report@;
        let Run {
            operation,
            url,
            width,
            height,
            video_name,
            stage,
            frames_captured,
            frames_on_disk,
            video_on_disk,
            outcome,
        } = self;
        let done = report.succeeded();
        let mut next_stage = stage;
        let mut captured = frames_captured;
        let mut on_disk = frames_on_disk;
        let mut video = video_on_disk;
        let mut result = outcome;
        match stage {
            Stage::SessionOpening => {
                if done {
                    next_stage = Stage::Navigating;
                } else {
                    result = Some(Err(stage_failure(operation, stage, frames_captured, &report)));
                    next_stage = Stage::Done;
                }
            },
            Stage::Navigating | Stage::Settling | Stage::FileCreating | Stage::Capturing => {
                if done {
                    next_stage = match stage {
                        Stage::Navigating => Stage::Settling,
                        Stage::Settling => match operation {
                            Operation::Screenshot => Stage::FileCreating,
                            Operation::Recording { .. } => Stage::FrameCapturing,
                        },
                        Stage::FileCreating => Stage::Capturing,
                        _ => Stage::Reading,
                    };
                } else {
                    result = Some(Err(stage_failure(operation, stage, frames_captured, &report)));
                    next_stage = way_out(on_disk, video);
                }
            },
            Stage::Reading | Stage::VideoReading => {
                if done {
                    result = Some(Ok(report.into_payload()));
                } else {
                    result = Some(Err(stage_failure(operation, stage, frames_captured, &report)));
                }
                next_stage = way_out(on_disk, video);
            },
            Stage::FrameCapturing => {
                on_disk = frames_captured + 1;
                if done {
                    captured = frames_captured + 1;
                    next_stage = Stage::FramePacing;
                } else {
                    result = Some(Err(stage_failure(operation, stage, frames_captured, &report)));
                    next_stage = way_out(on_disk, video);
                }
            },
            Stage::FramePacing => {
                if done {
                    let total = match operation {
                        Operation::Screenshot => 0,
                        Operation::Recording { duration } => duration * FRAME_RATE,
                    };
                    next_stage = if frames_captured >= total {
                        Stage::Encoding
                    } else {
                        Stage::FrameCapturing
                    };
                } else {
                    result = Some(Err(stage_failure(operation, stage, frames_captured, &report)));
                    next_stage = way_out(on_disk, video);
                }
            },
            Stage::Encoding => {
                video = true;
                if !done {
                    result = Some(Err(stage_failure(operation, stage, frames_captured, &report)));
                }
                next_stage = Stage::FramesRemoving;
            },
            Stage::FramesRemoving => {
                on_disk = 0;
                next_stage = if result.is_none() {
                    Stage::VideoReading
                } else {
                    way_out(on_disk, video)
                };
            },
            Stage::VideoRemoving => {
                video = false;
                next_stage = Stage::SessionClosing;
                let has_bytes = match &result {
                    Some(Ok(_)) => true,
                    _ => false,
                };
                if !done && has_bytes {
                    result = Some(Err(stage_failure(operation, stage, frames_captured, &report)));
                }
            },
            Stage::SessionClosing => {
                next_stage = Stage::Done;
            },
            Stage::Done => {},
        }
        let next = Run {
            operation,
            url,
            width,
            height,
            video_name,
            stage: next_stage,
            frames_captured: captured,
            frames_on_disk: on_disk,
            video_on_disk: video,
            outcome: result,
        };
        assert(next@ == before.step(told));
        next
    }

    /// The result of the request once it is done, and `None` before that.
    pub fn into_result(self) -> (result: Option<Result<Vec<u8>, ApiError>>)
        ensures
            self@.wf(),
            self@.stage == Stage::Done ==> result is Some && pending_outcome_of(result)
                == self@.outcome,
            self@.stage != Stage::Done ==> result is None,
    {
        proof {
            use_type_invariant(&self);
        }
        match self.stage {
            Stage::Done => self.outcome,
            _ => None,
        }
    }
}

} // verus!
