use crate::encoding::base64_of;
use crate::error::{is_timeout, Fault};
use crate::request::{capture_defect, recording_defect, viewport_of};
use crate::response::{answer_of, said, STATUS_OK};
use crate::run::{initial_model, lemma_step_is_sound, RunModel};
use crate::stage::{Action, Operation, Report, Stage};
use vstd::prelude::*;

verus! {

// What holds of every request, stated over the record of a request and proved for every
// list of reports that a host can make.

/// Reporting on one list of actions and then on another is reporting on both in a row.
pub proof fn lemma_run_in_two_parts(m: RunModel, first: Seq<Report>, second: Seq<Report>)
    ensures
        m.run(first + second) == m.run(first).run(second),
    decreases second.len(),
{
    if second.len() == 0 {
        assert(first + second =~= first);
    } else {
        lemma_run_in_two_parts(m, first, second.drop_last());
        assert((first + second).drop_last() =~= first + second.drop_last());
        assert((first + second).last() == second.last());
    }
}

/// Whatever the host reports, the record stays consistent and the request stays what it
/// was; and as long as the request is not done, every report has brought it further.
pub proof fn lemma_run_is_sound(m: RunModel, reports: Seq<Report>)
    requires
        m.wf(),
    ensures
        m.run(reports).wf(),
        m.run(reports).operation == m.operation,
        m.run(reports).url == m.url,
        m.run(reports).width == m.width,
        m.run(reports).height == m.height,
        m.run(reports).video_name == m.video_name,
        m.run(reports).progress() >= m.progress(),
        m.run(reports).stage != Stage::Done ==> m.run(reports).progress() >= m.progress()
            + reports.len(),
        m.stage == Stage::Done ==> m.run(reports) == m,
    decreases reports.len(),
{
    if reports.len() > 0 {
        lemma_run_is_sound(m, reports.drop_last());
        lemma_step_is_sound(m.run(reports.drop_last()), reports.last());
    }
}

/// Every request comes to its end: after at most two reports for each frame and ten more,
/// it is done, whatever was reported.
pub proof fn lemma_request_finishes(m: RunModel, reports: Seq<Report>)
    requires
        m.wf(),
        reports.len() >= 2 * m.total_frames() + 10,
    ensures
        m.run(reports).stage == Stage::Done,
{
    lemma_run_is_sound(m, reports);
    lemma_step_is_sound(m.run(reports), Report::Completed);
}

/// The seconds that a list of actions may take at most: the sum of their time limits.
pub open spec fn time_budget(actions: Seq<Action>) -> nat
    decreases actions.len(),
{
    if actions.len() == 0 {
        0
    } else {
        time_budget(actions.drop_last()) + actions.last().spec_time_limit_secs() as nat
    }
}

/// No request takes for ever: every action has its time limit, of ten minutes at most, and
/// a request asks for no more than two actions for each frame and ten more. So the time
/// that all its actions may take together is bounded by the request alone, whatever is
/// reported.
pub proof fn lemma_request_takes_bounded_time(m: RunModel, reports: Seq<Report>)
    requires
        m.wf(),
    ensures
        time_budget(m.actions(reports)) <= 600 * (m.run(reports).progress() - m.progress()),
        time_budget(m.actions(reports)) <= 600 * (2 * m.total_frames() + 10),
    decreases reports.len(),
{
    lemma_run_is_sound(m, reports);
    lemma_step_is_sound(m.run(reports), Report::Completed);
    if reports.len() > 0 {
        let front = reports.drop_last();
        lemma_request_takes_bounded_time(m, front);
        lemma_run_is_sound(m, front);
        lemma_step_is_sound(m.run(front), reports.last());
        assert(m.actions(reports).drop_last() =~= m.actions(front)) by {
            assert forall|i: int| 0 <= i < front.len() implies reports.take(i) == front.take(i) by {
                assert(reports.take(i) =~= front.take(i));
            }
        }
        assert(reports.take(front.len() as int) =~= front);
        assert(m.actions(reports).last() == m.run(front).action());
    } else {
        assert(m.actions(reports) =~= Seq::<Action>::empty());
    }
}

/// Nothing is tried again: but for the wait between two frames, and for `Finish` once the
/// request is done, no action is asked for twice. In particular a request opens one session
/// at most, takes each image once at most, and runs the encoder once at most.
pub proof fn lemma_no_action_is_repeated(m: RunModel, reports: Seq<Report>, i: int, j: int)
    requires
        m.wf(),
        0 <= i < j < reports.len(),
        m.actions(reports)[i] == m.actions(reports)[j],
    ensures
        m.actions(reports)[i] == Action::Finish || m.actions(reports)[i] == Action::Pace,
{
    let earlier = m.run(reports.take(i));
    let later = m.run(reports.take(j));
    let between = reports.subrange(i, j);
    assert(reports.take(j) =~= reports.take(i) + between);
    lemma_run_in_two_parts(m, reports.take(i), between);
    lemma_run_is_sound(m, reports.take(i));
    lemma_run_is_sound(earlier, between);
    assert(later == earlier.run(between));
}

/// A request for one image never asks for a frame, for the wait between frames, for the
/// encoder, nor for anything to be done to frame files or a video file.
pub proof fn lemma_screenshot_never_encodes(m: RunModel, reports: Seq<Report>, i: int)
    requires
        m.wf(),
        m.operation == Operation::Screenshot,
        0 <= i < reports.len(),
    ensures
        !(m.actions(reports)[i] is CaptureFrame),
        m.actions(reports)[i] != Action::Pace,
        m.actions(reports)[i] != Action::Encode,
        !(m.actions(reports)[i] is RemoveFrames),
        m.actions(reports)[i] != Action::ReadVideo,
        m.actions(reports)[i] != Action::RemoveVideo,
{
    lemma_run_is_sound(m, reports.take(i));
}

/// Where every stage of a request for one image does its work, the host is asked to open a
/// session, load the page, wait, create the file, take the image, read it and close the
/// session, in this order and each once; the request is then done, and its result is the
/// bytes that were read, whatever the closing of the session reported.
pub proof fn lemma_successful_capture(
    url: Seq<char>,
    viewport: (u32, u32),
    reports: Seq<Report>,
)
    requires
        reports.len() == 7,
        forall|i: int| 0 <= i < 6 ==> (#[trigger] reports[i]).succeeded(),
    ensures
        ({
            let m = initial_model(Operation::Screenshot, url, viewport, Seq::empty());
            &&& m.run(reports).stage == Stage::Done
            &&& m.run(reports).outcome == Some(Ok::<Seq<u8>, Fault>(reports[5].payload()))
            &&& m.actions(reports) == seq![
                Action::OpenSession,
                Action::Navigate,
                Action::Settle,
                Action::CreateImageFile,
                Action::CaptureImage,
                Action::ReadImage,
                Action::CloseSession,
            ]
        }),
{
    let m = initial_model(Operation::Screenshot, url, viewport, Seq::empty());
    let s0 = m.run(reports.take(0));
    assert(reports.take(0) =~= Seq::<Report>::empty());
    assert(s0 == m);
    let s1 = m.run(reports.take(1));
    assert(reports.take(1).drop_last() =~= reports.take(0));
    assert(s1 == s0.step(reports[0]));
    let s2 = m.run(reports.take(2));
    assert(reports.take(2).drop_last() =~= reports.take(1));
    assert(s2 == s1.step(reports[1]));
    let s3 = m.run(reports.take(3));
    assert(reports.take(3).drop_last() =~= reports.take(2));
    assert(s3 == s2.step(reports[2]));
    let s4 = m.run(reports.take(4));
    assert(reports.take(4).drop_last() =~= reports.take(3));
    assert(s4 == s3.step(reports[3]));
    let s5 = m.run(reports.take(5));
    assert(reports.take(5).drop_last() =~= reports.take(4));
    assert(s5 == s4.step(reports[4]));
    let s6 = m.run(reports.take(6));
    assert(reports.take(6).drop_last() =~= reports.take(5));
    assert(s6 == s5.step(reports[5]));
    assert(reports.drop_last() =~= reports.take(6));
    assert(m.run(reports) == s6.step(reports[6]));
    assert(m.actions(reports) =~= seq![
        Action::OpenSession,
        Action::Navigate,
        Action::Settle,
        Action::CreateImageFile,
        Action::CaptureImage,
        Action::ReadImage,
        Action::CloseSession,
    ]);
}

/// The first failure is the result: nothing that is reported later replaces it.
pub proof fn lemma_first_failure_stays(m: RunModel, reports: Seq<Report>)
    requires
        m.wf(),
        m.outcome matches Some(Err(_)),
    ensures
        m.run(reports).outcome == m.outcome,
    decreases reports.len(),
{
    if reports.len() > 0 {
        lemma_first_failure_stays(m, reports.drop_last());
        lemma_run_is_sound(m, reports.drop_last());
    }
}

/// A stage that runs past its deadline ends the request with a failure of a timeout kind:
/// wherever no result is in hand yet, that failure becomes the result, and stays the result
/// whatever is reported later. The one stage that is left out is the removal of the frame
/// files, of which no failure counts.
pub proof fn lemma_deadline_gives_timeout(m: RunModel, later: Seq<Report>)
    requires
        m.wf(),
        m.outcome is None,
        m.stage != Stage::FramesRemoving,
    ensures
        m.step(Report::TimedOut).outcome matches Some(Err(f)) && is_timeout(f.kind),
        m.step(Report::TimedOut).run(later).outcome == m.step(Report::TimedOut).outcome,
{
    lemma_step_is_sound(m, Report::TimedOut);
    lemma_first_failure_stays(m.step(Report::TimedOut), later);
}

/// A video file that cannot be deleted in time, after its bytes were read, ends the
/// request with a failure of a timeout kind too.
pub proof fn lemma_cleanup_deadline_gives_timeout(m: RunModel, later: Seq<Report>)
    requires
        m.wf(),
        m.stage == Stage::VideoRemoving,
        m.outcome matches Some(Ok(_)),
    ensures
        m.step(Report::TimedOut).outcome matches Some(Err(f)) && is_timeout(f.kind),
        m.step(Report::TimedOut).run(later).outcome == m.step(Report::TimedOut).outcome,
{
    lemma_step_is_sound(m, Report::TimedOut);
    lemma_first_failure_stays(m.step(Report::TimedOut), later);
}

/// Once the bytes are in hand and the session is all that is left, nothing that the closing
/// of the session reports changes the result: the request is done, with those bytes.
pub proof fn lemma_teardown_keeps_result(m: RunModel, report: Report)
    requires
        m.wf(),
        m.stage == Stage::SessionClosing,
    ensures
        m.step(report).stage == Stage::Done,
        m.step(report).outcome == m.outcome,
        m.step(report).outcome is Some,
{
}

/// When a request is done, no frame file and no video file is left, whether it succeeded
/// or failed.
pub proof fn lemma_done_leaves_nothing(m: RunModel, reports: Seq<Report>)
    requires
        m.wf(),
        m.run(reports).stage == Stage::Done,
    ensures
        m.run(reports).frames_on_disk == 0,
        !m.run(reports).video_on_disk,
        m.run(reports).outcome is Some,
{
    lemma_run_is_sound(m, reports);
}

/// Whether the request is still at its work: before the way out, on which what lies on
/// disk is removed and the session is closed.
pub open spec fn on_course(m: RunModel) -> bool {
    m.progress() < 2 * m.total_frames() + 6
}

/// A step that leaves the request at its work was the success of a stage at work, and
/// brought the request one stage further.
pub proof fn lemma_step_on_course(m: RunModel, report: Report)
    requires
        m.wf(),
        on_course(m.step(report)),
    ensures
        on_course(m),
        report.succeeded(),
        m.step(report).progress() == m.progress() + 1,
{
}

/// A request that is still at its work after some reports was at its work all along, each
/// of the reports was a success, and there was one for each stage that it has passed.
pub proof fn lemma_run_on_course(m: RunModel, reports: Seq<Report>)
    requires
        m.wf(),
        on_course(m.run(reports)),
    ensures
        m.run(reports).progress() == m.progress() + reports.len(),
        forall|i: int| 0 <= i < reports.len() ==> (#[trigger] reports[i]).succeeded(),
        forall|i: int| 0 <= i <= reports.len() ==> on_course(#[trigger] m.run(reports.take(i))),
        forall|i: int|
            0 <= i <= reports.len() ==> (#[trigger] m.run(reports.take(i))).progress()
                == m.progress() + i,
    decreases reports.len(),
{
    if reports.len() == 0 {
        assert forall|i: int| 0 <= i <= reports.len() implies on_course(
            #[trigger] m.run(reports.take(i)),
        ) && m.run(reports.take(i)).progress() == m.progress() + i by {
            assert(reports.take(i) =~= reports);
        }
    } else {
        let front = reports.drop_last();
        lemma_run_is_sound(m, front);
        lemma_step_on_course(m.run(front), reports.last());
        lemma_run_on_course(m, front);
        assert forall|i: int| 0 <= i <= reports.len() implies on_course(
            #[trigger] m.run(reports.take(i)),
        ) && m.run(reports.take(i)).progress() == m.progress() + i by {
            if i == reports.len() {
                assert(reports.take(i) =~= reports);
            } else {
                assert(reports.take(i) =~= front.take(i));
            }
        }
        assert forall|i: int| 0 <= i < reports.len() implies (#[trigger] reports[i]).succeeded() by {
            if i < front.len() {
                assert(front[i] == reports[i]);
            }
        }
    }
}

/// In a recording the encoder is asked for only after a session was opened, the page was
/// loaded and left to settle, and every frame was taken: one frame for each index below the
/// duration times the frame rate, in order, each followed by the wait between frames. Every
/// one of those actions was reported as a success, and every frame file is then in place.
pub proof fn lemma_encoder_follows_all_frames(m: RunModel, reports: Seq<Report>, i: int)
    requires
        m.wf(),
        m.stage == Stage::SessionOpening,
        0 <= i < reports.len(),
        m.actions(reports)[i] == Action::Encode,
    ensures
        i == 3 + 2 * m.total_frames(),
        m.run(reports.take(i)).frames_captured == m.total_frames(),
        m.run(reports.take(i)).frames_on_disk == m.total_frames(),
        forall|j: int| 0 <= j < i ==> (#[trigger] reports[j]).succeeded(),
        m.actions(reports)[0] == Action::OpenSession,
        m.actions(reports)[1] == Action::Navigate,
        m.actions(reports)[2] == Action::Settle,
        forall|k: int|
            0 <= k < m.total_frames() ==> #[trigger] m.actions(reports)[3 + 2 * k]
                == (Action::CaptureFrame { index: k as u32 }),
        forall|k: int|
            0 <= k < m.total_frames() ==> #[trigger] m.actions(reports)[4 + 2 * k] == Action::Pace,
{
    let before = reports.take(i);
    lemma_run_is_sound(m, before);
    lemma_run_on_course(m, before);
    assert forall|j: int| 0 <= j < i implies (#[trigger] reports[j]).succeeded() by {
        assert(before[j] == reports[j]);
    }
    assert(before.take(i) =~= before);
    assert(m.run(before).stage == Stage::Encoding);
    assert forall|j: int| 0 <= j <= i implies ({
        let s = m.run(reports.take(j));
        &&& #[trigger] m.actions(reports)[j] == s.action()
        &&& s.wf()
        &&& s.operation == m.operation
        &&& s.progress() == j
    }) by {
        assert(before.take(j) =~= reports.take(j));
        lemma_run_is_sound(m, reports.take(j));
        assert(m.run(before.take(j)).progress() == m.progress() + j);
    }
}

/// Where every stage of a recording does its work, the encoder is asked for once, right
/// after the last frame and its wait; then the frame files are removed, the video is read,
/// its file is removed and the session is closed. The request is then done, and its result
/// is the bytes that were read, whatever the removal of the frames and the closing of the
/// session reported.
pub proof fn lemma_successful_recording(m: RunModel, reports: Seq<Report>)
    requires
        m.wf(),
        m.stage == Stage::SessionOpening,
        m.operation is Recording,
        reports.len() == 2 * m.total_frames() + 8,
        forall|i: int|
            0 <= i < 2 * m.total_frames() + 7 && i != 2 * m.total_frames() + 4 ==> (
            #[trigger] reports[i]).succeeded(),
    ensures
        ({
            let n: int = 2 * (m.total_frames() as int);
            &&& m.run(reports).stage == Stage::Done
            &&& m.run(reports).outcome == Some(
                Ok::<Seq<u8>, Fault>(reports[n + 5].payload()),
            )
            &&& m.actions(reports)[n + 3] == Action::Encode
            &&& m.actions(reports)[n + 4] == (Action::RemoveFrames {
                count: m.total_frames() as u32,
            })
            &&& m.actions(reports)[n + 5] == Action::ReadVideo
            &&& m.actions(reports)[n + 6] == Action::RemoveVideo
            &&& m.actions(reports)[n + 7] == Action::CloseSession
        }),
{
    let n: int = 2 * (m.total_frames() as int);
    lemma_recording_stays_on_course(m, reports.take(n + 3));
    let e0 = m.run(reports.take(n + 3));
    assert(e0.stage == Stage::Encoding);
    let e1 = m.run(reports.take(n + 4));
    assert(reports.take(n + 4).drop_last() =~= reports.take(n + 3));
    assert(e1 == e0.step(reports[n + 3]));
    let e2 = m.run(reports.take(n + 5));
    assert(reports.take(n + 5).drop_last() =~= reports.take(n + 4));
    assert(e2 == e1.step(reports[n + 4]));
    let e3 = m.run(reports.take(n + 6));
    assert(reports.take(n + 6).drop_last() =~= reports.take(n + 5));
    assert(e3 == e2.step(reports[n + 5]));
    let e4 = m.run(reports.take(n + 7));
    assert(reports.take(n + 7).drop_last() =~= reports.take(n + 6));
    assert(e4 == e3.step(reports[n + 6]));
    assert(reports.drop_last() =~= reports.take(n + 7));
    assert(m.run(reports) == e4.step(reports[n + 7]));
}

/// While every report is a success, a recording passes one stage with each report, until
/// all its frames are taken and the encoder is due.
proof fn lemma_recording_stays_on_course(m: RunModel, reports: Seq<Report>)
    requires
        m.wf(),
        m.stage == Stage::SessionOpening,
        m.operation is Recording,
        reports.len() <= 2 * m.total_frames() + 3,
        forall|i: int| 0 <= i < reports.len() ==> (#[trigger] reports[i]).succeeded(),
    ensures
        m.run(reports).wf(),
        m.run(reports).operation == m.operation,
        m.run(reports).progress() == reports.len(),
        on_course(m.run(reports)),
        reports.len() == 2 * m.total_frames() + 3 ==> m.run(reports).stage == Stage::Encoding,
    decreases reports.len(),
{
    if reports.len() > 0 {
        let front = reports.drop_last();
        assert forall|i: int| 0 <= i < front.len() implies (#[trigger] front[i]).succeeded() by {
            assert(front[i] == reports[i]);
        }
        lemma_recording_stays_on_course(m, front);
        lemma_step_is_sound(m.run(front), reports.last());
        assert(reports.last() == reports[reports.len() - 1]);
    }
}

/// A request that was accepted opens one session: it is the first thing that the request
/// asks for, and it is never asked for again.
pub proof fn lemma_one_session_is_opened(m: RunModel, reports: Seq<Report>, i: int)
    requires
        m.wf(),
        m.stage == Stage::SessionOpening,
        0 <= i < reports.len(),
    ensures
        m.actions(reports)[0] == Action::OpenSession,
        i > 0 ==> m.actions(reports)[i] != Action::OpenSession,
{
    assert(reports.take(0) =~= Seq::<Report>::empty());
    if i > 0 && m.actions(reports)[i] == Action::OpenSession {
        lemma_no_action_is_repeated(m, reports, 0, i);
    }
}

/// A request for one image that keeps every constraint, and of which every stage up to the
/// reading of the image does its work, is answered with a success of status 200 that
/// carries the bytes read in base64, whatever the closing of the session reported. One
/// session was opened for it, with the viewport asked for or 1920 by 1080.
pub proof fn lemma_capture_is_answered_with_its_image(
    url: Seq<char>,
    width: Option<u32>,
    height: Option<u32>,
    reports: Seq<Report>,
)
    requires
        capture_defect(url, width, height) is None,
        reports.len() == 7,
        forall|i: int| 0 <= i < 6 ==> (#[trigger] reports[i]).succeeded(),
    ensures
        ({
            let m = initial_model(
                Operation::Screenshot,
                url,
                viewport_of(width, height),
                Seq::empty(),
            );
            &&& m.wf()
            &&& m.actions(reports)[0] == Action::OpenSession
            &&& forall|i: int| 0 < i < 7 ==> #[trigger] m.actions(reports)[i] != Action::OpenSession
            &&& m.run(reports).stage == Stage::Done
            &&& m.run(reports).outcome matches Some(outcome)
            &&& answer_of(outcome) == said(STATUS_OK, true, base64_of(reports[5].payload()))
        }),
{
    lemma_successful_capture(url, viewport_of(width, height), reports);
}

/// A request for a recording that keeps every constraint, and of which every stage but the
/// removal of the frames and the closing of the session does its work, is answered with a
/// success of status 200 that carries the bytes of the video in base64. One session was
/// opened for it.
pub proof fn lemma_recording_is_answered_with_its_video(
    url: Seq<char>,
    duration: u32,
    width: Option<u32>,
    height: Option<u32>,
    video_name: Seq<char>,
    reports: Seq<Report>,
)
    requires
        recording_defect(url, duration, width, height) is None,
        reports.len() == 20 * duration + 8,
        forall|i: int|
            0 <= i < 20 * duration + 7 && i != 20 * duration + 4 ==> (
            #[trigger] reports[i]).succeeded(),
    ensures
        ({
            let m = initial_model(
                Operation::Recording { duration },
                url,
                viewport_of(width, height),
                video_name,
            );
            &&& m.wf()
            &&& m.actions(reports)[0] == Action::OpenSession
            &&& m.run(reports).stage == Stage::Done
            &&& m.run(reports).outcome matches Some(outcome)
            &&& answer_of(outcome) == said(
                STATUS_OK,
                true,
                base64_of(reports[20 * duration + 5].payload()),
            )
        }),
{
    let m = initial_model(
        Operation::Recording { duration },
        url,
        viewport_of(width, height),
        video_name,
    );
    assert(m.wf());
    assert(m.total_frames() == 10 * duration);
    lemma_successful_recording(m, reports);
    lemma_one_session_is_opened(m, reports, 0);
}

} // verus!
