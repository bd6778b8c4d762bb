use crate::capabilities::{chrome_arguments, recording_arguments, recording_capabilities};
use crate::error::ApiError;
use crate::request::{recording_defect, viewport_of};
use crate::response::{fresh_request_id, is_lower_hex, is_request_id};
use crate::run::{initial_model, video_name_of, Run};
use crate::stage::{Operation, FRAME_RATE};
use crate::text::{
    decimal, decimal_text, lemma_decimal_len, lemma_zero_padded_round_trip, texts_of, zero_padded,
    zero_padded_text,
};
use thirtyfour::ChromeCapabilities;
use vstd::prelude::*;

verus! {

/// Digits of the index in a frame file's name; a shorter index has zeros in front.
pub const FRAME_INDEX_DIGITS: usize = 4;

/// Width of the video that the encoder writes, in pixels.
pub const VIDEO_WIDTH: u32 = 1920;

/// Height of the video that the encoder writes, in pixels.
pub const VIDEO_HEIGHT: u32 = 1080;

/// Takes requests for a recording of a page.
pub struct RecordingService;

impl RecordingService {
    pub fn new() -> (service: Self)
        ensures
            service == RecordingService,
    {
        RecordingService
    }

    /// Accepts a request for a recording, over `duration` seconds, of the page at `url`, in
    /// a browser window of the given size or of 1920 by 1080 pixels, and prepares it: the
    /// record with which the host carries the request out stage by stage, with a video file
    /// named after a fresh identifier, and the capability set with which it opens the
    /// session.
    ///
    /// A request that breaks a constraint is refused with that constraint, the scheme of
    /// the address being judged first, then the duration, then the length of the address,
    /// then the viewport; nothing is prepared for it, so no session is ever opened for it.
    /// Every request that keeps them all is prepared.
    pub fn record_screencast(
        &self,
        url: &str,
        duration: u32,
        width: Option<u32>,
        height: Option<u32>,
    ) -> (result: Result<(Run, ChromeCapabilities), ApiError>)
        ensures
            match recording_defect(url@, duration, width, height) {
                Some(f) => result matches Err(e) && e@ == f,
                None => {
                    &&& result matches Ok(prepared)
                    &&& exists|id: Seq<char>|
                        is_request_id(id) && prepared.0@ == #[trigger] initial_model(
                            Operation::Recording { duration },
                            url@,
                            viewport_of(width, height),
                            video_name_of(id),
                        )
                    &&& prepared.0@.wf()
                    &&& chrome_arguments(prepared.1) == recording_arguments(
                        viewport_of(width, height).0,
                        viewport_of(width, height).1,
                    )
                },
            },
    {
        let id = fresh_request_id();
        let run = match Run::begin_recording(url, duration, width, height, id.as_str()) {
            Ok(run) => run,
            Err(e) => {
                return Err(e);
            },
        };
        proof {
            assert(run@ == initial_model(
                Operation::Recording { duration },
                url@,
                viewport_of(width, height),
                video_name_of(id@),
            ));
        }
        let (w, h) = run.viewport();
        match recording_capabilities(w, h) {
            Ok(capabilities) => Ok((run, capabilities)),
            Err(e) => Err(e),
        }
    }
}

/// The name of the file that holds the frame of the given index: the index in four digits,
/// or more where it needs more.
pub open spec fn frame_name_of(index: nat) -> Seq<char> {
    "frame_"@ + zero_padded(index, FRAME_INDEX_DIGITS as nat) + ".png"@
}

/// The name of the file that holds the frame of the given index.
pub fn frame_file_name(index: u32) -> (name: String)
    ensures
        name@ == frame_name_of(index as nat),
{
    let mut name = String::from_str("frame_");
    let digits = zero_padded_text(index, FRAME_INDEX_DIGITS);
    name.append(digits.as_str());
    name.append(".png");
    name
}

/// The pattern by which the encoder finds the frame files in the order of their indices.
pub fn frame_file_pattern() -> (pattern: &'static str)
    ensures
        pattern@ == "frame_%04d.png"@,
{
    "frame_%04d.png"
}

/// Milliseconds to wait after each frame: a second divided by the frame rate. The time that
/// taking a frame costs is not taken off.
pub fn frame_interval_millis() -> (millis: u64)
    ensures
        millis == 1000int / (FRAME_RATE as int),
        millis == 100,
{
    1000 / (FRAME_RATE as u64)
}

/// The arguments with which the encoder is run, once for a recording: it reads the frames
/// that match the pattern at the given rate, scales them to 1920 by 1080, encodes them as
/// H.264 in the yuv420p pixel format with the fast preset at quality 23, and writes the
/// output over whatever is there.
pub open spec fn encoder_arguments_of(
    frame_pattern_path: Seq<char>,
    frame_rate: u32,
    output_path: Seq<char>,
) -> Seq<Seq<char>> {
    seq![
        "-framerate"@,
        decimal(frame_rate as nat),
        "-i"@,
        frame_pattern_path,
        "-vf"@,
        "scale=1920:1080"@,
        "-c:v"@,
        "libx264"@,
        "-pix_fmt"@,
        "yuv420p"@,
        "-preset"@,
        "fast"@,
        "-crf"@,
        "23"@,
        "-y"@,
        output_path,
    ]
}

/// Name of the encoder's program.
pub fn encoder_program() -> (program: &'static str)
    ensures
        program@ == "ffmpeg"@,
{
    "ffmpeg"
}

/// The arguments with which the encoder is run, once for a recording.
pub fn create_video_from_frames(frame_pattern_path: &str, frame_rate: u32, output_path: &str) -> (arguments:
    Vec<String>)
    ensures
        texts_of(arguments@) == encoder_arguments_of(
            frame_pattern_path@,
            frame_rate,
            output_path@,
        ),
{
    let mut arguments: Vec<String> = Vec::new();
    arguments.push(String::from_str("-framerate"));
    arguments.push(decimal_text(frame_rate));
    arguments.push(String::from_str("-i"));
    arguments.push(String::from_str(frame_pattern_path));
    arguments.push(String::from_str("-vf"));
    arguments.push(String::from_str("scale=1920:1080"));
    arguments.push(String::from_str("-c:v"));
    arguments.push(String::from_str("libx264"));
    arguments.push(String::from_str("-pix_fmt"));
    arguments.push(String::from_str("yuv420p"));
    arguments.push(String::from_str("-preset"));
    arguments.push(String::from_str("fast"));
    arguments.push(String::from_str("-crf"));
    arguments.push(String::from_str("23"));
    arguments.push(String::from_str("-y"));
    arguments.push(String::from_str(output_path));
    assert(texts_of(arguments@) =~= encoder_arguments_of(
        frame_pattern_path@,
        frame_rate,
        output_path@,
    ));
    arguments
}

/// Two frames with one file name are one frame: no frame file is written over by another.
pub proof fn lemma_frame_names_are_distinct(a: nat, b: nat)
    requires
        frame_name_of(a) == frame_name_of(b),
    ensures
        a == b,
{
    reveal_strlit("frame_");
    reveal_strlit(".png");
    let width = FRAME_INDEX_DIGITS as nat;
    let pa = zero_padded(a, width);
    let pb = zero_padded(b, width);
    assert(frame_name_of(a).len() == 6 + pa.len() + 4);
    assert(frame_name_of(b).len() == 6 + pb.len() + 4);
    assert(pa =~= frame_name_of(a).subrange(6, 6 + pa.len() as int));
    assert(pb =~= frame_name_of(b).subrange(6, 6 + pb.len() as int));
    lemma_zero_padded_round_trip(a, width);
    lemma_zero_padded_round_trip(b, width);
}

/// The name of a frame with an index below ten thousand has fourteen characters: the index
/// takes four of them. Every frame of a recording has such an index.
pub proof fn lemma_frame_name_len(index: nat)
    requires
        index < 10000,
    ensures
        frame_name_of(index).len() == 14,
{
    reveal_strlit("frame_");
    reveal_strlit(".png");
    lemma_decimal_len(index);
    lemma_zero_padded_round_trip(index, FRAME_INDEX_DIGITS as nat);
}

/// Two requests with one video file name have one identifier: no video file is written
/// over by another request's.
pub proof fn lemma_video_names_are_distinct(a: Seq<char>, b: Seq<char>)
    requires
        video_name_of(a) == video_name_of(b),
    ensures
        a == b,
{
    reveal_strlit("recording_");
    reveal_strlit(".mp4");
    assert(video_name_of(a).len() == 10 + a.len() + 4);
    assert(video_name_of(b).len() == 10 + b.len() + 4);
    assert(a =~= video_name_of(a).subrange(10, 10 + a.len() as int));
    assert(b =~= video_name_of(b).subrange(10, 10 + b.len() as int));
}

/// The video file's name of a request holds no path separator, so the file lies in the
/// temporary directory itself.
pub proof fn lemma_video_name_is_plain(id: Seq<char>, i: int)
    requires
        is_request_id(id),
        0 <= i < video_name_of(id).len(),
    ensures
        video_name_of(id)[i] != '/',
        video_name_of(id)[i] != '\\',
{
    reveal_strlit("recording_");
    reveal_strlit(".mp4");
    if 10 <= i < 46 {
        assert(video_name_of(id)[i] == id[i - 10]);
        let c = id[i - 10];
        assert(c == '-' || is_lower_hex(c));
    }
}

} // verus!
