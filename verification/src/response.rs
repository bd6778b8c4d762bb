use crate::encoding::{base64_len, base64_of, base64_standard};
use crate::error::{message_of, status_of};
use crate::stage::Outcome;
use vstd::prelude::*;
use vstd::std_specs::iter::IteratorSpec;

verus! {

/// Whether `c` is a digit of a lower-case hexadecimal numeral.
pub open spec fn is_lower_hex(c: char) -> bool {
    ('0' <= c <= '9') || ('a' <= c <= 'f')
}

/// Whether a text has the form of a request identifier: 36 characters, hyphens as the
/// ninth, fourteenth, nineteenth and twenty-fourth, lower-case hexadecimal digits elsewhere.
pub open spec fn is_request_id(id: Seq<char>) -> bool {
    &&& id.len() == 36
    &&& forall|i: int|
        0 <= i < 36 ==> if i == 8 || i == 13 || i == 18 || i == 23 {
            id[i] == '-'
        } else {
            is_lower_hex(#[trigger] id[i])
        }
}

/// Whether `c` is a digit of a lower-case hexadecimal numeral.
pub fn char_is_lower_hex(c: char) -> (b: bool)
    ensures
        b == is_lower_hex(c),
{
    ('0' <= c && c <= '9') || ('a' <= c && c <= 'f')
}

/// Whether a text has the form of a request identifier.
pub fn has_request_id_form(id: &str) -> (b: bool)
    ensures
        b == is_request_id(id@),
{
    let mut fits = true;
    let mut count: usize = 0;
    let chars = id.chars();
    for c in it: chars
        invariant
            it.seq() == id@,
            count == if it.index() < 37 {
                it.index()
            } else {
                37
            },
            fits == (forall|i: int|
                0 <= i < it.index() && i < 36 ==> if i == 8 || i == 13 || i == 18 || i == 23 {
                    id@[i] == '-'
                } else {
                    is_lower_hex(#[trigger] id@[i])
                }),
    {
        if count < 36 {
            let right = if count == 8 || count == 13 || count == 18 || count == 23 {
                c == '-'
            } else {
                char_is_lower_hex(c)
            };
            if !right {
                fits = false;
            }
        }
        if count < 37 {
            count = count + 1;
        }
    }
    fits && count == 36
}

/// `Uuid::new_v4` of uuid, written out by its `Display`: a random identifier in hyphenated
/// lower-case form. Which one it is depends on chance.
#[verifier::external_body]
pub(crate) fn fresh_request_id() -> (id: String)
    ensures
        is_request_id(id@),
{
    uuid::Uuid::new_v4().to_string()
}

/// Whether `c` can stand in a timestamp: a digit, or one of the marks between the numbers.
pub open spec fn is_timestamp_char(c: char) -> bool {
    ('0' <= c <= '9') || c == '-' || c == '+' || c == ':' || c == '.' || c == 'T'
}

/// Whether the character at `k` suits a timestamp in universal time: the last six spell the
/// offset `+00:00`, and those before them can stand in a timestamp.
pub open spec fn timestamp_char_fits(text: Seq<char>, k: int) -> bool {
    if k >= text.len() - 6 {
        text[k] == "+00:00"@[k - (text.len() - 6)]
    } else {
        is_timestamp_char(text[k])
    }
}

/// Whether a text has the form of a timestamp in universal time: at least 25 characters,
/// as many as a date of ten, `T`, a time of eight and the offset take; the last six spell
/// the offset `+00:00`, and those before them are digits and marks.
pub open spec fn is_utc_timestamp(text: Seq<char>) -> bool {
    &&& text.len() >= 25
    &&& forall|k: int| 0 <= k < text.len() ==> #[trigger] timestamp_char_fits(text, k)
}

/// Whether `c` can stand in a timestamp.
pub fn char_is_of_timestamp(c: char) -> (b: bool)
    ensures
        b == is_timestamp_char(c),
{
    ('0' <= c && c <= '9') || c == '-' || c == '+' || c == ':' || c == '.' || c == 'T'
}

/// Whether a text has the form of a timestamp in universal time.
pub fn has_timestamp_form(text: &str) -> (b: bool)
    ensures
        b == is_utc_timestamp(text@),
{
    let len = text.unicode_len();
    if len < 25 {
        return false;
    }
    proof {
        reveal_strlit("+00:00");
    }
    let mut fits = true;
    let mut i: usize = 0;
    let chars = text.chars();
    for c in it: chars
        invariant
            it.seq() == text@,
            len == text@.len(),
            len >= 25,
            "+00:00"@ == seq!['+', '0', '0', ':', '0', '0'],
            i == if it.index() < len {
                it.index()
            } else {
                len as int
            },
            fits == (forall|k: int|
                0 <= k < it.index() && k < len ==> #[trigger] timestamp_char_fits(text@, k)),
    {
        if i < len {
            let right = if i >= len - 6 {
                let at = i - (len - 6);
                if at == 0 {
                    c == '+'
                } else if at == 3 {
                    c == ':'
                } else {
                    c == '0'
                }
            } else {
                char_is_of_timestamp(c)
            };
            assert(right == timestamp_char_fits(text@, i as int));
            if !right {
                fits = false;
            }
            i = i + 1;
        }
    }
    fits
}

/// `Utc::now` of chrono, written out by `to_rfc3339`: the time of the call, as date, `T`,
/// time and the offset `+00:00`. Which time it is depends on the clock.
#[verifier::external_body]
fn current_timestamp() -> (timestamp: String)
    ensures
        is_utc_timestamp(timestamp@),
{
    chrono::Utc::now().to_rfc3339()
}

/// What marks one request among all: an identifier of its own and the time at which it
/// came in.
#[derive(Clone, Debug, PartialEq, Eq)]
pub struct RequestStamp {
    pub id: String,
    pub timestamp: String,
}

impl RequestStamp {
    /// A stamp for a request that comes in now: a fresh identifier, and the time in
    /// universal time.
    pub fn issue() -> (stamp: RequestStamp)
        ensures
            is_request_id(stamp.id@),
            is_utc_timestamp(stamp.timestamp@),
    {
        let id = fresh_request_id();
        let timestamp = current_timestamp();
        RequestStamp { id, timestamp }
    }
}

/// The body of an answer: whether the request succeeded, what it gave, and what went wrong.
#[derive(Clone, Debug, PartialEq, Eq)]
pub struct ApiResponse<T> {
    pub success: bool,
    pub data: Option<T>,
    pub error: Option<String>,
}

impl<T> ApiResponse<T> {
    /// The body of an answer to a request that succeeded and gave `data`.
    pub fn ok(data: T) -> (response: Self)
        ensures
            response.success,
            response.data == Some(data),
            response.error is None,
    {
        ApiResponse { success: true, data: Some(data), error: None }
    }
}

/// What a screenshot request gives: the image in base64, with the request's stamp and
/// address.
#[derive(Clone, Debug, PartialEq, Eq)]
pub struct ScreenshotResponse {
    pub id: String,
    pub url: String,
    pub image_data: String,
    pub timestamp: String,
}

/// What a recording request gives: the video in base64, with the request's stamp, address
/// and duration.
#[derive(Clone, Debug, PartialEq, Eq)]
pub struct RecordingResponse {
    pub id: String,
    pub url: String,
    pub video_data: String,
    pub duration: u32,
    pub timestamp: String,
}

/// Status of an answer to a request that succeeded.
pub const STATUS_OK: u16 = 200;

/// What an answer says, whatever else it carries: its status, whether it claims success,
/// and its text, which is the image or video in base64, or the message of the failure.
pub ghost struct AnswerModel {
    pub status: u16,
    pub success: bool,
    pub text: Seq<char>,
}

/// The answer that says the given three things.
pub open spec fn said(status: u16, success: bool, text: Seq<char>) -> AnswerModel {
    AnswerModel { status, success, text }
}

/// What the service answers to a request that ended as `outcome` says: bytes are answered
/// with a success of status 200 that carries their base64 form, and a failure with its own
/// status and message.
pub open spec fn answer_of(outcome: Outcome) -> AnswerModel {
    match outcome {
        Ok(bytes) => said(STATUS_OK, true, base64_of(bytes)),
        Err(f) => said(status_of(f.kind), false, message_of(f)),
    }
}

/// The answer to a health check: always a success, with the same words. It is made from
/// nothing, so it cannot depend on the browser or its driver.
pub fn health_check() -> (answer: (u16, ApiResponse<&'static str>))
    ensures
        answer.0 == STATUS_OK,
        answer.1.success,
        answer.1.data matches Some(words) && words@ == "API is running"@,
        answer.1.error is None,
{
    (STATUS_OK, ApiResponse::ok("API is running"))
}

/// The answer to a screenshot request whose image is in hand: a success that carries the
/// request's identifier, address and time, and the image in base64.
pub fn take_screenshot(stamp: RequestStamp, url: String, image: &[u8]) -> (answer: (
    u16,
    ApiResponse<ScreenshotResponse>,
))
    requires
        base64_len(image@.len()) <= isize::MAX,
    ensures
        answer.0 == STATUS_OK,
        answer.1.success,
        answer.1.error is None,
        answer.1.data matches Some(data) && data.id == stamp.id && data.url == url
            && data.timestamp == stamp.timestamp && data.image_data@ == base64_of(image@),
        answer.1.data matches Some(data) && said(answer.0, answer.1.success, data.image_data@)
            == answer_of(Ok(image@)),
{
    let image_data = base64_standard(image);
    let data = ScreenshotResponse { id: stamp.id, url, image_data, timestamp: stamp.timestamp };
    (STATUS_OK, ApiResponse::ok(data))
}

/// The answer to a recording request whose video is in hand: a success that carries the
/// request's identifier, address, duration and time, and the video in base64.
pub fn take_recording(stamp: RequestStamp, url: String, duration: u32, video: &[u8]) -> (answer: (
    u16,
    ApiResponse<RecordingResponse>,
))
    requires
        base64_len(video@.len()) <= isize::MAX,
    ensures
        answer.0 == STATUS_OK,
        answer.1.success,
        answer.1.error is None,
        answer.1.data matches Some(data) && data.id == stamp.id && data.url == url
            && data.duration == duration && data.timestamp == stamp.timestamp
            && data.video_data@ == base64_of(video@),
        answer.1.data matches Some(data) && said(answer.0, answer.1.success, data.video_data@)
            == answer_of(Ok(video@)),
{
    let video_data = base64_standard(video);
    let data = RecordingResponse {
        id: stamp.id,
        url,
        video_data,
        duration,
        timestamp: stamp.timestamp,
    };
    (STATUS_OK, ApiResponse::ok(data))
}

/// The headers of an answer with a body, as pairs of name and value: the body is JSON, and
/// a capture or recording is not to be cached.
pub fn answer_headers(cacheable: bool) -> (headers: Vec<(&'static str, &'static str)>)
    ensures
        headers@.len() == if cacheable {
            1nat
        } else {
            2nat
        },
        headers@[0].0@ == "content-type"@ && headers@[0].1@ == "application/json"@,
        !cacheable ==> headers@[1].0@ == "cache-control"@ && headers@[1].1@ == "no-cache"@,
{
    let mut headers: Vec<(&'static str, &'static str)> = Vec::new();
    headers.push(("content-type", "application/json"));
    if !cacheable {
        headers.push(("cache-control", "no-cache"));
    }
    headers
}

} // verus!
