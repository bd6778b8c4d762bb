use crate::error::{fault, status_of, ApiError, ErrorKind, Fault};
use crate::text::{has_prefix, is_blank, is_white_space, text_is_blank};
use vstd::prelude::*;
use vstd::utf8::encode_utf8;

verus! {

/// Longest address that is accepted, in bytes of its UTF-8 form.
pub const MAX_URL_BYTES: usize = 2048;

/// Smallest viewport width or height that is accepted, in pixels.
pub const MIN_DIMENSION: u32 = 100;

/// Largest viewport width or height that is accepted, in pixels.
pub const MAX_DIMENSION: u32 = 4096;

/// Viewport width where the request names none.
pub const DEFAULT_WIDTH: u32 = 1920;

/// Viewport height where the request names none.
pub const DEFAULT_HEIGHT: u32 = 1080;

/// Shortest recording that is accepted, in seconds.
pub const MIN_DURATION: u32 = 1;

/// Longest recording that is accepted, in seconds.
pub const MAX_DURATION: u32 = 300;

/// A request for one image of a page.
#[derive(Clone, Debug, PartialEq, Eq)]
pub struct ScreenshotRequest {
    pub url: String,
    pub width: Option<u32>,
    pub height: Option<u32>,
}

/// A request for a recording of a page over `duration` seconds.
#[derive(Clone, Debug, PartialEq, Eq)]
pub struct RecordingRequest {
    pub url: String,
    pub duration: u32,
    pub width: Option<u32>,
    pub height: Option<u32>,
}

/// Whether the address begins with `http://` or `https://`.
pub open spec fn has_web_scheme(url: Seq<char>) -> bool {
    "http://"@.is_prefix_of(url) || "https://"@.is_prefix_of(url)
}

/// Whether the address is longer than the limit.
pub open spec fn is_oversized(url: Seq<char>) -> bool {
    encode_utf8(url).len() > MAX_URL_BYTES
}

/// Whether a width or height, where one is given, lies outside the accepted range.
pub open spec fn dimension_out_of_range(dimension: Option<u32>) -> bool {
    dimension matches Some(d) && !(MIN_DIMENSION <= d <= MAX_DIMENSION)
}

/// Whether a duration lies outside the accepted range.
pub open spec fn duration_out_of_range(duration: u32) -> bool {
    !(MIN_DURATION <= duration <= MAX_DURATION)
}

/// What is wrong with the scheme of the address, if anything.
pub open spec fn scheme_defect(url: Seq<char>) -> Option<Fault> {
    if !has_web_scheme(url) {
        Some(fault(ErrorKind::InvalidUrl, "URL must start with http:// or https://"@))
    } else {
        None
    }
}

/// What is wrong with the length of the address, if anything.
pub open spec fn length_defect(url: Seq<char>) -> Option<Fault> {
    if is_oversized(url) {
        Some(fault(ErrorKind::InvalidUrl, "URL too long (max 2048 characters)"@))
    } else {
        None
    }
}

/// What is wrong with the address, if anything: first the scheme, then the length.
pub open spec fn url_defect(url: Seq<char>) -> Option<Fault> {
    first_defect(scheme_defect(url), length_defect(url))
}

/// What is wrong with the viewport, if anything: first the width, then the height.
pub open spec fn viewport_defect(width: Option<u32>, height: Option<u32>) -> Option<Fault> {
    if dimension_out_of_range(width) {
        Some(fault(ErrorKind::InvalidRequest, "Width must be between 100 and 4096 pixels"@))
    } else if dimension_out_of_range(height) {
        Some(fault(ErrorKind::InvalidRequest, "Height must be between 100 and 4096 pixels"@))
    } else {
        None
    }
}

/// What is wrong with the duration, if anything.
pub open spec fn duration_defect(duration: u32) -> Option<Fault> {
    if duration_out_of_range(duration) {
        Some(fault(ErrorKind::InvalidRequest, "Duration must be between 1 and 300 seconds"@))
    } else {
        None
    }
}

/// The first of two findings.
pub open spec fn first_defect(a: Option<Fault>, b: Option<Fault>) -> Option<Fault> {
    if a is Some {
        a
    } else {
        b
    }
}

/// The finding that the capture operation reports for its arguments: the address is
/// judged before the viewport.
pub open spec fn capture_defect(url: Seq<char>, width: Option<u32>, height: Option<u32>) -> Option<
    Fault,
> {
    first_defect(url_defect(url), viewport_defect(width, height))
}

/// The finding that the recording operation reports for its arguments: the scheme of the
/// address is judged first, then the duration, then the length of the address, then the
/// viewport.
pub open spec fn recording_defect(
    url: Seq<char>,
    duration: u32,
    width: Option<u32>,
    height: Option<u32>,
) -> Option<Fault> {
    first_defect(
        scheme_defect(url),
        first_defect(
            duration_defect(duration),
            first_defect(length_defect(url), viewport_defect(width, height)),
        ),
    )
}

/// The finding that the validator reports for a screenshot request: an address that is
/// empty or all white space, then the viewport, then scheme and length of the address.
pub open spec fn screenshot_request_defect(
    url: Seq<char>,
    width: Option<u32>,
    height: Option<u32>,
) -> Option<Fault> {
    if is_blank(url) {
        Some(fault(ErrorKind::InvalidRequest, "URL cannot be empty"@))
    } else {
        first_defect(viewport_defect(width, height), url_defect(url))
    }
}

/// The finding that the validator reports for a recording request: an address that is
/// empty or all white space, then the viewport, then the scheme of the address, then the
/// duration, then the length of the address.
pub open spec fn recording_request_defect(
    url: Seq<char>,
    duration: u32,
    width: Option<u32>,
    height: Option<u32>,
) -> Option<Fault> {
    if is_blank(url) {
        Some(fault(ErrorKind::InvalidRequest, "URL cannot be empty"@))
    } else {
        first_defect(
            viewport_defect(width, height),
            first_defect(
                scheme_defect(url),
                first_defect(duration_defect(duration), length_defect(url)),
            ),
        )
    }
}

/// Whether a result reports exactly the given finding: the error with that kind and cause,
/// or success where nothing was found.
pub open spec fn reports(result: Result<(), ApiError>, finding: Option<Fault>) -> bool {
    match finding {
        Some(f) => result matches Err(e) && e@ == f,
        None => result is Ok,
    }
}

/// The viewport to use: the requested size, or the default where none is requested.
pub open spec fn viewport_of(width: Option<u32>, height: Option<u32>) -> (u32, u32) {
    (
        match width {
            Some(w) => w,
            None => DEFAULT_WIDTH,
        },
        match height {
            Some(h) => h,
            None => DEFAULT_HEIGHT,
        },
    )
}

/// The viewport to use: the requested size, or 1920 by 1080 where none is requested.
pub fn viewport(width: Option<u32>, height: Option<u32>) -> (size: (u32, u32))
    ensures
        size == viewport_of(width, height),
{
    let w = match width {
        Some(w) => w,
        None => DEFAULT_WIDTH,
    };
    let h = match height {
        Some(h) => h,
        None => DEFAULT_HEIGHT,
    };
    (w, h)
}

fn dimension_is_out_of_range(dimension: Option<u32>) -> (b: bool)
    ensures
        b == dimension_out_of_range(dimension),
{
    match dimension {
        Some(d) => d < MIN_DIMENSION || d > MAX_DIMENSION,
        None => false,
    }
}

/// Judges the scheme of an address.
pub fn check_scheme(url: &str) -> (result: Result<(), ApiError>)
    ensures
        reports(result, scheme_defect(url@)),
{
    if !has_prefix(url, "http://") && !has_prefix(url, "https://") {
        return Err(
            ApiError::InvalidUrl(String::from_str("URL must start with http:// or https://")),
        );
    }
    Ok(())
}

/// Judges the length of an address.
pub fn check_length(url: &str) -> (result: Result<(), ApiError>)
    ensures
        reports(result, length_defect(url@)),
{
    if url.as_bytes().len() > MAX_URL_BYTES {
        return Err(ApiError::InvalidUrl(String::from_str("URL too long (max 2048 characters)")));
    }
    Ok(())
}

/// Judges an address: its scheme, then its length.
pub fn check_url(url: &str) -> (result: Result<(), ApiError>)
    ensures
        reports(result, url_defect(url@)),
{
    match check_scheme(url) {
        Err(e) => Err(e),
        Ok(()) => check_length(url),
    }
}

/// Judges the viewport of a request: its width, then its height.
pub fn check_viewport(width: Option<u32>, height: Option<u32>) -> (result: Result<(), ApiError>)
    ensures
        reports(result, viewport_defect(width, height)),
{
    if dimension_is_out_of_range(width) {
        return Err(
            ApiError::InvalidRequest(
                String::from_str("Width must be between 100 and 4096 pixels"),
            ),
        );
    }
    if dimension_is_out_of_range(height) {
        return Err(
            ApiError::InvalidRequest(
                String::from_str("Height must be between 100 and 4096 pixels"),
            ),
        );
    }
    Ok(())
}

/// Judges the duration of a recording.
pub fn check_duration(duration: u32) -> (result: Result<(), ApiError>)
    ensures
        reports(result, duration_defect(duration)),
{
    if duration < MIN_DURATION || duration > MAX_DURATION {
        return Err(
            ApiError::InvalidRequest(
                String::from_str("Duration must be between 1 and 300 seconds"),
            ),
        );
    }
    Ok(())
}

impl ScreenshotRequest {
    /// Accepts the request, or names the first constraint that it breaks.
    pub fn validate(&self) -> (result: Result<(), ApiError>)
        ensures
            reports(result, screenshot_request_defect(self.url@, self.width, self.height)),
    {
        if text_is_blank(self.url.as_str()) {
            return Err(ApiError::InvalidRequest(String::from_str("URL cannot be empty")));
        }
        match check_viewport(self.width, self.height) {
            Err(e) => Err(e),
            Ok(()) => check_url(self.url.as_str()),
        }
    }
}

impl RecordingRequest {
    /// Accepts the request, or names the first constraint that it breaks.
    pub fn validate(&self) -> (result: Result<(), ApiError>)
        ensures
            reports(
                result,
                recording_request_defect(self.url@, self.duration, self.width, self.height),
            ),
    {
        if text_is_blank(self.url.as_str()) {
            return Err(ApiError::InvalidRequest(String::from_str("URL cannot be empty")));
        }
        match check_viewport(self.width, self.height) {
            Err(e) => Err(e),
            Ok(()) => match check_scheme(self.url.as_str()) {
                Err(e) => Err(e),
                Ok(()) => match check_duration(self.duration) {
                    Err(e) => Err(e),
                    Ok(()) => check_length(self.url.as_str()),
                },
            },
        }
    }
}

/// An address with a web scheme is not blank.
pub proof fn lemma_web_scheme_is_not_blank(url: Seq<char>)
    requires
        has_web_scheme(url),
    ensures
        !is_blank(url),
{
    reveal_strlit("http://");
    reveal_strlit("https://");
    assert(url.len() > 0);
    if "http://"@.is_prefix_of(url) {
        assert(url.subrange(0, 7)[0] == 'h');
    } else {
        assert(url.subrange(0, 8)[0] == 'h');
    }
    assert(url[0] == 'h');
    assert(!is_white_space(url[0]));
}

/// An address that is empty, lacks a web scheme or is longer than the limit is refused,
/// by the validator and by both operations, with a status of 400, whatever the other
/// fields hold.
pub proof fn lemma_unusable_url_is_refused(
    url: Seq<char>,
    duration: u32,
    width: Option<u32>,
    height: Option<u32>,
)
    requires
        url.len() == 0 || !has_web_scheme(url) || is_oversized(url),
    ensures
        screenshot_request_defect(url, width, height) matches Some(f) && status_of(f.kind) == 400,
        recording_request_defect(url, duration, width, height) matches Some(f) && status_of(f.kind)
            == 400,
        capture_defect(url, width, height) matches Some(f) && f.kind == ErrorKind::InvalidUrl,
        recording_defect(url, duration, width, height) matches Some(f) && status_of(f.kind) == 400,
        !has_web_scheme(url) || !duration_out_of_range(duration) ==> {
            &&& recording_defect(url, duration, width, height) matches Some(f)
            &&& f.kind == ErrorKind::InvalidUrl
        },
{
    if has_web_scheme(url) {
        lemma_web_scheme_is_not_blank(url);
    }
}

/// A width or height outside 100 to 4096, or a duration outside 1 to 300, is refused by the
/// validator and by both operations, with a status of 400.
///
/// A duration out of range is refused as an invalid request wherever the address has a web
/// scheme, whatever its length; and a recording request that is well but for its duration
/// is refused with the words that name the bounds. A width or height out of range is
/// refused as an invalid request by the validator always, and by the operations wherever
/// the address is well.
pub proof fn lemma_out_of_range_is_refused(
    url: Seq<char>,
    duration: u32,
    width: Option<u32>,
    height: Option<u32>,
)
    ensures
        dimension_out_of_range(width) || dimension_out_of_range(height) ==> {
            &&& screenshot_request_defect(url, width, height) matches Some(f) && f.kind
                == ErrorKind::InvalidRequest
            &&& recording_request_defect(url, duration, width, height) matches Some(f) && f.kind
                == ErrorKind::InvalidRequest
            &&& capture_defect(url, width, height) matches Some(f) && status_of(f.kind) == 400
        },
        dimension_out_of_range(width) || dimension_out_of_range(height) || duration_out_of_range(
            duration,
        ) ==> {
            &&& recording_request_defect(url, duration, width, height) matches Some(f)
                && status_of(f.kind) == 400
            &&& recording_defect(url, duration, width, height) matches Some(f) && status_of(f.kind)
                == 400
        },
        duration_out_of_range(duration) && has_web_scheme(url) ==> {
            &&& recording_defect(url, duration, width, height) == Some(
                fault(ErrorKind::InvalidRequest, "Duration must be between 1 and 300 seconds"@),
            )
            &&& recording_request_defect(url, duration, width, height) matches Some(f) && f.kind
                == ErrorKind::InvalidRequest
        },
        duration_out_of_range(duration) && screenshot_request_defect(url, width, height) is None
            ==> recording_request_defect(url, duration, width, height) == Some(
            fault(ErrorKind::InvalidRequest, "Duration must be between 1 and 300 seconds"@),
        ),
        (dimension_out_of_range(width) || dimension_out_of_range(height)) && url_defect(url) is None
            ==> {
            &&& capture_defect(url, width, height) matches Some(f)
            &&& f.kind == ErrorKind::InvalidRequest
            &&& recording_defect(url, duration, width, height) matches Some(g)
            &&& g.kind == ErrorKind::InvalidRequest
        },
{
    if has_web_scheme(url) {
        lemma_web_scheme_is_not_blank(url);
    }
}

/// The validator and the operations accept the same requests.
pub proof fn lemma_validator_agrees_with_operations(
    url: Seq<char>,
    duration: u32,
    width: Option<u32>,
    height: Option<u32>,
)
    ensures
        screenshot_request_defect(url, width, height) is None <==> capture_defect(
            url,
            width,
            height,
        ) is None,
        recording_request_defect(url, duration, width, height) is None <==> recording_defect(
            url,
            duration,
            width,
            height,
        ) is None,
{
    if has_web_scheme(url) {
        lemma_web_scheme_is_not_blank(url);
    }
}

} // verus!
