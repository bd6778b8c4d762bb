use crate::capabilities::{capture_arguments, capture_capabilities, chrome_arguments};
use crate::error::ApiError;
use crate::request::{capture_defect, viewport_of};
use crate::run::{initial_model, Run};
use crate::stage::Operation;
use thirtyfour::ChromeCapabilities;
use vstd::prelude::*;

verus! {

/// Takes requests for one image of a page.
pub struct ScreenshotService;

impl ScreenshotService {
    pub fn new() -> (service: Self)
        ensures
            service == ScreenshotService,
    {
        ScreenshotService
    }

    /// Accepts a request for one image of the page at `url`, in a browser window of the
    /// given size or of 1920 by 1080 pixels, and prepares it: the record with which the
    /// host carries the request out stage by stage, and the capability set with which it
    /// opens the session.
    ///
    /// A request that breaks a constraint is refused with that constraint, the address
    /// being judged before the viewport; nothing is prepared for it, so no session is ever
    /// opened for it. Every request that keeps them all is prepared.
    pub fn capture_screenshot(&self, url: &str, width: Option<u32>, height: Option<u32>) -> (result:
        Result<(Run, ChromeCapabilities), ApiError>)
        ensures
            match capture_defect(url@, width, height) {
                Some(f) => result matches Err(e) && e@ == f,
                None => {
                    &&& result matches Ok(prepared)
                    &&& prepared.0@ == initial_model(
                        Operation::Screenshot,
                        url@,
                        viewport_of(width, height),
                        Seq::empty(),
                    )
                    &&& prepared.0@.wf()
                    &&& chrome_arguments(prepared.1) == capture_arguments(
                        viewport_of(width, height).0,
                        viewport_of(width, height).1,
                    )
                },
            },
    {
        let run = match Run::begin_capture(url, width, height) {
            Ok(run) => run,
            Err(e) => {
                return Err(e);
            },
        };
        let (w, h) = run.viewport();
        match capture_capabilities(w, h) {
            Ok(capabilities) => Ok((run, capabilities)),
            Err(e) => Err(e),
        }
    }
}

} // verus!
