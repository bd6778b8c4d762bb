//! The decisions of a service that takes screenshots and short screen recordings of web
//! pages with a headless browser.
//!
//! The service itself talks to a browser driver, to the disk and to a video encoder. None
//! of that happens here. This library holds everything that is decided along the way, and
//! states each decision as a contract that Verus proves:
//!
//! - [`request`] judges a request before anything is done for it;
//! - [`screenshot`] and [`recording`] accept a request and prepare it: they make the record
//!   of the request and the capability set for its browser session;
//! - [`run`] holds that record, a state machine. The host asks it what to do next, does it
//!   under a deadline, and reports how it went; the record then moves on. [`stage`] names
//!   the stages, the actions and the reports, and says which failure of the service a
//!   stage that went wrong means;
//! - [`trace`] proves what holds of every request, whatever the host reports: that it ends,
//!   that nothing is tried twice, that the encoder runs once and only over all the frames,
//!   that nothing is left on disk, that a missed deadline is reported as such, and that a
//!   session which cannot be closed never spoils a result;
//! - [`error`] is the closed set of failures, with the status and the message of each;
//! - [`response`] builds the answers, [`encoding`] says what base64 is, [`driver`] judges
//!   the start of the browser driver, [`capabilities`] fills the capability set, and
//!   [`text`] writes numbers and compares texts.
//!
//! What other crates do is taken on trust and not proved. It stands behind six small
//! functions that make the calls, none of them public: three in [`capabilities`], for
//! thirtyfour's new capability set, which holds no argument, for its adding of an
//! argument, which succeeds and keeps the argument, and for the text of its error; one in
//! [`encoding`], for base64's encoding in the standard alphabet with padding; and two in
//! [`response`], for the fresh identifier that uuid writes in hyphenated lower-case form
//! and for the time that chrono writes with the offset `+00:00`.

pub mod capabilities;
pub mod driver;
pub mod encoding;
pub mod error;
pub mod recording;
pub mod request;
pub mod response;
pub mod run;
pub mod screenshot;
pub mod stage;
pub mod text;
pub mod trace;
