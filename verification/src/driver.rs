use crate::error::{fault, ApiError, ErrorKind, Fault};
use vstd::prelude::*;

verus! {

/// Seconds to wait after the browser driver was started, before asking whether it runs.
pub const DRIVER_STARTUP_SECS: u64 = 3;

/// Name of the browser driver's program.
pub fn driver_program() -> (program: &'static str)
    ensures
        program@ == "chromedriver"@,
{
    "chromedriver"
}

/// The address at which the browser driver takes sessions.
pub fn driver_endpoint() -> (endpoint: &'static str)
    ensures
        endpoint@ == "http://localhost:9515"@,
{
    "http://localhost:9515"
}

/// The arguments with which the browser driver is started: its port, what it logs, and
/// that it keeps off shared memory.
pub fn driver_arguments() -> (arguments: Vec<&'static str>)
    ensures
        arguments@.len() == 3,
        arguments@[0]@ == "--port=9515"@,
        arguments@[1]@ == "--log-level=WARNING"@,
        arguments@[2]@ == "--disable-dev-shm-usage"@,
{
    let mut arguments: Vec<&'static str> = Vec::new();
    arguments.push("--port=9515");
    arguments.push("--log-level=WARNING");
    arguments.push("--disable-dev-shm-usage");
    arguments
}

/// What the host found when it started the browser driver and looked at it after the
/// startup wait.
#[derive(Clone, Debug, PartialEq, Eq)]
pub enum DriverProbe {
    /// The program could not be started, for the cause given.
    NotStarted(String),
    /// The program has ended already, with the exit status given in words.
    Exited(String),
    /// The program runs.
    Running,
    /// Whether the program runs could not be found out, for the cause given.
    Unknown(String),
}

/// What is wrong with the browser driver after its start, if anything.
pub open spec fn startup_defect(probe: DriverProbe) -> Option<Fault> {
    match probe {
        DriverProbe::NotStarted(cause) => Some(
            fault(
                ErrorKind::ServiceUnavailable,
                "Failed to start ChromeDriver: "@ + cause@
                    + ". Make sure ChromeDriver is installed and in PATH."@,
            ),
        ),
        DriverProbe::Exited(status) => Some(
            fault(
                ErrorKind::ServiceUnavailable,
                "ChromeDriver exited early with status: "@ + status@
                    + ". Check if ChromeDriver is properly installed."@,
            ),
        ),
        DriverProbe::Running => None,
        DriverProbe::Unknown(cause) => Some(
            fault(ErrorKind::ServiceUnavailable, "Failed to check ChromeDriver status: "@ + cause@),
        ),
    }
}

/// Judges the start of the browser driver: the service may go on only where the driver
/// runs, and is unavailable otherwise.
pub fn start_chromedriver(probe: &DriverProbe) -> (result: Result<(), ApiError>)
    ensures
        crate::request::reports(result, startup_defect(*probe)),
{
    match probe {
        DriverProbe::NotStarted(cause) => {
            let mut words = String::from_str("Failed to start ChromeDriver: ");
            words.append(cause.as_str());
            words.append(". Make sure ChromeDriver is installed and in PATH.");
            Err(ApiError::ServiceUnavailable(words))
        },
        DriverProbe::Exited(status) => {
            let mut words = String::from_str("ChromeDriver exited early with status: ");
            words.append(status.as_str());
            words.append(". Check if ChromeDriver is properly installed.");
            Err(ApiError::ServiceUnavailable(words))
        },
        DriverProbe::Running => Ok(()),
        DriverProbe::Unknown(cause) => Err(
            ApiError::caused(
                ErrorKind::ServiceUnavailable,
                "Failed to check ChromeDriver status: ",
                cause.as_str(),
            ),
        ),
    }
}

} // verus!
