//! The command-line arguments of the compositor, as plain data.

use vstd::prelude::*;

verus! {

/// The log levels that can be chosen on the command line.
#[derive(Copy, Clone, Debug, PartialEq, Eq, Hash, Structural)]
pub enum CliLogLevel {
    Trace,
    Debug,
    Info,
    Warn,
    Error,
}

impl Default for CliLogLevel {
    fn default() -> (r: Self)
        ensures
            r == CliLogLevel::Info,
    {
        CliLogLevel::Info
    }
}

/// The backends that can be chosen on the command line.
#[derive(Copy, Clone, Debug, PartialEq, Eq, Hash, Structural)]
pub enum CliBackend {
    X11,
    Metal,
}

/// The image formats of screenshots.
#[derive(Copy, Clone, Debug, PartialEq, Eq, Hash, Structural)]
pub enum ScreenshotFormat {
    /// The PNG image format.
    Png,
    /// The QOI image format.
    Qoi,
}

impl Default for ScreenshotFormat {
    fn default() -> (r: Self)
        ensures
            r == ScreenshotFormat::Png,
    {
        ScreenshotFormat::Png
    }
}

/// The arguments that every command takes.
#[derive(Copy, Clone, Debug)]
pub struct GlobalArgs {
    /// The log level.
    pub log_level: CliLogLevel,
}

/// The arguments of running a privileged program.
#[derive(Clone, Debug)]
pub struct RunPrivilegedArgs {
    /// The program to run, with its arguments.
    pub program: Vec<String>,
}

/// The arguments of taking a screenshot.
#[derive(Clone, Debug)]
pub struct ScreenshotArgs {
    /// The format to use for the image.
    pub format: ScreenshotFormat,
    /// The filename of the saved screenshot; where none is given, a name
    /// from the date and time is chosen.
    pub filename: Option<String>,
}

/// The arguments of running the compositor.
#[derive(Clone, Debug)]
pub struct RunArgs {
    /// The backends to try, in order; none for the default order.
    pub backends: Vec<CliBackend>,
}

impl Default for RunArgs {
    fn default() -> (r: Self)
        ensures
            r.backends@.len() == 0,
    {
        RunArgs { backends: Vec::new() }
    }
}

/// The arguments of opening the log file.
#[derive(Copy, Clone, Debug)]
pub struct LogArgs {
    /// Print the path of the log file.
    pub path: bool,
    /// Follow the log.
    pub follow: bool,
    /// Immediately jump to the end in the pager.
    pub pager_end: bool,
}

/// The arguments of setting the log level.
#[derive(Copy, Clone, Debug)]
pub struct SetLogArgs {
    /// The new log level.
    pub level: CliLogLevel,
}

/// The arguments of testing the events of seats.
#[derive(Clone, Debug)]
pub struct SeatTestArgs {
    /// Test all seats.
    pub all: bool,
    /// The seat to test.
    pub seat: Option<String>,
}

} // verus!
