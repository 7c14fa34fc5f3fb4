//! The engine's failure taxonomy: I/O failures, missing-configuration
//! failures, process-control failures, and text-decoding failures.

use vstd::prelude::*;
use vstd::string::*;

verus! {

/// An error raised by the watch/build engine.
///
/// Failures that originate outside the engine (a directory read, a spawn, a
/// filename that is not valid text) are carried as their rendered message.
#[derive(Debug)]
pub enum Error {
    /// An input/output operation failed; holds the underlying message.
    StdIo(String),
    /// `WatcherBuilder::build` was called without a watch interval.
    WatchIntervalNotSet,
    /// `WatcherBuilder::build` was called without a display sink.
    DisplayNotSet,
    /// `WatcherBuilder::build` was called without a build-process handle.
    BuildProcessNotSet,
    /// Spawning the secondary or the primary build command failed; holds the
    /// underlying message.
    BuildFailed(String),
    /// A file name could not be decoded as valid text; holds a rendition of
    /// the offending name.
    FailedParsingOsString(String),
}

impl Error {
    /// What `message` returns for each variant.
    pub open spec fn spec_message(self) -> Seq<char> {
        match self {
            Error::StdIo(e) => "Error: Standard Input/Output\n"@ + e@,
            Error::WatchIntervalNotSet => {
                "Error: Can't build `Watcher` without setting watch interval."@
            },
            Error::DisplayNotSet => "Error: Log display not configured correctly."@,
            Error::BuildProcessNotSet => {
                "Error: Can't build `Watcher` without setting build process."@
            },
            Error::BuildFailed(e) => "Error: Failed to build\n"@ + e@,
            Error::FailedParsingOsString(e) => "Error: Failed parsing OS Native string: "@ + e@,
        }
    }

    /// Get the error message.
    pub fn message(&self) -> (r: String)
        ensures
            r@ == self.spec_message(),
    {
        match self {
            Error::StdIo(e) => {
                let mut r = String::from_str("Error: Standard Input/Output\n");
                r.append(e.as_str());
                r
            },
            Error::WatchIntervalNotSet => {
                String::from_str("Error: Can't build `Watcher` without setting watch interval.")
            },
            Error::DisplayNotSet => String::from_str("Error: Log display not configured correctly."),
            Error::BuildProcessNotSet => {
                String::from_str("Error: Can't build `Watcher` without setting build process.")
            },
            Error::BuildFailed(e) => {
                let mut r = String::from_str("Error: Failed to build\n");
                r.append(e.as_str());
                r
            },
            Error::FailedParsingOsString(e) => {
                let mut r = String::from_str("Error: Failed parsing OS Native string: ");
                r.append(e.as_str());
                r
            },
        }
    }
}

} // verus!
