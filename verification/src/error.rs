//! The ways in which a run can fail.

use vstd::prelude::*;

verus! {

/// A setting that has to come from the environment of the run.
#[derive(Debug, Clone, Copy, PartialEq, Eq, Structural)]
pub enum Setting {
    ApiKey,
    GitToken,
    GitRepository,
    AuthorName,
    AuthorEmail,
    CommitterName,
    CommitterEmail,
}

/// Why a report could not be rendered.
#[derive(Debug, Clone, Copy, PartialEq, Eq, Structural)]
pub enum RenderFault {
    /// The label of the reported period is not one of the known ranges.
    InvalidTimeRange,
    /// An end of the reported period is not an instant of the calendar.
    DateOutOfRange,
    /// The configured date style cannot be formatted.
    InvalidDateStyle,
}

/// One of the two markers that delimit the replaceable region of a file.
#[derive(Debug, Clone, Copy, PartialEq, Eq, Structural)]
pub enum Marker {
    Begin,
    End,
}

/// The failure that aborts a run.
#[derive(Debug, Clone, Copy, PartialEq, Eq, Structural)]
pub enum Error {
    /// A required setting is absent.
    ConfigMissing(Setting),
    /// The statistics could not be fetched.
    FetchFailed,
    /// The fetched statistics are malformed.
    ParseFailed,
    /// The report could not be rendered.
    RenderFailed(RenderFault),
    /// A marker is absent from the target file.
    RegionNotFound(Marker),
    /// The region between the markers is empty or reversed.
    InvalidRegion,
    /// Cloning, committing or pushing failed.
    GitOperationFailed,
}

impl Error {
    /// The one line that tells the user of the failure.
    pub open spec fn message_text(self) -> Seq<char> {
        match self {
            Error::ConfigMissing(Setting::ApiKey) => "Env variable `WAKATIME_API_KEY` should be set."@,
            Error::ConfigMissing(Setting::GitToken) => "Env variable `GIT_TOKEN` should be set."@,
            Error::ConfigMissing(Setting::GitRepository) => "Env variable `GIT_REPOSITORY` should be set."@,
            Error::ConfigMissing(Setting::AuthorName) => "Failed to get author's name from Git configuration."@,
            Error::ConfigMissing(Setting::AuthorEmail) => "Failed to get author's email from Git configuration."@,
            Error::ConfigMissing(Setting::CommitterName) => "Failed to get committer's name from Git configuration."@,
            Error::ConfigMissing(Setting::CommitterEmail) => "Failed to get committer's email from Git configuration."@,
            Error::FetchFailed => "Failed to fetch data from WakaTime API"@,
            Error::ParseFailed => "Error parsing JSON"@,
            Error::RenderFailed(RenderFault::InvalidTimeRange) => "Invalid Time Range"@,
            Error::RenderFailed(RenderFault::DateOutOfRange) => "Date out of range"@,
            Error::RenderFailed(RenderFault::InvalidDateStyle) => "Invalid date style"@,
            Error::RegionNotFound(Marker::Begin) => "Begin block not found"@,
            Error::RegionNotFound(Marker::End) => "End block not found"@,
            Error::InvalidRegion => "Invalid positions for replacement"@,
            Error::GitOperationFailed => "Git operation failed"@,
        }
    }

    /// The one line that tells the user of the failure.
    pub fn message(&self) -> (text: String)
        ensures
            text@ == self.message_text(),
    {
        let text: &'static str = match self {
            Error::ConfigMissing(Setting::ApiKey) => "Env variable `WAKATIME_API_KEY` should be set.",
            Error::ConfigMissing(Setting::GitToken) => "Env variable `GIT_TOKEN` should be set.",
            Error::ConfigMissing(Setting::GitRepository) => "Env variable `GIT_REPOSITORY` should be set.",
            Error::ConfigMissing(Setting::AuthorName) => "Failed to get author's name from Git configuration.",
            Error::ConfigMissing(Setting::AuthorEmail) => "Failed to get author's email from Git configuration.",
            Error::ConfigMissing(Setting::CommitterName) => "Failed to get committer's name from Git configuration.",
            Error::ConfigMissing(Setting::CommitterEmail) => "Failed to get committer's email from Git configuration.",
            Error::FetchFailed => "Failed to fetch data from WakaTime API",
            Error::ParseFailed => "Error parsing JSON",
            Error::RenderFailed(RenderFault::InvalidTimeRange) => "Invalid Time Range",
            Error::RenderFailed(RenderFault::DateOutOfRange) => "Date out of range",
            Error::RenderFailed(RenderFault::InvalidDateStyle) => "Invalid date style",
            Error::RegionNotFound(Marker::Begin) => "Begin block not found",
            Error::RegionNotFound(Marker::End) => "End block not found",
            Error::InvalidRegion => "Invalid positions for replacement",
            Error::GitOperationFailed => "Git operation failed",
        };
        String::from_str(text)
    }
}

/// The outcome `result` is the expected one: the same text or the same error.
pub open spec fn is_outcome(result: Result<String, Error>, expected: Result<Seq<char>, Error>) -> bool {
    match (result, expected) {
        (Ok(text), Ok(wanted)) => text@ == wanted,
        (Err(error), Err(wanted)) => error == wanted,
        _ => false,
    }
}

} // verus!
