use vstd::prelude::*;

verus! {

/// The failure taxonomy of the update subsystem. Cancellation is not an
/// error: a cancelled run reports success with its progress marked complete.
#[derive(Debug)]
pub enum UpdateError {
    /// No response from the remote service, or the transfer broke off.
    Transport(String),
    /// The remote service answered with a structured error payload.
    Api(String),
    /// A malformed version string or payload.
    Parse(String),
    /// The requested asset is absent from every release.
    NotFound(String),
    /// `latest` was called before `fetch`.
    NotFetched,
    /// A filesystem operation failed during install.
    Io(String),
    /// A step reported success but its post-condition check failed.
    Verification,
    /// The downloaded archive has a suffix no extractor understands.
    UnknownFormat,
    /// A failure a step reports in its own words.
    Other(String),
}

impl UpdateError {
    /// The human-readable text of this error.
    pub open spec fn spec_message(self) -> Seq<char> {
        match self {
            UpdateError::Transport(s) => "No response: "@ + s@,
            UpdateError::Api(s) => "API error: "@ + s@,
            UpdateError::Parse(s) => "Parse error: "@ + s@,
            UpdateError::NotFound(s) => "Asset not found: "@ + s@,
            UpdateError::NotFetched => "No fetched content found!"@,
            UpdateError::Io(s) => "Filesystem error: "@ + s@,
            UpdateError::Verification => "Verification failed"@,
            UpdateError::UnknownFormat => "Unknown archive format!"@,
            UpdateError::Other(s) => s@,
        }
    }

    /// Renders the error as text for the caller to print.
    pub fn message(&self) -> (r: String)
        ensures
            r@ == self.spec_message(),
    {
        match self {
            UpdateError::Transport(s) => String::from_str("No response: ").concat(s.as_str()),
            UpdateError::Api(s) => String::from_str("API error: ").concat(s.as_str()),
            UpdateError::Parse(s) => String::from_str("Parse error: ").concat(s.as_str()),
            UpdateError::NotFound(s) => String::from_str("Asset not found: ").concat(s.as_str()),
            UpdateError::NotFetched => String::from_str("No fetched content found!"),
            UpdateError::Io(s) => String::from_str("Filesystem error: ").concat(s.as_str()),
            UpdateError::Verification => String::from_str("Verification failed"),
            UpdateError::UnknownFormat => String::from_str("Unknown archive format!"),
            UpdateError::Other(s) => s.clone(),
        }
    }
}

} // verus!
