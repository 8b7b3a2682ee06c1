pub mod github;

pub use github::{GitHubProvider, ReleasesClient};

use vstd::prelude::*;

use crate::error::UpdateError;
use crate::progress::Progress;
use crate::version::Version;

verus! {

/// The outcome of downloading an asset into a temporary file.
pub enum DownloadResult {
    /// The whole asset is in the temporary file at the returned path,
    /// flushed and closed so that the installer can read it.
    Complete(tempfile::TempPath),
    /// A cancellation request was observed between two chunks.
    Cancelled,
    /// The transfer failed.
    Error(UpdateError),
}

/// A single named, sized, downloadable artifact of a remote release.
pub trait Asset {
    /// The file name of the asset.
    fn name(&self) -> &str;

    /// The declared size of the asset in bytes.
    fn size(&self) -> u64;

    /// The URL the asset is served from.
    fn url(&self) -> &str;

    /// Downloads the asset into a temporary file, reporting through
    /// `progress` and honouring its cancellation flag between chunks.
    fn download(&self, progress: &mut Progress) -> DownloadResult;
}

/// A remote release source: fetch the release listing once, then resolve
/// the newest release that carries a named asset.
pub trait Provider {
    /// The downloadable handle this provider hands out.
    type A: Asset;

    /// The display name of the provider.
    fn name(&self) -> &'static str;

    /// Fetches all necessary data for the provider; must be called
    /// before `latest`.
    fn fetch(&mut self) -> Result<(), UpdateError>;

    /// Returns the latest version carrying an asset with the given name,
    /// together with that asset.
    fn latest(&self, name: &str) -> Result<(Version, Self::A), UpdateError>;
}

} // verus!
