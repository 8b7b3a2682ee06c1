use vstd::prelude::*;

pub mod commands;
pub mod config;
mod error;
pub mod extract;
mod fsio;
mod locker;
mod paths;
pub mod procedures;
mod progress;
pub mod provider;
pub mod resources;
pub mod transfer;
pub mod update;
pub mod version;

pub use error::UpdateError;
pub use fsio::FileSystem;
pub use locker::{LockBackend, Locker};
pub use progress::Progress;
pub use version::Version;

verus! {

/// A downloaded artifact is carried between steps as the path of a
/// temporary file managed by the tempfile crate, removed when the handle
/// is dropped. The library never looks inside the handle; it only moves
/// it from the download step to the install step.
#[verifier::external_type_specification]
#[verifier::external_body]
pub struct ExTempPath(tempfile::TempPath);

} // verus!
