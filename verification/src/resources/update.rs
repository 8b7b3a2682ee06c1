use vstd::prelude::*;

use crate::error::UpdateError;
use crate::extract::{self, ExtractResult};
use crate::fsio::FileSystem;
use crate::progress::Progress;
use crate::provider::{Asset, DownloadResult, Provider};
use crate::update::{StepAction, UpdateProcedure, UpdateStep};
use crate::version::Version;

verus! {

/// The payload of the resource-bundle update: the provider and the
/// filesystem collaborator, the install directory, the locally recorded
/// version, the slots the check and download steps fill, and the flag
/// the caller reads before persisting the new version — a cancelled or
/// failed install must not advance the recorded version.
pub struct UpdateData<P: Provider, F: FileSystem> {
    pub provider: P,
    pub fs: F,
    pub asset_name: String,
    pub directory: String,
    pub version: Version,
    pub asset: Option<P::A>,
    pub file: Option<tempfile::TempPath>,
    pub success: bool,
}

impl<P: Provider, F: FileSystem> UpdateData<P, F> {
    /// A payload for replacing the resources in `directory`, recorded at
    /// `version`, with the release asset named `asset_name`.
    pub fn new(provider: P, fs: F, asset_name: String, version: Version, directory: String) -> (r:
        Self)
        ensures
            r.provider == provider,
            r.fs == fs,
            r.asset_name == asset_name,
            r.version == version,
            r.directory == directory,
            r.asset is None,
            r.file is None,
            !r.success,
    {
        UpdateData {
            provider,
            fs,
            asset_name,
            directory,
            version,
            asset: None,
            file: None,
            success: false,
        }
    }
}

/// Resolves the latest release against the locally recorded version.
pub struct StepCheckVersion;

/// Downloads the resolved asset into a temporary file.
pub struct StepDownload;

/// Clears the install directory and unpacks the archive into it.
pub struct StepInstall;

impl StepCheckVersion {
    /// Fetches the release listing and resolves the newest release
    /// carrying the wanted asset. The ghost witness is exactly what the
    /// provider resolved, where it resolved anything: at or below the
    /// recorded version the run completes early — up to date, nothing
    /// taken. Above it, the payload takes precisely the witnessed
    /// version and asset.
    pub fn run<P: Provider, F: FileSystem>(&self, data: &mut UpdateData<P, F>) -> (res: (
        Result<StepAction, UpdateError>,
        Ghost<Option<(Version, P::A)>>,
    ))
        ensures
            final(data).asset_name == old(data).asset_name,
            final(data).directory == old(data).directory,
            final(data).file == old(data).file,
            final(data).fs == old(data).fs,
            final(data).success == old(data).success,
            res.1@ is None <==> res.0 is Err,
            match res.1@ {
                Some(p) => if p.0.spec_le(old(data).version) {
                    res.0 == Ok::<StepAction, UpdateError>(StepAction::Complete)
                        && final(data).version == old(data).version
                        && final(data).asset == old(data).asset
                } else {
                    res.0 == Ok::<StepAction, UpdateError>(StepAction::Continue)
                        && final(data).version == p.0
                        && final(data).asset == Some(p.1)
                },
                None => final(data).version == old(data).version && final(data).asset == old(
                    data,
                ).asset,
            },
            match res.0 {
                Ok(StepAction::Continue) => old(data).version.spec_lt(final(data).version)
                    && final(data).asset is Some,
                Ok(StepAction::Complete) => final(data).version == old(data).version
                    && final(data).asset == old(data).asset,
                Ok(StepAction::Cancel) => false,
                Err(_) => final(data).version == old(data).version && final(data).asset == old(
                    data,
                ).asset,
            },
    {
        match data.provider.fetch() {
            Ok(u) => u,
            Err(e) => {
                let ghost resolved = None::<(Version, P::A)>;
                return (Err(e), Ghost(resolved));
            },
        };
        let resolved = match data.provider.latest(data.asset_name.as_str()) {
            Ok(p) => p,
            Err(e) => {
                let ghost resolved = None::<(Version, P::A)>;
                return (Err(e), Ghost(resolved));
            },
        };
        let (latest, asset) = resolved;
        let ghost witnessed = Some((latest, asset));
        if latest.le(&data.version) {
            return (Ok(StepAction::Complete), Ghost(witnessed));
        }
        data.version = latest;
        data.asset = Some(asset);
        (Ok(StepAction::Continue), Ghost(witnessed))
    }
}

impl StepDownload {
    /// Downloads the resolved asset into a temporary file, storing it for
    /// the install step. The ghost witness is the download's outcome,
    /// absent only where no asset was resolved: a completed download
    /// stores exactly the delivered file and continues, a cancelled one
    /// stops the run as cancelled — success, not an error — and a failed
    /// one aborts the run with the transfer's own error.
    pub fn run<P: Provider, F: FileSystem>(
        &self,
        data: &mut UpdateData<P, F>,
        progress: &mut Progress,
    ) -> (res: (Result<StepAction, UpdateError>, Ghost<Option<DownloadResult>>))
        ensures
            final(data).provider == old(data).provider,
            final(data).asset_name == old(data).asset_name,
            final(data).directory == old(data).directory,
            final(data).version == old(data).version,
            final(data).asset == old(data).asset,
            final(data).fs == old(data).fs,
            final(data).success == old(data).success,
            res.1@ is None <==> old(data).asset is None,
            res.1@ is None ==> res.0 is Err && final(data).file == old(data).file,
            match res.1@ {
                Some(outcome) => match outcome {
                    DownloadResult::Complete(f) => res.0 == Ok::<StepAction, UpdateError>(
                        StepAction::Continue,
                    ) && final(data).file == Some(f),
                    DownloadResult::Cancelled => res.0 == Ok::<StepAction, UpdateError>(
                        StepAction::Cancel,
                    ) && final(data).file == old(data).file,
                    DownloadResult::Error(e) => res.0 == Err::<StepAction, UpdateError>(e)
                        && final(data).file == old(data).file,
                },
                None => true,
            },
    {
        let outcome = match &data.asset {
            Some(a) => a.download(progress),
            None => {
                let ghost witnessed = None::<DownloadResult>;
                return (
                    Err(UpdateError::Other(String::from_str("no asset was resolved"))),
                    Ghost(witnessed),
                );
            },
        };
        let ghost witnessed = Some(outcome);
        match outcome {
            DownloadResult::Complete(file) => {
                data.file = Some(file);
                (Ok(StepAction::Continue), Ghost(witnessed))
            },
            DownloadResult::Cancelled => (Ok(StepAction::Cancel), Ghost(witnessed)),
            DownloadResult::Error(e) => (Err(e), Ghost(witnessed)),
        }
    }
}

/// One filesystem call of the resources install, with its outcome.
pub enum InstallEvent {
    /// `remove_dir_all(directory)` failed: the previous bundle could not
    /// be cleared.
    ClearFailed,
    /// `remove_dir_all(directory)` cleared the previous bundle; recorded
    /// only where the directory was reported present.
    Cleared,
    /// `create_dir(directory)` failed.
    CreateFailed,
    /// `create_dir(directory)` recreated the directory empty.
    Created,
    /// The archive was handed to the extraction front-end, which failed.
    UnpackFailed,
    /// The extraction observed a cancellation request and stopped.
    UnpackCancelled,
    /// The archive was fully extracted into the fresh directory.
    Unpacked,
}

/// The leading events of an install on a directory that was reported
/// present (and so cleared first) or absent.
pub open spec fn clear_prefix(cleared: bool) -> Seq<InstallEvent> {
    if cleared {
        seq![InstallEvent::Cleared]
    } else {
        Seq::<InstallEvent>::empty()
    }
}

impl StepInstall {
    /// Deletes the existing resources directory where present, recreates
    /// it empty, and extracts the downloaded archive into it. The ghost
    /// event list records exactly which calls ran, in that order: nothing
    /// touches the filesystem without a downloaded file, extraction
    /// happens only into a freshly created directory, and each failure
    /// stops the sequence where it struck. Only a fully extracted archive
    /// sets the success flag; a cancelled extraction stops the run as
    /// cancelled with the flag untouched, so the caller will not record
    /// the new version.
    pub fn run<P: Provider, F: FileSystem>(
        &self,
        data: &mut UpdateData<P, F>,
        progress: &mut Progress,
    ) -> (res: (Result<StepAction, UpdateError>, Ghost<Seq<InstallEvent>>))
        ensures
            final(data).provider == old(data).provider,
            final(data).asset_name == old(data).asset_name,
            final(data).directory == old(data).directory,
            final(data).version == old(data).version,
            final(data).asset == old(data).asset,
            old(data).file is None ==> res.0 is Err,
            match res.0 {
                Ok(StepAction::Continue) => final(data).success && final(data).file is None,
                Ok(StepAction::Cancel) => final(data).success == old(data).success,
                Ok(StepAction::Complete) => false,
                Err(_) => final(data).success == old(data).success,
            },
            ({
                let ev = res.1@;
                ||| (ev == Seq::<InstallEvent>::empty() && res.0 is Err && old(data).file
                    is None)
                ||| (ev == seq![InstallEvent::ClearFailed] && res.0 is Err)
                ||| (exists|c: bool|
                    ev == #[trigger] clear_prefix(c) + seq![InstallEvent::CreateFailed] && res.0
                        is Err)
                ||| (exists|c: bool|
                    ev == #[trigger] clear_prefix(c) + seq![InstallEvent::Created] && res.0 is Err)
                ||| (exists|c: bool|
                    ev == #[trigger] clear_prefix(c) + seq![
                        InstallEvent::Created,
                        InstallEvent::UnpackFailed,
                    ] && res.0 is Err)
                ||| (exists|c: bool|
                    ev == #[trigger] clear_prefix(c) + seq![
                        InstallEvent::Created,
                        InstallEvent::UnpackCancelled,
                    ] && res.0 == Ok::<StepAction, UpdateError>(StepAction::Cancel))
                ||| (exists|c: bool|
                    ev == #[trigger] clear_prefix(c) + seq![
                        InstallEvent::Created,
                        InstallEvent::Unpacked,
                    ] && res.0 == Ok::<StepAction, UpdateError>(StepAction::Continue))
            }),
    {
        let file = match data.file.take() {
            Some(f) => f,
            None => {
                let ghost events = Seq::<InstallEvent>::empty();
                return (
                    Err(UpdateError::Other(String::from_str("no downloaded file to unpack"))),
                    Ghost(events),
                );
            },
        };

        // (Re)create the install directory.
        let cleared = data.fs.is_dir(data.directory.as_str());
        if cleared {
            match data.fs.remove_dir_all(data.directory.as_str()) {
                Ok(u) => u,
                Err(e) => {
                    let ghost events = seq![InstallEvent::ClearFailed];
                    return (Err(e), Ghost(events));
                },
            };
        }
        let ghost prefix = clear_prefix(cleared);
        match data.fs.create_dir(data.directory.as_str()) {
            Ok(u) => u,
            Err(e) => {
                let ghost events = prefix + seq![InstallEvent::CreateFailed];
                return (Err(e), Ghost(events));
            },
        };

        let name = match &data.asset {
            Some(a) => a.name(),
            None => {
                let ghost events = prefix + seq![InstallEvent::Created];
                return (
                    Err(UpdateError::Other(String::from_str("no asset was resolved"))),
                    Ghost(events),
                );
            },
        };
        let (unpacked, _handed) = extract::asset(
            &mut data.fs,
            name,
            file,
            data.directory.as_str(),
            progress,
        );
        match unpacked {
            Ok(ExtractResult::Cancelled) => {
                let ghost events = prefix + seq![
                    InstallEvent::Created,
                    InstallEvent::UnpackCancelled,
                ];
                (Ok(StepAction::Cancel), Ghost(events))
            },
            Ok(ExtractResult::Complete) => {
                data.success = true;
                let ghost events = prefix + seq![InstallEvent::Created, InstallEvent::Unpacked];
                (Ok(StepAction::Continue), Ghost(events))
            },
            Err(e) => {
                let ghost events = prefix + seq![
                    InstallEvent::Created,
                    InstallEvent::UnpackFailed,
                ];
                (Err(e), Ghost(events))
            },
        }
    }
}

/// The steps of the resources update, in their fixed order.
pub enum ResourcesStep {
    CheckVersion(StepCheckVersion),
    Download(StepDownload),
    Install(StepInstall),
}

impl<P: Provider, F: FileSystem> UpdateStep<UpdateData<P, F>> for ResourcesStep {
    fn exec(&self, data: &mut UpdateData<P, F>, progress: &mut Progress) -> Result<
        StepAction,
        UpdateError,
    > {
        match self {
            ResourcesStep::CheckVersion(s) => s.run(data).0,
            ResourcesStep::Download(s) => s.run(data, progress).0,
            ResourcesStep::Install(s) => s.run(data, progress).0,
        }
    }

    fn label(&self, data: &UpdateData<P, F>) -> String {
        match self {
            ResourcesStep::CheckVersion(_) => String::from_str("Checking for latest version..."),
            ResourcesStep::Download(_) => String::from_str("Downloading..."),
            ResourcesStep::Install(_) => String::from_str("Unpacking..."),
        }
    }
}

/// The locally recorded resources version: the text of the version
/// file where one exists, read as `MAJOR.MINOR.PATCH`, and 0.0.0 where
/// the file is absent — a missing record means nothing was installed
/// yet, so any release is newer.
pub fn recorded_version(contents: Option<&str>) -> (r: Result<Version, UpdateError>)
    ensures
        match contents {
            None => r == Ok::<Version, UpdateError>(Version { major: 0, minor: 0, patch: 0 }),
            Some(s) => match r {
                Ok(v) => crate::version::spec_parse(s@) == Some(v),
                Err(e) => crate::version::spec_parse(s@) is None && e matches UpdateError::Parse(
                    _,
                ),
            },
        },
{
    match contents {
        Some(text) => Version::parse(text),
        None => Ok(Version::new(0, 0, 0)),
    }
}

/// The resources update procedure over `data`: check the version,
/// download, unpack.
pub fn create<P: Provider, F: FileSystem>(data: UpdateData<P, F>) -> (r: UpdateProcedure<
    UpdateData<P, F>,
    ResourcesStep,
>)
    ensures
        r.spec_data() == data,
        r.spec_title() == "Resource Updater"@,
        r.spec_steps() =~= seq![
            ResourcesStep::CheckVersion(StepCheckVersion),
            ResourcesStep::Download(StepDownload),
            ResourcesStep::Install(StepInstall),
        ],
{
    let mut procedure = UpdateProcedure::new(String::from_str("Resource Updater"), data);
    procedure.add_step(ResourcesStep::CheckVersion(StepCheckVersion));
    procedure.add_step(ResourcesStep::Download(StepDownload));
    procedure.add_step(ResourcesStep::Install(StepInstall));
    procedure
}

} // verus!
