use vstd::prelude::*;

use crate::error::UpdateError;
use crate::fsio::FileSystem;
use crate::paths;
use crate::progress::Progress;
use crate::provider::{Asset, DownloadResult, Provider};
use crate::update::{StepAction, UpdateProcedure, UpdateStep};
use crate::version::Version;

verus! {

/// The payload of the self-executable update: the provider and the
/// filesystem collaborator, the paths the install step works with, and
/// the slots the check and download steps fill.
pub struct UpdateData<P: Provider, F: FileSystem> {
    pub provider: P,
    pub fs: F,
    pub current_exe: String,
    pub new_exe: String,
    pub temp_exe: String,
    pub version: Version,
    pub asset_name: String,
    pub asset: Option<P::A>,
    pub file: Option<tempfile::TempPath>,
}

impl<P: Provider, F: FileSystem> UpdateData<P, F> {
    /// A payload for replacing the executable at `current_exe`, currently
    /// at `version`, with the release asset named `asset_name`. The
    /// staging and parking paths are the executable's siblings with the
    /// `new` and `old` extensions.
    pub fn new(provider: P, fs: F, asset_name: String, version: Version, current_exe: String) -> (r:
        Self)
        ensures
            r.provider == provider,
            r.fs == fs,
            r.asset_name == asset_name,
            r.version == version,
            r.current_exe == current_exe,
            r.new_exe@ == paths::spec_with_extension(current_exe@, "new"@),
            r.temp_exe@ == paths::spec_with_extension(current_exe@, "old"@),
            r.asset is None,
            r.file is None,
    {
        let new_exe = paths::with_extension(current_exe.as_str(), "new");
        let temp_exe = paths::with_extension(current_exe.as_str(), "old");
        UpdateData {
            provider,
            fs,
            current_exe,
            new_exe,
            temp_exe,
            version,
            asset_name,
            asset: None,
            file: None,
        }
    }
}

/// Removes the leftover parked executable of a previous run.
pub struct StepCleanUp;

/// Resolves the latest release and decides whether an update is due.
pub struct StepCheckVersion;

/// Downloads the resolved asset into a temporary file.
pub struct StepDownload;

/// Stages the downloaded file and swaps it into place.
pub struct StepInstall;

impl StepCleanUp {
    /// Removes a leftover `.old` file from a previous run where one is
    /// present; a failure to remove it aborts the run, since the swap
    /// could not park the executable there later.
    pub fn run<P: Provider, F: FileSystem>(&self, data: &mut UpdateData<P, F>) -> (r: Result<
        StepAction,
        UpdateError,
    >)
        ensures
            final(data).provider == old(data).provider,
            final(data).current_exe == old(data).current_exe,
            final(data).new_exe == old(data).new_exe,
            final(data).temp_exe == old(data).temp_exe,
            final(data).version == old(data).version,
            final(data).asset_name == old(data).asset_name,
            final(data).asset == old(data).asset,
            final(data).file == old(data).file,
            r matches Ok(a) ==> a is Continue,
    {
        if data.fs.is_file(data.temp_exe.as_str()) {
            match data.fs.remove_file(data.temp_exe.as_str()) {
                Ok(u) => u,
                Err(e) => {
                    return Err(e);
                },
            };
        }
        Ok(StepAction::Continue)
    }
}

impl StepCheckVersion {
    /// Fetches the release listing and resolves the newest release
    /// carrying the wanted asset. The ghost witness is exactly what the
    /// provider resolved, where it resolved anything: at or below the
    /// local version the run completes early — up to date, nothing
    /// taken. Above it, the payload takes precisely the witnessed
    /// version and asset and the run goes on.
    pub fn run<P: Provider, F: FileSystem>(&self, data: &mut UpdateData<P, F>) -> (res: (
        Result<StepAction, UpdateError>,
        Ghost<Option<(Version, P::A)>>,
    ))
        ensures
            final(data).current_exe == old(data).current_exe,
            final(data).new_exe == old(data).new_exe,
            final(data).temp_exe == old(data).temp_exe,
            final(data).asset_name == old(data).asset_name,
            final(data).file == old(data).file,
            final(data).fs == old(data).fs,
            res.1@ is None <==> res.0 is Err,
            match res.1@ {
                Some(p) => if p.0.spec_le(old(data).version) {
                    res.0 == Ok::<StepAction, UpdateError>(StepAction::Complete)
                        && final(data).version == old(data).version
                        && final(data).asset == old(data).asset
                } else {
                    res.0 == Ok::<StepAction, UpdateError>(StepAction::Continue)
                        && final(data).version == p.0
                        && final(data).asset == Some(p.1)
                },
                None => final(data).version == old(data).version && final(data).asset == old(
                    data,
                ).asset,
            },
            match res.0 {
                Ok(StepAction::Continue) => old(data).version.spec_lt(final(data).version)
                    && final(data).asset is Some,
                Ok(StepAction::Complete) => final(data).version == old(data).version
                    && final(data).asset == old(data).asset,
                Ok(StepAction::Cancel) => false,
                Err(_) => final(data).version == old(data).version && final(data).asset == old(
                    data,
                ).asset,
            },
    {
        match data.provider.fetch() {
            Ok(u) => u,
            Err(e) => {
                let ghost resolved = None::<(Version, P::A)>;
                return (Err(e), Ghost(resolved));
            },
        };
        let resolved = match data.provider.latest(data.asset_name.as_str()) {
            Ok(p) => p,
            Err(e) => {
                let ghost resolved = None::<(Version, P::A)>;
                return (Err(e), Ghost(resolved));
            },
        };
        let (latest, asset) = resolved;
        let ghost witnessed = Some((latest, asset));
        if latest.le(&data.version) {
            return (Ok(StepAction::Complete), Ghost(witnessed));
        }
        data.version = latest;
        data.asset = Some(asset);
        (Ok(StepAction::Continue), Ghost(witnessed))
    }
}

impl StepDownload {
    /// Downloads the resolved asset into a temporary file, storing it for
    /// the install step. The ghost witness is the download's outcome,
    /// absent only where no asset was resolved: a completed download
    /// stores exactly the delivered file and continues, a cancelled one
    /// stops the run as cancelled — success, not an error — and a failed
    /// one aborts the run with the transfer's own error.
    pub fn run<P: Provider, F: FileSystem>(
        &self,
        data: &mut UpdateData<P, F>,
        progress: &mut Progress,
    ) -> (res: (Result<StepAction, UpdateError>, Ghost<Option<DownloadResult>>))
        ensures
            final(data).provider == old(data).provider,
            final(data).current_exe == old(data).current_exe,
            final(data).new_exe == old(data).new_exe,
            final(data).temp_exe == old(data).temp_exe,
            final(data).version == old(data).version,
            final(data).asset_name == old(data).asset_name,
            final(data).asset == old(data).asset,
            final(data).fs == old(data).fs,
            res.1@ is None <==> old(data).asset is None,
            res.1@ is None ==> res.0 is Err && final(data).file == old(data).file,
            match res.1@ {
                Some(outcome) => match outcome {
                    DownloadResult::Complete(f) => res.0 == Ok::<StepAction, UpdateError>(
                        StepAction::Continue,
                    ) && final(data).file == Some(f),
                    DownloadResult::Cancelled => res.0 == Ok::<StepAction, UpdateError>(
                        StepAction::Cancel,
                    ) && final(data).file == old(data).file,
                    DownloadResult::Error(e) => res.0 == Err::<StepAction, UpdateError>(e)
                        && final(data).file == old(data).file,
                },
                None => true,
            },
    {
        let outcome = match &data.asset {
            Some(a) => a.download(progress),
            None => {
                let ghost witnessed = None::<DownloadResult>;
                return (
                    Err(UpdateError::Other(String::from_str("no asset was resolved"))),
                    Ghost(witnessed),
                );
            },
        };
        let ghost witnessed = Some(outcome);
        match outcome {
            DownloadResult::Complete(file) => {
                data.file = Some(file);
                (Ok(StepAction::Continue), Ghost(witnessed))
            },
            DownloadResult::Cancelled => (Ok(StepAction::Cancel), Ghost(witnessed)),
            DownloadResult::Error(e) => (Err(e), Ghost(witnessed)),
        }
    }
}

impl StepInstall {
    /// Copies the downloaded file to the staging path beside the current
    /// executable, then swaps it into place, parking the old executable
    /// under the temp name for the next run's clean-up.
    pub fn run<P: Provider, F: FileSystem>(&self, data: &mut UpdateData<P, F>) -> (res: (Result<
        StepAction,
        UpdateError,
    >, Ghost<Option<bool>>, Ghost<Seq<SwapEvent>>))
        ensures
            final(data).provider == old(data).provider,
            final(data).current_exe == old(data).current_exe,
            final(data).new_exe == old(data).new_exe,
            final(data).temp_exe == old(data).temp_exe,
            final(data).version == old(data).version,
            final(data).asset_name == old(data).asset_name,
            final(data).asset == old(data).asset,
            final(data).file is None,
            res.1@ is None <==> old(data).file is None,
            res.1@ is None ==> res.0 is Err && res.2@ == Seq::<SwapEvent>::empty(),
            res.1@ == Some(false) ==> res.0 is Err && res.2@ == Seq::<SwapEvent>::empty(),
            res.1@ == Some(true) ==> swap_shape(res.2@, res.0 is Ok),
            res.0 matches Ok(a) ==> a is Continue && res.1@ == Some(true),
    {
        let file = match data.file.take() {
            Some(f) => f,
            None => {
                let ghost staged = None::<bool>;
                let ghost swap = Seq::<SwapEvent>::empty();
                return (
                    Err(UpdateError::Other(String::from_str("no downloaded file to install"))),
                    Ghost(staged),
                    Ghost(swap),
                );
            },
        };
        match data.fs.copy_to(&file, data.new_exe.as_str()) {
            Ok(u) => u,
            Err(e) => {
                let ghost staged = Some(false);
                let ghost swap = Seq::<SwapEvent>::empty();
                return (Err(e), Ghost(staged), Ghost(swap));
            },
        };
        let ghost staged = Some(true);
        let swapped = replace_temp(
            &mut data.fs,
            data.new_exe.as_str(),
            data.current_exe.as_str(),
            data.temp_exe.as_str(),
        );
        let ghost swap = swapped.1@;
        match swapped.0 {
            Ok(u) => u,
            Err(e) => {
                return (Err(e), Ghost(staged), Ghost(swap));
            },
        };
        (Ok(StepAction::Continue), Ghost(staged), Ghost(swap))
    }
}

/// One filesystem call of the executable swap, with its outcome.
pub enum SwapEvent {
    /// The probe for the staged replacement: whether a file was found.
    Checked(bool),
    /// `rename(target, temp)`: parking the original.
    Park(bool),
    /// `rename(replacement, target)`: installing the replacement.
    Install(bool),
    /// `rename(temp, target)`: the best-effort rollback of the park.
    Rollback(bool),
}

/// The shapes an executable swap can take, each error with exactly one
/// cause: the staged replacement was missing, the park failed, both
/// renames succeeded, or the install rename failed after a successful
/// park — the only case in which a rollback is attempted, whose own
/// outcome does not mask the error.
pub open spec fn swap_shape(ev: Seq<SwapEvent>, ok: bool) -> bool {
    ||| (ev == seq![SwapEvent::Checked(false)] && !ok)
    ||| (ev == seq![SwapEvent::Checked(true), SwapEvent::Park(false)] && !ok)
    ||| (ev == seq![SwapEvent::Checked(true), SwapEvent::Park(true), SwapEvent::Install(true)]
        && ok)
    ||| (exists|b: bool|
        ev == seq![
            SwapEvent::Checked(true),
            SwapEvent::Park(true),
            SwapEvent::Install(false),
            SwapEvent::Rollback(b),
        ] && !ok)
}

/// Replaces `target` with `replacement` through a two-phase rename,
/// parking the original at `temp`. The ghost event list records exactly
/// which calls ran and how they went — one of the four swap shapes: the
/// swap succeeds only when the probe found the replacement and both
/// renames went through, in order.
pub fn replace_temp<F: FileSystem>(fs: &mut F, replacement: &str, target: &str, temp: &str) -> (res:
    (Result<(), UpdateError>, Ghost<Seq<SwapEvent>>))
    ensures
        swap_shape(res.1@, res.0 is Ok),
{
    // First make sure the replacement exists before touching the target.
    if !fs.is_file(replacement) {
        let ghost events = seq![SwapEvent::Checked(false)];
        return (
            Err(UpdateError::Io(String::from_str("replacement file does not exist"))),
            Ghost(events),
        );
    }

    if let Err(e) = fs.rename(target, temp) {
        let ghost events = seq![SwapEvent::Checked(true), SwapEvent::Park(false)];
        return (Err(e), Ghost(events));
    }

    if let Err(e) = fs.rename(replacement, target) {
        // Undo the first rename; its own failure is not allowed to mask
        // the error that broke the swap.
        let recovered = fs.rename(temp, target).is_ok();
        let ghost events = seq![
            SwapEvent::Checked(true),
            SwapEvent::Park(true),
            SwapEvent::Install(false),
            SwapEvent::Rollback(recovered),
        ];
        return (Err(e), Ghost(events));
    }

    let ghost events = seq![
        SwapEvent::Checked(true),
        SwapEvent::Park(true),
        SwapEvent::Install(true),
    ];
    (Ok(()), Ghost(events))
}

/// The steps of the self-executable update, in their fixed order.
pub enum SelfUpdateStep {
    CleanUp(StepCleanUp),
    CheckVersion(StepCheckVersion),
    Download(StepDownload),
    Install(StepInstall),
}

impl<P: Provider, F: FileSystem> UpdateStep<UpdateData<P, F>> for SelfUpdateStep {
    fn exec(&self, data: &mut UpdateData<P, F>, progress: &mut Progress) -> Result<
        StepAction,
        UpdateError,
    > {
        match self {
            SelfUpdateStep::CleanUp(s) => s.run(data),
            SelfUpdateStep::CheckVersion(s) => s.run(data).0,
            SelfUpdateStep::Download(s) => s.run(data, progress).0,
            SelfUpdateStep::Install(s) => s.run(data).0,
        }
    }

    fn label(&self, data: &UpdateData<P, F>) -> String {
        match self {
            SelfUpdateStep::CleanUp(_) => String::from_str("Cleaning up..."),
            SelfUpdateStep::CheckVersion(_) => String::from_str("Checking for latest version..."),
            SelfUpdateStep::Download(_) => String::from_str("Downloading..."),
            SelfUpdateStep::Install(_) => String::from_str("Installing..."),
        }
    }
}

/// The self-executable update procedure over `data`: clean up, check the
/// version, download, install.
pub fn create<P: Provider, F: FileSystem>(data: UpdateData<P, F>) -> (r: UpdateProcedure<
    UpdateData<P, F>,
    SelfUpdateStep,
>)
    ensures
        r.spec_data() == data,
        r.spec_title() == "Self-Updater"@,
        r.spec_steps() =~= seq![
            SelfUpdateStep::CleanUp(StepCleanUp),
            SelfUpdateStep::CheckVersion(StepCheckVersion),
            SelfUpdateStep::Download(StepDownload),
            SelfUpdateStep::Install(StepInstall),
        ],
{
    let mut procedure = UpdateProcedure::new(String::from_str("Self-Updater"), data);
    procedure.add_step(SelfUpdateStep::CleanUp(StepCleanUp));
    procedure.add_step(SelfUpdateStep::CheckVersion(StepCheckVersion));
    procedure.add_step(SelfUpdateStep::Download(StepDownload));
    procedure.add_step(SelfUpdateStep::Install(StepInstall));
    procedure
}

} // verus!
