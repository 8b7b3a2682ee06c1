use vstd::prelude::*;

use crate::error::UpdateError;
use crate::fsio::FileSystem;
use crate::progress::Progress;

verus! {

/// How an extraction ended: fully unpacked, or stopped at a cancellation
/// request between two entries.
#[derive(Debug, PartialEq, Eq, Structural)]
pub enum ExtractResult {
    Complete,
    Cancelled,
}

/// Whether `s` ends in `.zip`, the one archive format the system knows.
pub open spec fn is_zip_name(s: Seq<char>) -> bool {
    s.len() >= 4 && s.subrange(s.len() - 4, s.len() as int) == ".zip"@
}

/// Unpacks the downloaded asset `archive` into `target`, choosing the
/// extractor by the asset name's suffix. Only `.zip` is understood: any
/// other name fails at once with an unknown-format error and the
/// archive is never handed to the extractor; a `.zip` name is handed
/// through, and the ghost witness is the extractor's own outcome,
/// returned unchanged.
pub fn asset<F: FileSystem>(
    fs: &mut F,
    name: &str,
    archive: tempfile::TempPath,
    target: &str,
    progress: &mut Progress,
) -> (res: (
    Result<ExtractResult, UpdateError>,
    Ghost<Option<Result<ExtractResult, UpdateError>>>,
))
    ensures
        res.1@ is None <==> !is_zip_name(name@),
        res.1@ is None ==> res.0 == Err::<ExtractResult, UpdateError>(UpdateError::UnknownFormat),
        res.1@ matches Some(outcome) ==> res.0 == outcome,
{
    let n = name.unicode_len();
    if n < 4 {
        let ghost handed = None::<Result<ExtractResult, UpdateError>>;
        return (Err(UpdateError::UnknownFormat), Ghost(handed));
    }
    let suffix = name.substring_char(n - 4, n);
    let matches_zip = {
        let a = String::from_str(suffix);
        let b = String::from_str(".zip");
        a == b
    };
    if matches_zip {
        let outcome = fs.extract_zip(archive, target, progress);
        let ghost handed = Some(outcome);
        (outcome, Ghost(handed))
    } else {
        let ghost handed = None::<Result<ExtractResult, UpdateError>>;
        (Err(UpdateError::UnknownFormat), Ghost(handed))
    }
}

} // verus!
