use vstd::prelude::*;

use crate::error::UpdateError;
use crate::provider::{Asset, Provider};
use crate::version::{self, Version};

verus! {

/// A GitHub-style release-listing response: either the releases, or a
/// structured error payload with a message.
pub enum GitHubResponse {
    Release(Vec<GitHubRelease>),
    Error(GitHubError),
}

/// The error payload a GitHub-style API answers with.
pub struct GitHubError {
    pub message: String,
}

/// One remote release: a tag of the form `vMAJOR.MINOR.PATCH` and the
/// assets attached to it.
pub struct GitHubRelease {
    pub name: String,
    pub tag_name: String,
    pub prerelease: bool,
    pub assets: Vec<GitHubAsset>,
}

/// The description of one release asset.
pub struct GitHubAsset {
    pub name: String,
    pub size: u64,
    pub browser_download_url: String,
}

impl GitHubResponse {
    /// The release listing the response carries, or the API error it
    /// reports instead, its message surfaced verbatim.
    pub fn into_releases(self) -> (r: Result<Vec<GitHubRelease>, UpdateError>)
        ensures
            self matches GitHubResponse::Release(rs) ==> r == Ok::<
                Vec<GitHubRelease>,
                UpdateError,
            >(rs),
            self matches GitHubResponse::Error(e) ==> r == Err::<Vec<GitHubRelease>, UpdateError>(
                UpdateError::Api(e.message),
            ),
    {
        match self {
            GitHubResponse::Release(releases) => Ok(releases),
            GitHubResponse::Error(e) => Err(UpdateError::Api(e.message)),
        }
    }
}

/// The version a release's tag resolves to: the tag with its leading
/// character dropped, read as `MAJOR.MINOR.PATCH`.
pub open spec fn tag_version(r: GitHubRelease) -> Option<Version> {
    if r.tag_name@.len() >= 1 {
        version::spec_parse(r.tag_name@.subrange(1, r.tag_name@.len() as int))
    } else {
        None
    }
}

/// The first asset of the sequence carrying the given name.
pub open spec fn find_asset(assets: Seq<GitHubAsset>, name: Seq<char>) -> Option<GitHubAsset>
    decreases assets.len(),
{
    if assets.len() == 0 {
        None
    } else if assets[0].name@ == name {
        Some(assets[0])
    } else {
        find_asset(assets.drop_first(), name)
    }
}

/// One step of the release scan: the candidate after seeing a release,
/// given the best candidate so far. A release improves the candidate
/// when it carries the asset and its version is strictly above the
/// candidate's (or above 0.0.0 where there is none yet); a later release
/// with an equal version is ignored.
pub open spec fn scan_step(
    acc: Option<(Version, GitHubAsset)>,
    r: GitHubRelease,
    v: Version,
    name: Seq<char>,
) -> Option<(Version, GitHubAsset)> {
    let floor = match acc {
        Some(p) => p.0,
        None => Version { major: 0, minor: 0, patch: 0 },
    };
    match find_asset(r.assets@, name) {
        Some(a) => if floor.spec_lt(v) {
            Some((v, a))
        } else {
            acc
        },
        None => acc,
    }
}

/// The release scan: folds the releases in order, failing on the first
/// unparsable tag (outer `None`), otherwise yielding the best candidate
/// (inner option).
pub open spec fn scan_releases(
    rs: Seq<GitHubRelease>,
    name: Seq<char>,
    acc: Option<(Version, GitHubAsset)>,
) -> Option<Option<(Version, GitHubAsset)>>
    decreases rs.len(),
{
    if rs.len() == 0 {
        Some(acc)
    } else {
        match tag_version(rs[0]) {
            None => None,
            Some(v) => scan_releases(rs.drop_first(), name, scan_step(acc, rs[0], v, name)),
        }
    }
}

/// The version the release scan resolves, where it resolves one.
pub open spec fn scan_version(rs: Seq<GitHubRelease>, name: Seq<char>) -> Option<Version> {
    match scan_releases(rs, name, None) {
        Some(Some(p)) => Some(p.0),
        _ => None,
    }
}

impl GitHubAsset {
    pub fn new(name: String, size: u64, browser_download_url: String) -> (r: Self)
        ensures
            r == (GitHubAsset { name, size, browser_download_url }),
    {
        GitHubAsset { name, size, browser_download_url }
    }

    /// The file name of the asset.
    pub fn name(&self) -> (r: &str)
        ensures
            r@ == self.name@,
    {
        self.name.as_str()
    }

    /// The size of the asset in bytes.
    pub fn size(&self) -> (r: u64)
        ensures
            r == self.size,
    {
        self.size
    }

    /// The download URL of the asset.
    pub fn url(&self) -> (r: &str)
        ensures
            r@ == self.browser_download_url@,
    {
        self.browser_download_url.as_str()
    }

    /// An equal copy of this asset.
    pub fn duplicate(&self) -> (r: Self)
        ensures
            r == *self,
    {
        GitHubAsset {
            name: self.name.clone(),
            size: self.size,
            browser_download_url: self.browser_download_url.clone(),
        }
    }
}

impl GitHubRelease {
    pub fn new(name: String, tag_name: String, prerelease: bool, assets: Vec<GitHubAsset>) -> (r:
        Self)
        ensures
            r == (GitHubRelease { name, tag_name, prerelease, assets }),
    {
        GitHubRelease { name, tag_name, prerelease, assets }
    }

    /// The version this release's tag names.
    pub fn version(&self) -> (r: Result<Version, UpdateError>)
        ensures
            match r {
                Ok(v) => tag_version(*self) == Some(v),
                Err(e) => tag_version(*self) is None && e matches UpdateError::Parse(_),
            },
    {
        version::extract(self.tag_name.as_str())
    }

    /// The assets attached to this release.
    pub fn assets(&self) -> (r: &Vec<GitHubAsset>)
        ensures
            r == &self.assets,
    {
        &self.assets
    }
}

/// The transport and asset factory behind a GitHub-style provider. The
/// release listing crosses this boundary as plain values; implementations
/// do the network work outside the verified library, as the injected
/// client the provider is configured with.
pub trait ReleasesClient {
    /// The downloadable handle assets of this client resolve to.
    type A: Asset;

    /// Lists the releases published at `url`.
    fn list(&mut self, url: &str) -> Result<Vec<GitHubRelease>, UpdateError>;

    /// A downloadable handle for one release asset.
    fn asset(&self, info: &GitHubAsset) -> Self::A;
}

/// A GitHub-releases-backed provider: remembers the release listing its
/// client fetched and resolves the newest asset-bearing release from it.
pub struct GitHubProvider<C> {
    url: String,
    client: C,
    releases: Option<Vec<GitHubRelease>>,
}

impl<C: ReleasesClient> GitHubProvider<C> {
    /// The URL of the release listing this provider reads.
    pub closed spec fn spec_url(self) -> Seq<char> {
        self.url@
    }

    /// The fetched release listing, absent before `fetch` succeeds.
    pub closed spec fn spec_releases(self) -> Option<Vec<GitHubRelease>> {
        self.releases
    }

    /// Creates a provider for the repository `repo` (`user/repository`),
    /// listing its releases through the given client.
    pub fn new(repo: &str, client: C) -> (r: Self)
        ensures
            r.spec_url() == "https://api.github.com/repos/"@ + repo@ + "/releases"@,
            r.spec_releases() is None,
    {
        GitHubProvider {
            url: String::from_str("https://api.github.com/repos/").concat(repo).concat(
                "/releases",
            ),
            client,
            releases: None,
        }
    }
}

impl<C: ReleasesClient> Provider for GitHubProvider<C> {
    type A = C::A;

    fn name(&self) -> &'static str {
        "GitHub"
    }

    /// Asks the client for the release listing and caches it.
    fn fetch(&mut self) -> (r: Result<(), UpdateError>)
        ensures
            final(self).spec_url() == old(self).spec_url(),
            r is Ok ==> final(self).spec_releases() is Some,
            r is Err ==> final(self).spec_releases() == old(self).spec_releases(),
    {
        let listed = self.client.list(self.url.as_str());
        match listed {
            Ok(rs) => {
                self.releases = Some(rs);
                Ok(())
            },
            Err(e) => Err(e),
        }
    }

    /// Scans the cached releases for the newest one carrying an asset
    /// with the given name. Fails when nothing was fetched yet, when a
    /// tag does not parse, and when no release carries the asset.
    fn latest(&self, name: &str) -> (r: Result<(Version, C::A), UpdateError>)
        ensures
            match r {
                Ok(p) => self.spec_releases() matches Some(rs) && scan_version(rs@, name@)
                    == Some(p.0),
                Err(e) => match e {
                    UpdateError::NotFetched => self.spec_releases() is None,
                    UpdateError::Parse(_) => self.spec_releases() matches Some(rs)
                        && scan_releases(rs@, name@, None) is None,
                    UpdateError::NotFound(_) => self.spec_releases() matches Some(rs)
                        && scan_releases(rs@, name@, None) == Some(
                        None::<(Version, GitHubAsset)>,
                    ),
                    _ => false,
                },
            },
    {
        let releases = match &self.releases {
            Some(rs) => rs,
            None => {
                return Err(UpdateError::NotFetched);
            },
        };
        match latest_release(releases, name) {
            Ok((v, a)) => {
                proof {
                    assert(scan_releases(releases@, name@, None) == Some(Some((v, a))));
                }
                Ok((v, self.client.asset(&a)))
            },
            Err(e) => Err(e),
        }
    }
}

/// The newest release version carrying an asset with the given name,
/// with an equal copy of that asset: the result of the release scan.
pub fn latest_release(releases: &Vec<GitHubRelease>, name: &str) -> (r: Result<
    (Version, GitHubAsset),
    UpdateError,
>)
    ensures
        match r {
            Ok(p) => scan_releases(releases@, name@, None) == Some(Some(p)),
            Err(e) => match e {
                UpdateError::Parse(_) => scan_releases(releases@, name@, None) is None,
                UpdateError::NotFound(_) => scan_releases(releases@, name@, None) == Some(
                    None::<(Version, GitHubAsset)>,
                ),
                _ => false,
            },
        },
{
    let ghost all = releases@;
    let n = releases.len();
    let mut best: Option<(Version, usize, usize)> = None;
    let mut i: usize = 0;
    proof {
        assert(releases@.skip(0) =~= releases@);
    }
    while i < n
        invariant
            n == releases@.len(),
            i <= n,
            match best {
                Some(b) => b.1 < i && b.2 < releases@[b.1 as int].assets@.len(),
                None => true,
            },
            scan_releases(releases@, name@, None) == scan_releases(
                releases@.skip(i as int),
                name@,
                best_spec(releases@, best),
            ),
        decreases n - i,
    {
        let ghost rest = releases@.skip(i as int);
        proof {
            assert(rest[0] == releases@[i as int]);
            assert(rest.drop_first() =~= releases@.skip(i as int + 1));
        }
        let release = &releases[i];
        let v = match release.version() {
            Ok(v) => v,
            Err(e) => {
                return Err(e);
            },
        };
        let found = find_asset_exec(&release.assets, name);
        match found {
            Some(j) => {
                let improves = match &best {
                    Some(b) => b.0.lt(&v),
                    None => {
                        let zero = Version::new(0, 0, 0);
                        zero.lt(&v)
                    },
                };
                if improves {
                    best = Some((v, i, j));
                }
            },
            None => {},
        }
        i = i + 1;
    }
    proof {
        assert(releases@.skip(n as int) =~= Seq::<GitHubRelease>::empty());
    }
    match best {
        Some((v, bi, bj)) => {
            let asset = releases[bi].assets[bj].duplicate();
            Ok((v, asset))
        },
        None => Err(UpdateError::NotFound(String::from_str(name))),
    }
}

/// The concrete candidate the scan loop tracks, as the pair the scan
/// model speaks of: the version with the asset it indexes.
spec fn best_spec(rs: Seq<GitHubRelease>, best: Option<(Version, usize, usize)>) -> Option<
    (Version, GitHubAsset),
> {
    match best {
        Some(b) => Some((b.0, rs[b.1 as int].assets@[b.2 as int])),
        None => None,
    }
}

/// Finds the index of the first asset carrying the given name.
fn find_asset_exec(assets: &Vec<GitHubAsset>, name: &str) -> (r: Option<usize>)
    ensures
        match r {
            Some(j) => j < assets@.len() && find_asset(assets@, name@) == Some(
                assets@[j as int],
            ) && assets@[j as int].name@ == name@,
            None => find_asset(assets@, name@) is None,
        },
{
    let n = assets.len();
    let mut j: usize = 0;
    proof {
        assert(assets@.skip(0) =~= assets@);
    }
    while j < n
        invariant
            n == assets@.len(),
            j <= n,
            find_asset(assets@, name@) == find_asset(assets@.skip(j as int), name@),
        decreases n - j,
    {
        let ghost rest = assets@.skip(j as int);
        proof {
            assert(rest[0] == assets@[j as int]);
            assert(rest.drop_first() =~= assets@.skip(j as int + 1));
        }
        if str_eq(assets[j].name.as_str(), name) {
            return Some(j);
        }
        j = j + 1;
    }
    proof {
        assert(assets@.skip(n as int) =~= Seq::<GitHubAsset>::empty());
    }
    None
}

/// Whether two strings hold the same characters.
fn str_eq(a: &str, b: &str) -> (r: bool)
    ensures
        r == (a@ == b@),
{
    let sa = String::from_str(a);
    let sb = String::from_str(b);
    sa == sb
}


/// The order on versions is transitive.
proof fn lemma_le_trans(a: Version, b: Version, c: Version)
    requires
        a.spec_le(b),
        b.spec_le(c),
    ensures
        a.spec_le(c),
{
}

/// The order on versions is total: what is not strictly below is at
/// least as high.
proof fn lemma_le_total(a: Version, b: Version)
    requires
        !a.spec_lt(b),
    ensures
        b.spec_le(a),
{
}

/// What the release scan resolves, relative to its accumulator: the
/// result is the accumulator itself or taken from a scanned release, it
/// dominates the accumulator, and it dominates every asset-bearing
/// release it scanned.
proof fn lemma_scan_characterizes(
    rs: Seq<GitHubRelease>,
    name: Seq<char>,
    acc: Option<(Version, GitHubAsset)>,
    out: (Version, GitHubAsset),
)
    requires
        scan_releases(rs, name, acc) == Some(Some(out)),
    ensures
        acc == Some(out) || exists|i: int|
            0 <= i < rs.len() && #[trigger] tag_version(rs[i]) == Some(out.0) && find_asset(
                rs[i].assets@,
                name,
            ) == Some(out.1),
        forall|i: int|
            0 <= i < rs.len() && #[trigger] find_asset(rs[i].assets@, name) is Some ==> (
            tag_version(rs[i]) matches Some(v) && v.spec_le(out.0)),
        acc matches Some(q) ==> q.0.spec_le(out.0),
    decreases rs.len(),
{
    if rs.len() == 0 {
        assert(acc == Some(out));
    } else {
        let first = rs[0];
        let rest = rs.drop_first();
        match tag_version(first) {
            None => {
                assert(false);
            },
            Some(v) => {
                let acc2 = scan_step(acc, first, v, name);
                lemma_scan_characterizes(rest, name, acc2, out);
                let floor = match acc {
                    Some(p) => p.0,
                    None => Version { major: 0, minor: 0, patch: 0 },
                };

                // The result dominates the first release where it
                // carries the asset.
                if find_asset(first.assets@, name) is Some {
                    if floor.spec_lt(v) {
                        assert(acc2 matches Some(q) && q.0 == v);
                        assert(v.spec_le(out.0));
                    } else {
                        lemma_le_total(floor, v);
                        if acc is Some {
                            assert(floor.spec_le(out.0));
                        } else {
                            assert(floor == (Version { major: 0, minor: 0, patch: 0 }));
                            assert(floor.spec_le(out.0));
                        }
                        lemma_le_trans(v, floor, out.0);
                    }
                    assert(v.spec_le(out.0));
                }

                // The result dominates the remaining releases, shifted
                // back to indices of the whole listing.
                assert forall|i: int|
                    0 <= i < rs.len() && #[trigger] find_asset(rs[i].assets@, name) is Some
                    implies (tag_version(rs[i]) matches Some(w) && w.spec_le(out.0)) by {
                    if i > 0 {
                        assert(rest[i - 1] == rs[i]);
                        assert(find_asset(rest[i - 1].assets@, name) is Some);
                    }
                }

                // The result's origin: the accumulator, the first
                // release, or one of the remaining ones.
                if acc2 == Some(out) {
                    if acc2 == acc {
                    } else {
                        assert(find_asset(first.assets@, name) == Some(out.1) && v == out.0);
                        assert(tag_version(rs[0]) == Some(out.0) && find_asset(
                            rs[0].assets@,
                            name,
                        ) == Some(out.1));
                    }
                } else {
                    if !(acc == Some(out)) {
                        let j = choose|j: int|
                            0 <= j < rest.len() && #[trigger] tag_version(rest[j]) == Some(out.0)
                                && find_asset(rest[j].assets@, name) == Some(out.1);
                        assert(rest[j] == rs[j + 1]);
                        assert(tag_version(rs[j + 1]) == Some(out.0) && find_asset(
                            rs[j + 1].assets@,
                            name,
                        ) == Some(out.1));
                    }
                }

                // The result dominates the accumulator.
                match acc {
                    Some(q) => {
                        if acc2 != acc {
                            assert(floor.spec_lt(v));
                            assert(v.spec_le(out.0));
                            lemma_le_trans(q.0, v, out.0);
                        }
                    },
                    None => {},
                }
            },
        }
    }
}

/// The resolved release is real and newest: where the scan resolves a
/// version with an asset, some release in the listing carries exactly
/// them, and no asset-bearing release in the listing names a higher
/// version.
pub proof fn lemma_scan_resolves_latest(
    rs: Seq<GitHubRelease>,
    name: Seq<char>,
    out: (Version, GitHubAsset),
)
    requires
        scan_releases(rs, name, None) == Some(Some(out)),
    ensures
        exists|i: int|
            0 <= i < rs.len() && #[trigger] tag_version(rs[i]) == Some(out.0) && find_asset(
                rs[i].assets@,
                name,
            ) == Some(out.1),
        forall|i: int|
            0 <= i < rs.len() && #[trigger] find_asset(rs[i].assets@, name) is Some ==> (
            tag_version(rs[i]) matches Some(v) && v.spec_le(out.0)),
{
    lemma_scan_characterizes(rs, name, None, out);
}

} // verus!
