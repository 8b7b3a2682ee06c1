use cvmodtool::provider::github::{
    latest_release, GitHubAsset, GitHubError, GitHubProvider, GitHubRelease, GitHubResponse,
    ReleasesClient,
};
use cvmodtool::provider::{Asset, DownloadResult, Provider};
use cvmodtool::{Progress, UpdateError, Version};

fn asset(name: &str, size: u64, url: &str) -> GitHubAsset {
    GitHubAsset::new(name.to_string(), size, url.to_string())
}

fn release(tag: &str, assets: Vec<GitHubAsset>) -> GitHubRelease {
    GitHubRelease::new("a release".to_string(), tag.to_string(), false, assets)
}

#[test]
fn latest_picks_the_highest_version_with_the_asset() {
    let releases = vec![
        release("v1.0.0", vec![asset("tool.exe", 10, "u1")]),
        release("v2.1.0", vec![asset("tool.exe", 20, "u2")]),
        release("v1.5.0", vec![asset("tool.exe", 15, "u3")]),
    ];
    let (version, found) = latest_release(&releases, "tool.exe").unwrap();
    assert_eq!(version, Version::new(2, 1, 0));
    assert_eq!(found.size(), 20);
    assert_eq!(found.url(), "u2");
}

#[test]
fn latest_ignores_releases_without_the_asset() {
    let releases = vec![
        release("v9.0.0", vec![asset("other.zip", 1, "u1")]),
        release("v1.0.0", vec![asset("tool.exe", 10, "u2")]),
    ];
    let (version, _) = latest_release(&releases, "tool.exe").unwrap();
    assert_eq!(version, Version::new(1, 0, 0));
}

#[test]
fn latest_keeps_the_first_of_duplicate_tags() {
    let releases = vec![
        release("v1.0.0", vec![asset("tool.exe", 1, "first")]),
        release("v1.0.0", vec![asset("tool.exe", 2, "second")]),
    ];
    let (version, found) = latest_release(&releases, "tool.exe").unwrap();
    assert_eq!(version, Version::new(1, 0, 0));
    assert_eq!(found.url(), "first");
}

#[test]
fn latest_fails_when_no_release_carries_the_asset() {
    let releases = vec![release("v1.0.0", vec![asset("other.zip", 1, "u")])];
    assert!(matches!(
        latest_release(&releases, "tool.exe"),
        Err(UpdateError::NotFound(_))
    ));
    let empty: Vec<GitHubRelease> = vec![];
    assert!(matches!(
        latest_release(&empty, "tool.exe"),
        Err(UpdateError::NotFound(_))
    ));
}

#[test]
fn latest_fails_on_a_malformed_tag() {
    let releases = vec![
        release("nightly", vec![asset("tool.exe", 1, "u")]),
        release("v1.0.0", vec![asset("tool.exe", 1, "u")]),
    ];
    assert!(matches!(
        latest_release(&releases, "tool.exe"),
        Err(UpdateError::Parse(_))
    ));
}

#[test]
fn a_release_with_a_zero_tag_is_never_selected() {
    let releases = vec![release("v0.0.0", vec![asset("tool.exe", 1, "u")])];
    assert!(matches!(
        latest_release(&releases, "tool.exe"),
        Err(UpdateError::NotFound(_))
    ));
}

struct FakeHandle(GitHubAsset);

impl Asset for FakeHandle {
    fn name(&self) -> &str {
        self.0.name()
    }
    fn size(&self) -> u64 {
        self.0.size()
    }
    fn url(&self) -> &str {
        self.0.url()
    }
    fn download(&self, _progress: &mut Progress) -> DownloadResult {
        DownloadResult::Error(UpdateError::Other("no transport in this test".to_string()))
    }
}

struct FakeClient {
    releases: Vec<(String, Vec<(String, u64)>)>,
    seen_urls: std::rc::Rc<std::cell::RefCell<Vec<String>>>,
}

impl ReleasesClient for FakeClient {
    type A = FakeHandle;

    fn list(&mut self, url: &str) -> Result<Vec<GitHubRelease>, UpdateError> {
        self.seen_urls.borrow_mut().push(url.to_string());
        Ok(self
            .releases
            .iter()
            .map(|(tag, assets)| {
                release(
                    tag,
                    assets
                        .iter()
                        .map(|(name, size)| asset(name, *size, "url"))
                        .collect(),
                )
            })
            .collect())
    }

    fn asset(&self, info: &GitHubAsset) -> FakeHandle {
        FakeHandle(GitHubAsset::new(
            info.name().to_string(),
            info.size(),
            info.url().to_string(),
        ))
    }
}

#[test]
fn provider_requires_fetch_before_latest() {
    let client = FakeClient {
        releases: vec![("v1.0.0".to_string(), vec![("tool.exe".to_string(), 5)])],
        seen_urls: std::rc::Rc::new(std::cell::RefCell::new(Vec::new())),
    };
    let provider = GitHubProvider::new("user/repo", client);
    assert!(matches!(
        provider.latest("tool.exe"),
        Err(UpdateError::NotFetched)
    ));
}

#[test]
fn provider_resolves_after_fetch_and_builds_the_releases_url() {
    let seen = std::rc::Rc::new(std::cell::RefCell::new(Vec::new()));
    let client = FakeClient {
        releases: vec![
            ("v1.0.0".to_string(), vec![("tool.exe".to_string(), 5)]),
            ("v3.0.0".to_string(), vec![("tool.exe".to_string(), 9)]),
        ],
        seen_urls: seen.clone(),
    };
    let mut provider = GitHubProvider::new("user/repo", client);
    assert_eq!(provider.name(), "GitHub");
    provider.fetch().unwrap();
    let (version, handle) = provider.latest("tool.exe").unwrap();
    assert_eq!(version, Version::new(3, 0, 0));
    assert_eq!(handle.size(), 9);
    assert_eq!(
        seen.borrow().as_slice(),
        ["https://api.github.com/repos/user/repo/releases".to_string()]
    );
}

#[test]
fn a_response_classifies_into_releases_or_the_api_error() {
    let listing = GitHubResponse::Release(vec![release("v1.0.0", vec![])]);
    let releases = listing.into_releases().unwrap();
    assert_eq!(releases.len(), 1);

    let refusal = GitHubResponse::Error(GitHubError {
        message: "rate limited".to_string(),
    });
    match refusal.into_releases() {
        Err(UpdateError::Api(message)) => assert_eq!(message, "rate limited"),
        _ => panic!("expected the API error, message surfaced verbatim"),
    }
}
