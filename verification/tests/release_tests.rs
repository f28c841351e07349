use anime_relay::envelope::CorsResponse;
use anime_relay::release::Asset;
use anime_relay::release::Release;
use anime_relay::release::ReleasesDecision;
use anime_relay::release::ReleasesFetchOutcome;
use anime_relay::release::AssetFetchOutcome;
use anime_relay::release::resolve_releases_outcome;
use anime_relay::release::resolve_asset_outcome;

fn asset(name: &str, url: &str) -> Asset {
    Asset { name: name.to_string(), download_url: url.to_string() }
}

fn release(draft: bool, prerelease: bool, published_at: i64, assets: Vec<Asset>) -> Release {
    Release { draft, prerelease, published_at, assets }
}

fn with_latest(draft: bool, prerelease: bool, published_at: i64, url: &str) -> Release {
    release(draft, prerelease, published_at, vec![asset("latest.json", url)])
}

fn expect_plain(d: ReleasesDecision, status: u16, message: &str) {
    match d {
        ReleasesDecision::Respond { response: CorsResponse::PlainText { status: s, message: m } } => {
            assert_eq!(s, status);
            assert_eq!(m, message);
        }
        _ => panic!("expected a plain-text response"),
    }
}

fn expect_fetch(d: ReleasesDecision, url: &str) {
    match d {
        ReleasesDecision::FetchAsset { url: u } => assert_eq!(u, url),
        _ => panic!("expected a fetch decision"),
    }
}

#[test]
fn only_drafts_returns_not_found() {
    let releases = vec![
        with_latest(true, false, 100, "a"),
        with_latest(true, true, 200, "b"),
    ];
    let d = resolve_releases_outcome(ReleasesFetchOutcome::Parsed { releases }, None);
    expect_plain(d, 404, "No releases found");
}

#[test]
fn empty_list_returns_not_found() {
    let d = resolve_releases_outcome(ReleasesFetchOutcome::Parsed { releases: vec![] }, None);
    expect_plain(d, 404, "No releases found");
}

#[test]
fn default_channel_selects_stable_release() {
    let releases = vec![
        with_latest(false, false, 100, "stable-url"),
        with_latest(false, true, 200, "preview-url"),
    ];
    let d = resolve_releases_outcome(ReleasesFetchOutcome::Parsed { releases }, None);
    expect_fetch(d, "stable-url");
}

#[test]
fn empty_channel_behaves_like_default() {
    let releases = vec![
        with_latest(false, false, 100, "stable-url"),
        with_latest(false, true, 200, "preview-url"),
    ];
    let d = resolve_releases_outcome(ReleasesFetchOutcome::Parsed { releases }, Some(""));
    expect_fetch(d, "stable-url");
}

#[test]
fn unrecognized_channel_behaves_like_default() {
    let releases = vec![
        with_latest(false, false, 100, "stable-url"),
        with_latest(false, true, 200, "preview-url"),
    ];
    let d = resolve_releases_outcome(ReleasesFetchOutcome::Parsed { releases }, Some("beta"));
    expect_fetch(d, "stable-url");
}

#[test]
fn pre_channel_selects_newer_prerelease() {
    let releases = vec![
        with_latest(false, false, 100, "stable-url"),
        with_latest(false, true, 200, "preview-url"),
    ];
    let d = resolve_releases_outcome(ReleasesFetchOutcome::Parsed { releases }, Some("pre"));
    expect_fetch(d, "preview-url");
}

#[test]
fn newest_timestamp_wins() {
    // 2021-01-01, 2023-06-01, 2022-03-01 as Unix timestamps.
    let releases = vec![
        with_latest(false, false, 1609459200, "oldest"),
        with_latest(false, false, 1685577600, "newest"),
        with_latest(false, false, 1646092800, "middle"),
    ];
    let d = resolve_releases_outcome(ReleasesFetchOutcome::Parsed { releases }, None);
    expect_fetch(d, "newest");
}

#[test]
fn equal_timestamps_keep_first_listed() {
    let releases = vec![
        with_latest(false, false, 100, "first"),
        with_latest(false, false, 100, "second"),
    ];
    let d = resolve_releases_outcome(ReleasesFetchOutcome::Parsed { releases }, None);
    expect_fetch(d, "first");
}

#[test]
fn newest_draft_is_skipped() {
    let releases = vec![
        with_latest(true, false, 300, "draft-url"),
        with_latest(false, false, 200, "stable-url"),
    ];
    let d = resolve_releases_outcome(ReleasesFetchOutcome::Parsed { releases }, None);
    expect_fetch(d, "stable-url");
}

#[test]
fn missing_latest_json_returns_not_found() {
    let releases = vec![release(
        false,
        false,
        100,
        vec![asset("other.json", "x"), asset("LATEST.JSON", "y"), asset("latest.json.sig", "z")],
    )];
    let d = resolve_releases_outcome(ReleasesFetchOutcome::Parsed { releases }, None);
    expect_plain(d, 404, "latest.json not found");
}

#[test]
fn release_without_assets_returns_not_found() {
    let releases = vec![release(false, false, 100, vec![])];
    let d = resolve_releases_outcome(ReleasesFetchOutcome::Parsed { releases }, None);
    expect_plain(d, 404, "latest.json not found");
}

#[test]
fn first_matching_asset_wins() {
    let releases = vec![release(
        false,
        false,
        100,
        vec![asset("notes.txt", "n"), asset("latest.json", "first"), asset("latest.json", "second")],
    )];
    let d = resolve_releases_outcome(ReleasesFetchOutcome::Parsed { releases }, None);
    expect_fetch(d, "first");
}

#[test]
fn unreachable_releases_api_returns_500() {
    let d = resolve_releases_outcome(ReleasesFetchOutcome::Unreachable, None);
    expect_plain(d, 500, "Error fetching releases");
}

#[test]
fn parse_failure_embeds_details() {
    let outcome = ReleasesFetchOutcome::ParseFailed { details: "boom at line 3".to_string() };
    let d = resolve_releases_outcome(outcome, None);
    expect_plain(d, 500, "Error parsing releases boom at line 3");
}

#[test]
fn unreachable_asset_returns_500() {
    let r = resolve_asset_outcome(AssetFetchOutcome::Unreachable);
    match r {
        CorsResponse::PlainText { status, message } => {
            assert_eq!(status, 500);
            assert_eq!(message, "Error fetching latest.json");
        }
        _ => panic!("expected a plain-text response"),
    }
}

#[test]
fn unreadable_asset_returns_500() {
    let r = resolve_asset_outcome(AssetFetchOutcome::ReadFailed);
    match r {
        CorsResponse::PlainText { status, message } => {
            assert_eq!(status, 500);
            assert_eq!(message, "Error reading latest.json");
        }
        _ => panic!("expected a plain-text response"),
    }
}

#[test]
fn fetched_asset_body_is_forwarded_verbatim() {
    let text = "not even { valid json";
    let r = resolve_asset_outcome(AssetFetchOutcome::Fetched { body: text.to_string() });
    match r {
        CorsResponse::Json { status, body } => {
            assert_eq!(status, 200);
            assert_eq!(body, text);
        }
        _ => panic!("expected a json response"),
    }
}
