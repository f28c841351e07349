//! Release-selection policy: drop drafts, drop pre-releases unless the
//! channel is "pre", pick the newest by publication timestamp (first in
//! list order on a tie), then look up the `latest.json` asset.
//!
//! The two outbound fetches happen outside the library; their outcomes are
//! handed in as plain values and every decision between them is made here.

use crate::envelope::CorsResponse;
use crate::envelope::spec_plain;
use crate::text::str_eq;
use vstd::prelude::*;
use vstd::string::StringExecFns;

verus! {

/// A named downloadable file attached to a release.
pub struct Asset {
    pub name: String,
    pub download_url: String,
}

/// One published version record, as handed in by the caller after
/// deserializing the upstream list. The timestamp is any integer whose
/// order agrees with the upstream publication times.
pub struct Release {
    pub draft: bool,
    pub prerelease: bool,
    pub published_at: i64,
    pub assets: Vec<Asset>,
}

/// The asset name the resolver looks for.
pub open spec fn latest_json_name() -> Seq<char> {
    "latest.json"@
}

/// Only the literal channel value "pre" retains pre-releases; absence and
/// every other value behave like the default channel.
pub open spec fn channel_is_pre(channel: Option<&str>) -> bool {
    match channel {
        Some(c) => c@ == "pre"@,
        None => false,
    }
}

/// A release survives filtering: never a draft, and a pre-release only on
/// the "pre" channel.
pub open spec fn spec_kept(r: Release, pre: bool) -> bool {
    !r.draft && (pre || !r.prerelease)
}

/// The index the selection policy picks from `rs`, if any: scanning in list
/// order, keep the first surviving release seen and replace it only by a
/// strictly newer one. This is the first element of maximal timestamp among
/// the survivors, exactly what a stable descending sort followed by taking
/// the head yields.
pub open spec fn spec_best(rs: Seq<Release>, pre: bool) -> Option<int>
    decreases rs.len(),
{
    if rs.len() == 0 {
        None
    } else {
        let i = rs.len() - 1;
        let prev = spec_best(rs.drop_last(), pre);
        if !spec_kept(rs[i], pre) {
            prev
        } else {
            match prev {
                None => Some(i),
                Some(b) => if rs[i].published_at > rs[b].published_at {
                    Some(i)
                } else {
                    Some(b)
                },
            }
        }
    }
}

/// `i` is the selected index: a survivor, no survivor is newer, and every
/// earlier survivor is strictly older.
pub open spec fn spec_selected(rs: Seq<Release>, pre: bool, i: int) -> bool {
    &&& 0 <= i < rs.len()
    &&& spec_kept(rs[i], pre)
    &&& forall|j: int|
        0 <= j < rs.len() && spec_kept(rs[j], pre) ==> rs[j].published_at <= rs[i].published_at
    &&& forall|j: int|
        0 <= j < i && spec_kept(rs[j], pre) ==> rs[j].published_at < rs[i].published_at
}

/// The selection policy always returns either no index, when nothing
/// survives filtering, or the unique index satisfying [`spec_selected`]:
/// a survivor of maximal timestamp, the earliest such on a tie.
pub proof fn lemma_spec_best_selected(rs: Seq<Release>, pre: bool)
    ensures
        match spec_best(rs, pre) {
            None => forall|j: int| 0 <= j < rs.len() ==> !spec_kept(rs[j], pre),
            Some(i) => spec_selected(rs, pre, i),
        },
    decreases rs.len(),
{
    if rs.len() > 0 {
        let i = rs.len() - 1;
        lemma_spec_best_selected(rs.drop_last(), pre);
        assert(rs.drop_last().len() == rs.len() - 1);
        assert(forall|j: int| 0 <= j < rs.len() - 1 ==> rs.drop_last()[j] == rs[j]);
    }
}

/// No two indices can both be selected: strict order among earlier
/// survivors rules a second one out.
pub proof fn lemma_selected_unique(rs: Seq<Release>, pre: bool, i: int, j: int)
    requires
        spec_selected(rs, pre, i),
        spec_selected(rs, pre, j),
    ensures
        i == j,
{
}

/// Scan of the asset list from position `k` for the first `latest.json`.
pub open spec fn spec_find_from(assets: Seq<Asset>, k: int) -> Option<int>
    decreases assets.len() - k,
{
    if k < 0 || k >= assets.len() {
        None
    } else if assets[k].name@ == latest_json_name() {
        Some(k)
    } else {
        spec_find_from(assets, k + 1)
    }
}

/// The index of the first asset named `latest.json`, if any.
pub open spec fn spec_find_latest_json(assets: Seq<Asset>) -> Option<int> {
    spec_find_from(assets, 0)
}

/// A list whose tail from `k` holds no `latest.json` yields nothing.
pub proof fn lemma_find_from_none(assets: Seq<Asset>, k: int)
    requires
        0 <= k <= assets.len(),
        forall|j: int| k <= j < assets.len() ==> assets[j].name@ != latest_json_name(),
    ensures
        spec_find_from(assets, k) is None,
    decreases assets.len() - k,
{
    if k < assets.len() {
        lemma_find_from_none(assets, k + 1);
    }
}

/// Pick the release the policy selects, returning its index.
pub fn select_release(releases: &Vec<Release>, pre: bool) -> (r: Option<usize>)
    ensures
        match spec_best(releases@, pre) {
            Some(bi) => r matches Some(i) && i == bi && 0 <= bi < releases@.len(),
            None => r is None,
        },
{
    let mut best: Option<usize> = None;
    let mut k: usize = 0;
    proof {
        assert(releases@.take(0) =~= Seq::<Release>::empty());
    }
    while k < releases.len()
        invariant
            0 <= k <= releases@.len(),
            match spec_best(releases@.take(k as int), pre) {
                Some(bi) => best matches Some(i) && i == bi && 0 <= bi < k,
                None => best is None,
            },
        decreases releases@.len() - k,
    {
        let ghost prefix = releases@.take(k as int);
        let r = &releases[k];
        let keep = !r.draft && (pre || !r.prerelease);
        if keep {
            match best {
                None => {
                    best = Some(k);
                },
                Some(b) => {
                    if releases[k].published_at > releases[b].published_at {
                        best = Some(k);
                    }
                },
            }
        }
        k += 1;
        proof {
            let next = releases@.take(k as int);
            assert(next.drop_last() =~= prefix);
            assert(next[k - 1] == releases@[k - 1]);
        }
    }
    proof {
        assert(releases@.take(releases@.len() as int) =~= releases@);
    }
    best
}

/// Find the first asset named exactly `latest.json`, returning its index.
pub fn find_latest_json(assets: &Vec<Asset>) -> (r: Option<usize>)
    ensures
        match spec_find_latest_json(assets@) {
            Some(fj) => r matches Some(j) && j == fj && 0 <= fj < assets@.len(),
            None => r is None,
        },
{
    let mut k: usize = 0;
    while k < assets.len()
        invariant
            0 <= k <= assets@.len(),
            spec_find_from(assets@, 0) == spec_find_from(assets@, k as int),
            forall|j: int| 0 <= j < k ==> assets@[j].name@ != latest_json_name(),
        decreases assets@.len() - k,
    {
        if str_eq(assets[k].name.as_str(), "latest.json") {
            return Some(k);
        }
        k += 1;
    }
    None
}

/// The outcome of the outbound fetch of the releases list, as the caller
/// observed it: the upstream was unreachable, its body did not parse (with
/// the parser's diagnostic text), or it parsed into a list of releases.
pub enum ReleasesFetchOutcome {
    Unreachable,
    ParseFailed { details: String },
    Parsed { releases: Vec<Release> },
}

/// What the resolver decides after the first fetch: either fetch the named
/// asset at this URL next, or answer immediately.
pub enum ReleasesDecision {
    FetchAsset { url: String },
    Respond { response: CorsResponse },
}

/// The resolver's decision after the releases fetch, pinned for every
/// outcome: each failure maps to its one status and message, and a parsed
/// list leads to the selected release's `latest.json` URL or to the
/// matching not-found response.
pub open spec fn spec_releases_decision(
    outcome: ReleasesFetchOutcome,
    channel: Option<&str>,
    r: ReleasesDecision,
) -> bool {
    match outcome {
        ReleasesFetchOutcome::Unreachable => {
            &&& r matches ReleasesDecision::Respond { response }
            &&& spec_plain(response, 500, "Error fetching releases"@)
        },
        ReleasesFetchOutcome::ParseFailed { details } => {
            &&& r matches ReleasesDecision::Respond { response }
            &&& spec_plain(response, 500, "Error parsing releases "@ + details@)
        },
        ReleasesFetchOutcome::Parsed { releases } => {
            let pre = channel_is_pre(channel);
            match spec_best(releases@, pre) {
                None => {
                    &&& r matches ReleasesDecision::Respond { response }
                    &&& spec_plain(response, 404, "No releases found"@)
                },
                Some(i) => match spec_find_latest_json(releases@[i].assets@) {
                    None => {
                        &&& r matches ReleasesDecision::Respond { response }
                        &&& spec_plain(response, 404, "latest.json not found"@)
                    },
                    Some(j) => {
                        &&& r matches ReleasesDecision::FetchAsset { url }
                        &&& url@ == releases@[i].assets@[j].download_url@
                    },
                },
            }
        },
    }
}

/// Decide what follows the releases fetch: filter, select, and look up the
/// asset, or report the failure, exactly as [`spec_releases_decision`] says.
pub fn resolve_releases_outcome(outcome: ReleasesFetchOutcome, channel: Option<&str>) -> (r:
    ReleasesDecision)
    ensures
        spec_releases_decision(outcome, channel, r),
{
    match outcome {
        ReleasesFetchOutcome::Unreachable => ReleasesDecision::Respond {
            response: CorsResponse::PlainText {
                status: 500,
                message: String::from_str("Error fetching releases"),
            },
        },
        ReleasesFetchOutcome::ParseFailed { details } => {
            let mut message = String::from_str("Error parsing releases ");
            message.append(details.as_str());
            ReleasesDecision::Respond {
                response: CorsResponse::PlainText { status: 500, message },
            }
        },
        ReleasesFetchOutcome::Parsed { releases } => {
            let pre = match channel {
                Some(c) => str_eq(c, "pre"),
                None => false,
            };
            match select_release(&releases, pre) {
                None => ReleasesDecision::Respond {
                    response: CorsResponse::PlainText {
                        status: 404,
                        message: String::from_str("No releases found"),
                    },
                },
                Some(i) => match find_latest_json(&releases[i].assets) {
                    None => ReleasesDecision::Respond {
                        response: CorsResponse::PlainText {
                            status: 404,
                            message: String::from_str("latest.json not found"),
                        },
                    },
                    Some(j) => ReleasesDecision::FetchAsset {
                        url: releases[i].assets[j].download_url.clone(),
                    },
                },
            }
        },
    }
}

/// The outcome of the outbound fetch of the selected `latest.json` asset:
/// unreachable, body unreadable, or its raw text.
pub enum AssetFetchOutcome {
    Unreachable,
    ReadFailed,
    Fetched { body: String },
}

/// The final response for each asset-fetch outcome: the fetched text is
/// forwarded verbatim as the JSON body, failures map to their one status
/// and message.
pub open spec fn spec_asset_response(outcome: AssetFetchOutcome, r: CorsResponse) -> bool {
    match outcome {
        AssetFetchOutcome::Unreachable => spec_plain(r, 500, "Error fetching latest.json"@),
        AssetFetchOutcome::ReadFailed => spec_plain(r, 500, "Error reading latest.json"@),
        AssetFetchOutcome::Fetched { body } => {
            &&& r matches CorsResponse::Json { status, body: b }
            &&& status == 200
            &&& b@ == body@
        },
    }
}

/// Turn the asset-fetch outcome into the final response, exactly as
/// [`spec_asset_response`] says. The fetched text is not re-parsed.
pub fn resolve_asset_outcome(outcome: AssetFetchOutcome) -> (r: CorsResponse)
    ensures
        spec_asset_response(outcome, r),
{
    match outcome {
        AssetFetchOutcome::Unreachable => CorsResponse::PlainText {
            status: 500,
            message: String::from_str("Error fetching latest.json"),
        },
        AssetFetchOutcome::ReadFailed => CorsResponse::PlainText {
            status: 500,
            message: String::from_str("Error reading latest.json"),
        },
        AssetFetchOutcome::Fetched { body } => CorsResponse::Json { status: 200, body },
    }
}

/// A release list containing only drafts resolves to the 404
/// "No releases found" response, on every channel.
pub proof fn lemma_only_drafts_not_found(
    releases: Vec<Release>,
    channel: Option<&str>,
    r: ReleasesDecision,
)
    requires
        forall|j: int| 0 <= j < releases@.len() ==> releases@[j].draft,
        spec_releases_decision(ReleasesFetchOutcome::Parsed { releases }, channel, r),
    ensures
        r matches ReleasesDecision::Respond { response } && spec_plain(
            response,
            404,
            "No releases found"@,
        ),
{
    let rs = releases@;
    let pre = channel_is_pre(channel);
    lemma_spec_best_selected(rs, pre);
    match spec_best(rs, pre) {
        Some(i) => {
            assert(spec_kept(rs[i], pre));
            assert(false);
        },
        None => {},
    }
}

/// With one stable release and one strictly newer pre-release, both
/// non-draft and in either list order, the default channel selects the
/// stable one and the "pre" channel selects the newer pre-release.
pub proof fn lemma_channel_selection(stable: Release, preview: Release)
    requires
        !stable.draft,
        !stable.prerelease,
        !preview.draft,
        preview.prerelease,
        preview.published_at > stable.published_at,
    ensures
        spec_best(seq![stable, preview], false) == Some(0int),
        spec_best(seq![stable, preview], true) == Some(1int),
        spec_best(seq![preview, stable], false) == Some(1int),
        spec_best(seq![preview, stable], true) == Some(0int),
{
    let e = Seq::<Release>::empty();
    assert(seq![stable].drop_last() =~= e);
    assert(seq![preview].drop_last() =~= e);
    assert(seq![stable, preview].drop_last() =~= seq![stable]);
    assert(seq![preview, stable].drop_last() =~= seq![preview]);
    assert(spec_best(e, false) == None::<int>);
    assert(spec_best(e, true) == None::<int>);
    assert(spec_best(seq![stable], false) == Some(0int));
    assert(spec_best(seq![stable], true) == Some(0int));
    assert(spec_best(seq![preview], false) == None::<int>);
    assert(spec_best(seq![preview], true) == Some(0int));
}

/// When the selected release's assets hold no entry named `latest.json`,
/// the resolver answers 404 "latest.json not found", whatever other asset
/// names are present.
pub proof fn lemma_missing_asset_not_found(
    releases: Vec<Release>,
    channel: Option<&str>,
    i: int,
    r: ReleasesDecision,
)
    requires
        spec_best(releases@, channel_is_pre(channel)) == Some(i),
        forall|j: int|
            0 <= j < releases@[i].assets@.len() ==> releases@[i].assets@[j].name@
                != latest_json_name(),
        spec_releases_decision(ReleasesFetchOutcome::Parsed { releases }, channel, r),
    ensures
        r matches ReleasesDecision::Respond { response } && spec_plain(
            response,
            404,
            "latest.json not found"@,
        ),
{
    lemma_spec_best_selected(releases@, channel_is_pre(channel));
    lemma_find_from_none(releases@[i].assets@, 0);
}

} // verus!
