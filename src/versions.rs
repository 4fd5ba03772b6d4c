//! The version list of a location: entries kept by the preview flag, each
//! checked as a semantic version, sorted, and shaped into the response.
use vstd::prelude::*;
use crate::errors::AksError;
use crate::text::{chars_of, str_eq};

verus! {

/// The Kubernetes source repository.
pub const K8S_GITHUB_URL: &'static str = "https://github.com/kubernetes/kubernetes";

/// The Kubernetes home page.
pub const K8S_HOMEPAGE: &'static str = "https://kubernetes.io";

/// The first position at or after `from` that holds a dot, or the length of
/// `s` if there is none.
pub open spec fn next_dot(s: Seq<char>, from: int) -> int
    decreases s.len() - from,
{
    if from >= s.len() || from < 0 {
        s.len() as int
    } else if s[from] == '.' {
        from
    } else {
        next_dot(s, from + 1)
    }
}

/// The changelog link of a version `major.minor.patch...`: the changelog of
/// the minor line, anchored at the version with its dots left out. A version
/// with fewer than three dot-separated fields has none (the empty string).
pub open spec fn changelog_url_spec(v: Seq<char>) -> Seq<char> {
    let d0 = next_dot(v, 0);
    let d1 = next_dot(v, d0 + 1);
    let d2 = next_dot(v, d1 + 1);
    if d0 >= v.len() || d1 >= v.len() {
        Seq::empty()
    } else {
        let major = v.subrange(0, d0);
        let minor = v.subrange(d0 + 1, d1);
        let patch = v.subrange(d1 + 1, d2);
        K8S_GITHUB_URL@ + "/blob/master/CHANGELOG/CHANGELOG-"@ + major + "."@ + minor + ".md#v"@
            + major + minor + patch
    }
}

fn find_dot(s: &Vec<char>, from: usize) -> (r: usize)
    requires
        from <= s@.len(),
    ensures
        r as int == next_dot(s@, from as int),
        from <= r <= s@.len(),
{
    let n = s.len();
    let mut j = from;
    while j < n
        invariant
            n == s@.len(),
            from <= j <= n,
            next_dot(s@, j as int) == next_dot(s@, from as int),
        decreases n - j,
    {
        if s[j] == '.' {
            return j;
        }
        j = j + 1;
    }
    j
}

/// Links a version to its entry in the Kubernetes changelog.
pub fn generate_changelog_url(version: &str) -> (r: String)
    ensures
        r@ == changelog_url_spec(version@),
{
    let s = chars_of(version);
    let n = s.len();
    let d0 = find_dot(&s, 0);
    if d0 >= n {
        return String::new();
    }
    let d1 = find_dot(&s, d0 + 1);
    if d1 >= n {
        return String::new();
    }
    let d2 = find_dot(&s, d1 + 1);
    let major = version.substring_char(0, d0);
    let minor = version.substring_char(d0 + 1, d1);
    let patch = version.substring_char(d1 + 1, d2);
    let mut url = String::from_str(K8S_GITHUB_URL);
    url.append("/blob/master/CHANGELOG/CHANGELOG-");
    url.append(major);
    url.append(".");
    url.append(minor);
    url.append(".md#v");
    url.append(major);
    url.append(minor);
    url.append(patch);
    url
}

/// One release in the response.
pub struct RenovateRelease {
    pub version: String,
    pub is_stable: bool,
    pub changelog_url: String,
    pub source_url: String,
}

/// The response for a location: its releases, oldest first, and links.
pub struct RenovateResponse {
    pub releases: Vec<RenovateRelease>,
    pub source_url: String,
    pub changelog_url: String,
    pub homepage: String,
}

/// The plain response for a location: its versions, oldest first.
pub struct VersionsResponse {
    pub versions: Vec<String>,
}

/// The version and preview flag a release stands for.
pub open spec fn release_view(r: RenovateRelease) -> (Seq<char>, bool) {
    (r.version@, !r.is_stable)
}

/// The versions and preview flags of a list of releases.
pub open spec fn release_views(rs: Seq<RenovateRelease>) -> Seq<(Seq<char>, bool)> {
    rs.map_values(|r: RenovateRelease| release_view(r))
}

/// A release's links follow from its version.
pub open spec fn release_links_ok(r: RenovateRelease) -> bool {
    r.changelog_url@ == changelog_url_spec(r.version@) && r.source_url@ == K8S_GITHUB_URL@
}

/// The link to the changelog index.
pub open spec fn changelog_index_url() -> Seq<char> {
    K8S_GITHUB_URL@ + "/blob/master/CHANGELOG/README.md"@
}

/// Shapes a list of versions into the response, keeping its order.
pub fn renovate_response(sorted: &Vec<VersionEntry>) -> (r: RenovateResponse)
    ensures
        release_views(r.releases@) == entry_views(sorted@),
        forall|i: int| 0 <= i < r.releases@.len() ==> release_links_ok(#[trigger] r.releases@[i]),
        r.source_url@ == K8S_GITHUB_URL@,
        r.changelog_url@ == changelog_index_url(),
        r.homepage@ == K8S_HOMEPAGE@,
{
    let mut releases: Vec<RenovateRelease> = Vec::new();
    let n = sorted.len();
    let mut i: usize = 0;
    while i < n
        invariant
            n == sorted@.len(),
            i <= n,
            releases@.len() == i,
            forall|k: int| 0 <= k < i ==> #[trigger] release_view(releases@[k]) == sorted@[k]@,
            forall|k: int| 0 <= k < i ==> release_links_ok(#[trigger] releases@[k]),
        decreases n - i,
    {
        let e = &sorted[i];
        let release = RenovateRelease {
            version: e.version.clone(),
            is_stable: !e.is_preview,
            changelog_url: generate_changelog_url(e.version.as_str()),
            source_url: String::from_str(K8S_GITHUB_URL),
        };
        releases.push(release);
        i = i + 1;
    }
    proof {
        assert(release_views(releases@) =~= entry_views(sorted@));
    }
    let mut changelog_url = String::from_str(K8S_GITHUB_URL);
    changelog_url.append("/blob/master/CHANGELOG/README.md");
    RenovateResponse {
        releases,
        source_url: String::from_str(K8S_GITHUB_URL),
        changelog_url,
        homepage: String::from_str(K8S_HOMEPAGE),
    }
}

/// One version the upstream lists for a location.
pub struct VersionEntry {
    pub version: String,
    pub is_preview: bool,
}

impl View for VersionEntry {
    type V = (Seq<char>, bool);

    open spec fn view(&self) -> (Seq<char>, bool) {
        (self.version@, self.is_preview)
    }
}

/// The major, minor and patch numbers that semver's `Version::parse` reads
/// from a text, or `None` where it rejects the text.
pub uninterp spec fn semver_numbers(text: Seq<char>) -> Option<(u64, u64, u64)>;

#[verifier::external_type_specification]
#[verifier::external_body]
pub struct ExVersion(semver::Version);

/// Relies on semver's `Version::parse`: whether the text is a semantic
/// version, and its major, minor and patch fields.
#[verifier::external_body]
fn parse_semver(text: &str) -> (r: Option<(u64, u64, u64, semver::Version)>)
    ensures
        (r is Some) == (semver_numbers(text@) is Some),
        r matches Some(t) ==> semver_numbers(text@) == Some((t.0, t.1, t.2)),
{
    semver::Version::parse(text).ok().map(|v| (v.major, v.minor, v.patch, v))
}

/// Relies on semver's `Ord` for `Version`, which orders versions with equal
/// numbers by their pre-release and build parts. Nothing is assumed of it.
#[verifier::external_body]
fn semver_cmp(a: &semver::Version, b: &semver::Version) -> (r: core::cmp::Ordering) {
    a.cmp(b)
}

/// Lexicographic order on (major, minor, patch).
pub open spec fn numbers_le(a: (u64, u64, u64), b: (u64, u64, u64)) -> bool {
    a.0 < b.0 || (a.0 == b.0 && (a.1 < b.1 || (a.1 == b.1 && a.2 <= b.2)))
}

/// The views of a list of entries.
pub open spec fn entry_views(s: Seq<VersionEntry>) -> Seq<(Seq<char>, bool)> {
    s.map_values(|e: VersionEntry| e@)
}

/// The entries the preview flag keeps: all of them when previews are shown,
/// else only those that are not previews.
pub open spec fn kept_versions(entries: Seq<VersionEntry>, show_preview: bool) -> Seq<(Seq<char>, bool)> {
    entry_views(entries).filter(|v: (Seq<char>, bool)| show_preview || !v.1)
}

/// Whether every kept entry is a semantic version.
pub open spec fn all_parse(kept: Seq<(Seq<char>, bool)>) -> bool {
    forall|i: int| 0 <= i < kept.len() ==> (#[trigger] semver_numbers(kept[i].0)) is Some
}

/// Whether a list of texts is ordered by the numbers semver reads from them.
pub open spec fn sorted_by_numbers(vs: Seq<(Seq<char>, bool)>) -> bool {
    forall|i: int, j: int|
        0 <= i < j < vs.len() ==> numbers_le(
            #[trigger] semver_numbers(vs[i].0)->0,
            #[trigger] semver_numbers(vs[j].0)->0,
        )
}

/// A kept entry with what semver read from it.
struct Ranked {
    entry: VersionEntry,
    numbers: (u64, u64, u64),
    version: semver::Version,
}

spec fn ranked_views(rs: Seq<Ranked>) -> Seq<(Seq<char>, bool)> {
    rs.map_values(|r: Ranked| r.entry@)
}

spec fn ranked_ok(rs: Seq<Ranked>) -> bool {
    &&& forall|i: int| 0 <= i < rs.len() ==> semver_numbers(#[trigger] rs[i].entry.version@) == Some(rs[i].numbers)
    &&& forall|i: int, j: int| 0 <= i < j < rs.len() ==> numbers_le(#[trigger] rs[i].numbers, #[trigger] rs[j].numbers)
}

/// Where `numbers` goes in the sorted `rs`: after every entry with smaller or
/// equal numbers, except that among equal numbers semver's order decides.
fn insert_position(rs: &Vec<Ranked>, numbers: (u64, u64, u64), version: &semver::Version) -> (r: usize)
    requires
        ranked_ok(rs@),
    ensures
        r <= rs@.len(),
        forall|k: int| 0 <= k < r ==> numbers_le(#[trigger] rs@[k].numbers, numbers),
        forall|k: int| r <= k < rs@.len() ==> numbers_le(numbers, #[trigger] rs@[k].numbers),
{
    let n = rs.len();
    let mut j: usize = 0;
    while j < n
        invariant
            n == rs@.len(),
            j <= n,
            ranked_ok(rs@),
            forall|k: int| 0 <= k < j ==> numbers_le(#[trigger] rs@[k].numbers, numbers),
        decreases n - j,
    {
        let c = rs[j].numbers;
        let greater = if c.0 != numbers.0 {
            c.0 > numbers.0
        } else if c.1 != numbers.1 {
            c.1 > numbers.1
        } else if c.2 != numbers.2 {
            c.2 > numbers.2
        } else {
            match semver_cmp(&rs[j].version, version) {
                core::cmp::Ordering::Greater => true,
                _ => false,
            }
        };
        if greater {
            assert forall|k: int| j <= k < rs@.len() implies numbers_le(numbers, #[trigger] rs@[k].numbers) by {
                if k > j {
                    assert(numbers_le(rs@[j as int].numbers, rs@[k].numbers));
                }
            }
            return j;
        }
        j = j + 1;
    }
    j
}

/// The kept entries, each a semantic version, sorted by semver's order: by
/// major, minor and patch, and among equal numbers by semver's own order.
/// Previews are dropped unless `show_preview`. A kept entry that is not a
/// semantic version fails the whole list with `Parse`. Each version keeps the
/// text the upstream gave.
pub fn sorted_versions(entries: &Vec<VersionEntry>, show_preview: bool) -> (r: Result<Vec<VersionEntry>, AksError>)
    ensures
        (r is Ok) == all_parse(kept_versions(entries@, show_preview)),
        r matches Err(e) ==> e is Parse,
        r matches Ok(vs) ==> entry_views(vs@).to_multiset() == kept_versions(
            entries@,
            show_preview,
        ).to_multiset(),
        r matches Ok(vs) ==> sorted_by_numbers(entry_views(vs@)),
{
    let ghost pred = |v: (Seq<char>, bool)| show_preview || !v.1;
    let ghost views = entry_views(entries@);
    let mut rs: Vec<Ranked> = Vec::new();
    let n = entries.len();
    proof {
        assert(views.subrange(0, 0) =~= Seq::<(Seq<char>, bool)>::empty());
        reveal(Seq::filter);
        assert(views.subrange(0, 0).filter(pred) =~= Seq::<(Seq<char>, bool)>::empty());
        assert(ranked_views(rs@) =~= Seq::<(Seq<char>, bool)>::empty());
    }
    let mut i: usize = 0;
    while i < n
        invariant
            n == entries@.len(),
            i <= n,
            views == entry_views(entries@),
            pred == (|v: (Seq<char>, bool)| show_preview || !v.1),
            ranked_ok(rs@),
            all_parse(views.subrange(0, i as int).filter(pred)),
            ranked_views(rs@).to_multiset() == views.subrange(0, i as int).filter(pred).to_multiset(),
        decreases n - i,
    {
        let e = &entries[i];
        proof {
            reveal(Seq::filter);
            assert(views.subrange(0, i + 1).drop_last() =~= views.subrange(0, i as int));
            assert(views.subrange(0, i + 1).last() == views[i as int]);
            assert(views[i as int] == e@);
        }
        if show_preview || !e.is_preview {
            match parse_semver(e.version.as_str()) {
                None => {
                    proof {
                        reveal(Seq::filter);
                        assert(pred(views[i as int]));
                        let kept = kept_versions(entries@, show_preview);
                        assert(views =~= views.subrange(0, i + 1) + views.subrange(i + 1, n as int));
                        Seq::filter_distributes_over_add(views.subrange(0, i + 1), views.subrange(i + 1, n as int), pred);
                        let prev = views.subrange(0, i as int).filter(pred);
                        let pre = views.subrange(0, i + 1).filter(pred);
                        assert(pre == prev.push(views[i as int]));
                        assert(kept == pre + views.subrange(i + 1, n as int).filter(pred));
                        assert(kept[prev.len() as int] == views[i as int]);
                        assert(semver_numbers(kept[prev.len() as int].0) is None);
                    }
                    let mut msg = String::from_str("Failed to parse version '");
                    msg.append(e.version.as_str());
                    msg.append("'");
                    return Err(AksError::Parse(msg));
                },
                Some((major, minor, patch, version)) => {
                    let numbers = (major, minor, patch);
                    let pos = insert_position(&rs, numbers, &version);
                    let item = Ranked {
                        entry: VersionEntry { version: e.version.clone(), is_preview: e.is_preview },
                        numbers,
                        version,
                    };
                    let ghost old_rs = rs@;
                    rs.insert(pos, item);
                    proof {
                        reveal(Seq::filter);
                        assert(pred(views[i as int]));
                        let prev = views.subrange(0, i as int).filter(pred);
                        assert(views.subrange(0, i + 1).filter(pred) == prev.push(views[i as int]));
                        assert(semver_numbers(views[i as int].0) is Some);
                        assert(all_parse(prev.push(views[i as int])));
                        assert(ranked_views(rs@) =~= ranked_views(old_rs).insert(pos as int, views[i as int]));
                        vstd::seq_lib::to_multiset_insert(ranked_views(old_rs), pos as int, views[i as int]);
                        vstd::seq_lib::to_multiset_build(views.subrange(0, i as int).filter(pred), views[i as int]);
                        assert(forall|k: int| 0 <= k < rs@.len() ==> #[trigger] rs@[k] == (if k < pos {
                            old_rs[k]
                        } else if k == pos {
                            item
                        } else {
                            old_rs[k - 1]
                        }));
                        assert(ranked_ok(rs@));
                    }
                }
            }
        } else {
            proof {
                assert(views.subrange(0, i + 1).filter(pred) =~= views.subrange(0, i as int).filter(pred));
            }
        }
        i = i + 1;
    }
    proof {
        assert(views.subrange(0, n as int) =~= views);
    }
    let mut out: Vec<VersionEntry> = Vec::new();
    let m = rs.len();
    let mut k: usize = 0;
    while k < m
        invariant
            m == rs@.len(),
            k <= m,
            ranked_ok(rs@),
            entry_views(out@) == ranked_views(rs@).subrange(0, k as int),
            out@.len() == k,
        decreases m - k,
    {
        let r = &rs[k];
        let ghost old_out = out@;
        let copy = VersionEntry { version: r.entry.version.clone(), is_preview: r.entry.is_preview };
        assert(copy@ == rs@[k as int].entry@);
        out.push(copy);
        proof {
            assert(out@ == old_out.push(copy));
            assert(entry_views(old_out) == ranked_views(rs@).subrange(0, k as int));
            assert forall|x: int| 0 <= x < k + 1 implies #[trigger] entry_views(out@)[x]
                == ranked_views(rs@).subrange(0, k + 1)[x] by {
                if x < k {
                    assert(out@[x] == old_out[x]);
                    assert(entry_views(old_out)[x] == ranked_views(rs@).subrange(0, k as int)[x]);
                }
            }
            assert(entry_views(out@) =~= ranked_views(rs@).subrange(0, k + 1));
        }
        k = k + 1;
    }
    proof {
        assert(ranked_views(rs@).subrange(0, m as int) =~= ranked_views(rs@));
        let ov = entry_views(out@);
        assert forall|a: int, b: int| 0 <= a < b < ov.len() implies numbers_le(
            #[trigger] semver_numbers(ov[a].0)->0,
            #[trigger] semver_numbers(ov[b].0)->0,
        ) by {
            assert(semver_numbers(rs@[a].entry.version@) == Some(rs@[a].numbers));
            assert(semver_numbers(rs@[b].entry.version@) == Some(rs@[b].numbers));
            assert(numbers_le(rs@[a].numbers, rs@[b].numbers));
        }
    }
    Ok(out)
}

/// The response for a location from the versions the upstream listed: the
/// entries the preview flag keeps, sorted by semver's order, each with its
/// links. Fails with `Parse` exactly when a kept entry is not a semantic
/// version.
pub fn renovate_versions(entries: &Vec<VersionEntry>, show_preview: bool) -> (r: Result<RenovateResponse, AksError>)
    ensures
        (r is Ok) == all_parse(kept_versions(entries@, show_preview)),
        r matches Err(e) ==> e is Parse,
        r matches Ok(resp) ==> release_views(resp.releases@).to_multiset() == kept_versions(
            entries@,
            show_preview,
        ).to_multiset(),
        r matches Ok(resp) ==> sorted_by_numbers(release_views(resp.releases@)),
        r matches Ok(resp) ==> forall|i: int|
            0 <= i < resp.releases@.len() ==> release_links_ok(#[trigger] resp.releases@[i]),
        r matches Ok(resp) ==> resp.source_url@ == K8S_GITHUB_URL@ && resp.changelog_url@
            == changelog_index_url() && resp.homepage@ == K8S_HOMEPAGE@,
{
    let sorted = sorted_versions(entries, show_preview)?;
    Ok(renovate_response(&sorted))
}

/// The orchestrator type whose versions are listed.
pub const ORCHESTRATOR_TYPE_K8S: &'static str = "Kubernetes";

/// One orchestrator the upstream lists for a location.
pub struct OrchestratorItem {
    pub orchestrator_type: String,
    pub orchestrator_version: String,
    pub is_preview: bool,
}

/// The versions and preview flags of the Kubernetes orchestrators, in order.
pub open spec fn kubernetes_versions(items: Seq<OrchestratorItem>) -> Seq<(Seq<char>, bool)>
    decreases items.len(),
{
    if items.len() == 0 {
        Seq::empty()
    } else {
        let rest = kubernetes_versions(items.drop_last());
        let o = items.last();
        if o.orchestrator_type@ == ORCHESTRATOR_TYPE_K8S@ {
            rest.push((o.orchestrator_version@, o.is_preview))
        } else {
            rest
        }
    }
}

/// The Kubernetes orchestrators' versions, in order; other orchestrators are dropped.
pub fn kubernetes_entries(items: &Vec<OrchestratorItem>) -> (r: Vec<VersionEntry>)
    ensures
        entry_views(r@) == kubernetes_versions(items@),
{
    let mut r: Vec<VersionEntry> = Vec::new();
    let n = items.len();
    let mut i: usize = 0;
    while i < n
        invariant
            n == items@.len(),
            i <= n,
            entry_views(r@) == kubernetes_versions(items@.subrange(0, i as int)),
        decreases n - i,
    {
        let o = &items[i];
        proof {
            assert(items@.subrange(0, i + 1).drop_last() =~= items@.subrange(0, i as int));
            assert(items@.subrange(0, i + 1).last() == items@[i as int]);
        }
        if str_eq(o.orchestrator_type.as_str(), ORCHESTRATOR_TYPE_K8S) {
            let ghost old_r = r@;
            let e = VersionEntry { version: o.orchestrator_version.clone(), is_preview: o.is_preview };
            r.push(e);
            proof {
                assert(r@ == old_r.push(e));
                assert(entry_views(r@) =~= entry_views(old_r).push(e@));
            }
        }
        i = i + 1;
    }
    proof {
        assert(items@.subrange(0, n as int) =~= items@);
    }
    r
}

/// The plain list of versions for a location from the orchestrators the
/// upstream listed: the Kubernetes ones that the preview flag keeps, sorted
/// by semver's order. Fails with `Parse` exactly when a kept entry is not a
/// semantic version.
pub fn process_orchestrator_response(items: &Vec<OrchestratorItem>, show_preview: bool) -> (r: Result<VersionsResponse, AksError>)
    ensures
        (r is Ok) == all_parse(kubernetes_versions(items@).filter(|v: (Seq<char>, bool)| show_preview || !v.1)),
        r matches Err(e) ==> e is Parse,
        r matches Ok(resp) ==> exists|sorted: Seq<(Seq<char>, bool)>|
            #![trigger sorted_by_numbers(sorted)]
            sorted.to_multiset() == kubernetes_versions(items@).filter(|v: (Seq<char>, bool)| show_preview || !v.1).to_multiset()
            && sorted_by_numbers(sorted) && sorted.len() == resp.versions@.len()
            && forall|i: int| 0 <= i < sorted.len() ==> #[trigger] resp.versions@[i]@ == sorted[i].0,
{
    let entries = kubernetes_entries(items);
    let sorted = sorted_versions(&entries, show_preview)?;
    let mut versions: Vec<String> = Vec::new();
    let n = sorted.len();
    let mut i: usize = 0;
    while i < n
        invariant
            n == sorted@.len(),
            i <= n,
            versions@.len() == i,
            forall|k: int| 0 <= k < i ==> #[trigger] versions@[k]@ == sorted@[k].version@,
        decreases n - i,
    {
        versions.push(sorted[i].version.clone());
        i = i + 1;
    }
    proof {
        let sv = entry_views(sorted@);
        assert(forall|k: int| 0 <= k < sv.len() ==> #[trigger] versions@[k]@ == sv[k].0);
    }
    Ok(VersionsResponse { versions })
}

} // verus!
