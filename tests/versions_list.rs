use aksver::errors::AksError;
use aksver::versions::{
    generate_changelog_url, kubernetes_entries, process_orchestrator_response, renovate_versions,
    sorted_versions, OrchestratorItem, VersionEntry,
};

fn orchestrator(kind: &str, v: &str, preview: bool) -> OrchestratorItem {
    OrchestratorItem {
        orchestrator_type: kind.to_string(),
        orchestrator_version: v.to_string(),
        is_preview: preview,
    }
}

fn entry(v: &str, preview: bool) -> VersionEntry {
    VersionEntry { version: v.to_string(), is_preview: preview }
}

fn texts(vs: &[VersionEntry]) -> Vec<String> {
    vs.iter().map(|e| e.version.clone()).collect()
}

#[test]
fn eastus_versions_sorted_ascending() {
    let items = vec![
        orchestrator("Kubernetes", "1.28.5", false),
        orchestrator("Kubernetes", "1.26.6", false),
        orchestrator("Kubernetes", "1.27.3", false),
    ];
    let r = process_orchestrator_response(&items, false).unwrap();
    assert_eq!(r.versions, vec!["1.26.6", "1.27.3", "1.28.5"]);
    let entries = vec![entry("1.28.5", false), entry("1.26.6", false), entry("1.27.3", false)];
    let r = renovate_versions(&entries, false).unwrap();
    let got: Vec<String> = r.releases.iter().map(|x| x.version.clone()).collect();
    assert_eq!(got, vec!["1.26.6", "1.27.3", "1.28.5"]);
}

#[test]
fn only_kubernetes_orchestrators_listed() {
    let items = vec![
        orchestrator("DCOS", "1.11.0", false),
        orchestrator("Kubernetes", "1.29.1", false),
        orchestrator("Kubernetes", "1.30.0", true),
        orchestrator("Swarm", "not-a-version", false),
    ];
    assert_eq!(texts(&kubernetes_entries(&items)), vec!["1.29.1", "1.30.0"]);
    assert_eq!(process_orchestrator_response(&items, false).unwrap().versions, vec!["1.29.1"]);
    assert_eq!(process_orchestrator_response(&items, true).unwrap().versions, vec!["1.29.1", "1.30.0"]);
    let bad = vec![orchestrator("Kubernetes", "1.2", false)];
    assert!(matches!(process_orchestrator_response(&bad, false), Err(AksError::Parse(_))));
}

#[test]
fn numeric_not_lexical_order() {
    let entries = vec![entry("1.26.10", false), entry("1.26.6", false), entry("1.9.0", false)];
    let r = sorted_versions(&entries, false).unwrap();
    assert_eq!(texts(&r), vec!["1.9.0", "1.26.6", "1.26.10"]);
}

#[test]
fn prerelease_sorts_before_release() {
    let entries = vec![entry("1.30.0", false), entry("1.30.0-beta.1", false), entry("1.29.9", false)];
    let r = sorted_versions(&entries, false).unwrap();
    assert_eq!(texts(&r), vec!["1.29.9", "1.30.0-beta.1", "1.30.0"]);
}

#[test]
fn previews_dropped_unless_shown() {
    let entries = vec![entry("1.31.1", true), entry("1.30.2", false)];
    assert_eq!(texts(&sorted_versions(&entries, false).unwrap()), vec!["1.30.2"]);
    assert_eq!(texts(&sorted_versions(&entries, true).unwrap()), vec!["1.30.2", "1.31.1"]);
}

#[test]
fn unparseable_kept_version_fails_whole_list() {
    let entries = vec![entry("1.28.5", false), entry("1.28", false)];
    assert!(matches!(sorted_versions(&entries, false), Err(AksError::Parse(_))));
    // An unparseable preview entry that is filtered out does no harm.
    let entries = vec![entry("1.28.5", false), entry("bogus", true)];
    assert_eq!(texts(&sorted_versions(&entries, false).unwrap()), vec!["1.28.5"]);
}

#[test]
fn empty_list_is_empty_response() {
    let r = renovate_versions(&Vec::new(), false).unwrap();
    assert!(r.releases.is_empty());
    assert_eq!(r.homepage, "https://kubernetes.io");
}

#[test]
fn changelog_url_of_version() {
    assert_eq!(
        generate_changelog_url("1.28.5"),
        "https://github.com/kubernetes/kubernetes/blob/master/CHANGELOG/CHANGELOG-1.28.md#v1285"
    );
    assert_eq!(generate_changelog_url("1.28"), "");
    assert_eq!(generate_changelog_url(""), "");
    assert_eq!(
        generate_changelog_url("1.30.0.1"),
        "https://github.com/kubernetes/kubernetes/blob/master/CHANGELOG/CHANGELOG-1.30.md#v1300"
    );
}

#[test]
fn renovate_response_shapes_releases() {
    let entries = vec![entry("1.29.2", true), entry("1.28.5", false)];
    let r = renovate_versions(&entries, true).unwrap();
    assert_eq!(r.releases.len(), 2);
    assert_eq!(r.releases[0].version, "1.28.5");
    assert!(r.releases[0].is_stable);
    assert_eq!(r.releases[1].version, "1.29.2");
    assert!(!r.releases[1].is_stable);
    assert_eq!(r.releases[1].source_url, "https://github.com/kubernetes/kubernetes");
    assert_eq!(
        r.releases[1].changelog_url,
        "https://github.com/kubernetes/kubernetes/blob/master/CHANGELOG/CHANGELOG-1.29.md#v1292"
    );
    assert_eq!(
        r.changelog_url,
        "https://github.com/kubernetes/kubernetes/blob/master/CHANGELOG/README.md"
    );
}
