use huber::error::EngineError;
use huber::package::{Package, PackageIndex, PackageSource, PackageSummary};
use huber::search::{summarize, SearchCmd, SearchRequest, CMD_NAME};
use huber::store::{hits, keeps, PackageStore};

fn package(name: &str, version: Option<&str>, description: Option<&str>, owner: &str) -> Package {
    Package {
        name: name.to_string(),
        version: version.map(|v| v.to_string()),
        description: description.map(|d| d.to_string()),
        source: PackageSource::Github { owner: owner.to_string(), repo: name.to_string() },
        targets: Vec::new(),
        detail: None,
    }
}

fn helm_package(name: &str, registry: &str) -> Package {
    Package {
        name: name.to_string(),
        version: None,
        description: None,
        source: PackageSource::Helm { registry: registry.to_string(), repo: name.to_string() },
        targets: Vec::new(),
        detail: None,
    }
}

fn store() -> PackageStore {
    let manifests = vec![
        package("foobar", Some("2.0"), Some("a tool"), "acme"),
        package("k3s", Some("1.19"), Some("foo for clusters"), "rancher"),
        package("foobar", Some("1.0"), Some("a tool"), "acme"),
        package("rio", None, Some("not a match: afoo"), "rancher"),
        helm_package("nginx", "stable"),
    ];
    let index = manifests.iter().map(PackageIndex::of).collect();
    PackageStore { index, manifests }
}

fn names(found: &[&Package]) -> Vec<(String, Option<String>)> {
    found.iter().map(|p| (p.name.clone(), p.version.clone())).collect()
}

fn entry(name: &str, version: Option<&str>) -> (String, Option<String>) {
    (name.to_string(), version.map(|v| v.to_string()))
}

#[test]
fn list_is_the_index() {
    let s = store();
    let listed = s.list();
    assert_eq!(listed.len(), 5);
    assert_eq!(
        listed[1],
        PackageIndex {
            name: "k3s".to_string(),
            owner: "rancher".to_string(),
            source: "github".to_string()
        }
    );
    assert_eq!(listed[4].source, "helm");
    assert_eq!(listed[4].owner, "stable");
}

#[test]
fn find_gives_every_instance_in_order() {
    let s = store();
    let found = s.find("foobar").unwrap();
    assert_eq!(names(&found), vec![entry("foobar", Some("2.0")), entry("foobar", Some("1.0"))]);
}

#[test]
fn find_unknown_name_is_not_found() {
    let s = store();
    assert_eq!(
        s.find("foo").map(|found| names(&found)),
        Err(EngineError::NotFound { name: "foo".to_string() })
    );
}

#[test]
fn search_without_filters_is_everything_in_order() {
    let s = store();
    let found = s.search(None, None, None).unwrap();
    assert_eq!(
        names(&found),
        vec![
            entry("foobar", Some("2.0")),
            entry("k3s", Some("1.19")),
            entry("foobar", Some("1.0")),
            entry("rio", None),
            entry("nginx", None),
        ]
    );
}

#[test]
fn search_by_name_is_exact() {
    let s = store();
    assert_eq!(names(&s.search(Some("k3s"), None, None).unwrap()), vec![entry("k3s", Some("1.19"))]);
    assert!(s.search(Some("k3"), None, None).unwrap().is_empty());
}

#[test]
fn search_by_pattern_tests_name_and_description() {
    let s = store();
    let found = s.search(None, Some("^foo"), None).unwrap();
    assert_eq!(
        names(&found),
        vec![entry("foobar", Some("2.0")), entry("k3s", Some("1.19")), entry("foobar", Some("1.0"))]
    );
}

#[test]
fn search_by_pattern_is_a_regular_expression() {
    let s = store();
    assert_eq!(names(&s.search(None, Some("^k[0-9]s$"), None).unwrap()), vec![entry("k3s", Some("1.19"))]);
    assert!(s.search(None, Some("^k\\ds$x"), None).unwrap().is_empty());
}

#[test]
fn search_with_invalid_pattern_fails() {
    let s = store();
    assert_eq!(
        s.search(None, Some("("), None).map(|found| names(&found)),
        Err(EngineError::InvalidPattern { pattern: "(".to_string() })
    );
}

#[test]
fn search_by_owner_covers_both_sources() {
    let s = store();
    assert_eq!(
        names(&s.search(None, None, Some("rancher")).unwrap()),
        vec![entry("k3s", Some("1.19")), entry("rio", None)]
    );
    assert_eq!(names(&s.search(None, None, Some("stable")).unwrap()), vec![entry("nginx", None)]);
}

#[test]
fn search_filters_compose() {
    let s = store();
    assert_eq!(
        names(&s.search(None, Some("foo"), Some("rancher")).unwrap()),
        vec![entry("k3s", Some("1.19")), entry("rio", None)]
    );
    assert_eq!(
        names(&s.search(Some("rio"), Some("foo"), Some("rancher")).unwrap()),
        vec![entry("rio", None)]
    );
    assert!(s.search(Some("rio"), Some("^foo"), Some("rancher")).unwrap().is_empty());
    assert!(s.search(Some("rio"), Some("foo"), Some("acme")).unwrap().is_empty());
}

#[test]
fn keeps_joins_the_filters() {
    let p = package("k3s", None, None, "rancher");
    assert!(keeps(&p, None, None, true));
    assert!(!keeps(&p, None, None, false));
    assert!(keeps(&p, Some("k3s"), Some("rancher"), true));
    assert!(!keeps(&p, Some("k3"), Some("rancher"), true));
    assert!(!keeps(&p, Some("k3s"), Some("ranch"), true));
    assert!(!keeps(&p, Some("k3s"), Some("rancher"), false));
    let h = helm_package("nginx", "stable");
    assert!(keeps(&h, None, Some("stable"), true));
    assert!(!keeps(&h, None, Some("nginx"), true));
}

#[test]
fn hits_tests_name_then_description() {
    let re = regex::Regex::new("^foo").unwrap();
    assert!(hits(&re, &package("foobar", None, None, "acme")));
    assert!(hits(&re, &package("k3s", None, Some("foo for clusters"), "rancher")));
    assert!(!hits(&re, &package("rio", None, Some("afoo"), "rancher")));
    assert!(!hits(&re, &package("rio", None, None, "rancher")));
}

fn request(name: Option<&str>, owner: Option<&str>, pattern: Option<&str>, all: bool) -> SearchRequest {
    SearchRequest {
        name: name.map(|s| s.to_string()),
        owner: owner.map(|s| s.to_string()),
        pattern: pattern.map(|s| s.to_string()),
        all,
    }
}

fn summary_names(found: &[PackageSummary]) -> Vec<String> {
    found.iter().map(|s| s.name.clone()).collect()
}

#[test]
fn command_name() {
    assert_eq!(CMD_NAME, "search");
}

#[test]
fn run_without_filters_summarises_everything() {
    let s = store();
    let found = SearchCmd::new().run(&s, &request(None, None, None, false)).unwrap();
    assert_eq!(summary_names(&found), vec!["foobar", "k3s", "foobar", "rio", "nginx"]);
    assert_eq!(
        found[1],
        PackageSummary {
            name: "k3s".to_string(),
            description: Some("foo for clusters".to_string()),
            source: Some("https://github.com/rancher/k3s".to_string()),
        }
    );
    assert_eq!(found[4].source, Some(String::new()));
    let with_all = SearchCmd::new().run(&s, &request(None, None, None, true)).unwrap();
    assert_eq!(with_all, found);
}

#[test]
fn run_with_name_and_all_lists_every_release() {
    let s = store();
    let found = SearchCmd::new().run(&s, &request(Some("foobar"), Some("nobody"), Some("("), true)).unwrap();
    assert_eq!(summary_names(&found), vec!["foobar", "foobar"]);
}

#[test]
fn run_with_name_and_all_on_unknown_name_is_not_found() {
    let s = store();
    assert_eq!(
        SearchCmd::new().run(&s, &request(Some("nope"), None, None, true)),
        Err(EngineError::NotFound { name: "nope".to_string() })
    );
}

#[test]
fn run_with_name_alone_filters() {
    let s = store();
    let found = SearchCmd::new().run(&s, &request(Some("nope"), None, None, false)).unwrap();
    assert!(found.is_empty());
    let found = SearchCmd::new().run(&s, &request(Some("foobar"), Some("acme"), Some("tool$"), false)).unwrap();
    assert_eq!(summary_names(&found), vec!["foobar", "foobar"]);
}

#[test]
fn run_with_invalid_pattern_fails() {
    let s = store();
    assert_eq!(
        SearchCmd::new().run(&s, &request(None, None, Some("a(b"), false)),
        Err(EngineError::InvalidPattern { pattern: "a(b".to_string() })
    );
}

#[test]
fn summarize_keeps_order() {
    let s = store();
    let refs: Vec<&Package> = vec![&s.manifests[3], &s.manifests[0]];
    assert_eq!(summary_names(&summarize(&refs)), vec!["rio", "foobar"]);
    assert!(summarize(&Vec::new()).is_empty());
}
