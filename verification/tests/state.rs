use huber::state::{InstallStateStore, InstalledPackageState};

fn record(name: &str, version: &str) -> InstalledPackageState {
    InstalledPackageState {
        name: name.to_string(),
        version: version.to_string(),
        root: format!("/opt/huber/{}", name),
        executables: vec![name.to_string()],
        installed_at: 7,
    }
}

#[test]
fn new_store_is_empty() {
    let s = InstallStateStore::new();
    assert!(s.list().is_empty());
    assert_eq!(s.get("gh"), None);
}

#[test]
fn put_then_get() {
    let mut s = InstallStateStore::new();
    s.put(record("gh", "1.0.0"));
    s.put(record("k3s", "1.19"));
    assert_eq!(s.get("gh"), Some(&record("gh", "1.0.0")));
    assert_eq!(s.get("k3s"), Some(&record("k3s", "1.19")));
    assert_eq!(s.get("helm"), None);
    assert_eq!(s.list().len(), 2);
}

#[test]
fn put_replaces_the_record_of_a_name() {
    let mut s = InstallStateStore::new();
    s.put(record("gh", "1.0.0"));
    s.put(record("k3s", "1.19"));
    s.put(record("gh", "1.1.0"));
    assert_eq!(s.list().len(), 2);
    assert_eq!(s.get("gh"), Some(&record("gh", "1.1.0")));
    assert_eq!(s.get("k3s"), Some(&record("k3s", "1.19")));
}

#[test]
fn delete_removes_only_the_name() {
    let mut s = InstallStateStore::new();
    s.put(record("gh", "1.0.0"));
    s.put(record("k3s", "1.19"));
    assert!(s.delete("gh"));
    assert!(!s.delete("gh"));
    assert!(!s.delete("helm"));
    assert_eq!(s.get("gh"), None);
    assert_eq!(s.get("k3s"), Some(&record("k3s", "1.19")));
    assert_eq!(s.list().len(), 1);
}

#[test]
fn record_clone_is_equal() {
    let r = record("gh", "1.0.0");
    assert_eq!(r.clone(), r);
}

#[test]
fn store_clone_holds_the_same_records() {
    let mut s = InstallStateStore::new();
    s.put(record("gh", "1.0.0"));
    s.put(record("k3s", "1.19"));
    let mut c = s.clone();
    assert_eq!(c.list(), s.list());
    assert!(c.delete("gh"));
    assert_eq!(s.get("gh"), Some(&record("gh", "1.0.0")));
    assert_eq!(c.get("gh"), None);
}
