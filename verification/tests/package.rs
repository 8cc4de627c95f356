use huber::error::EngineError;
use huber::package::{
    Package, PackageIndex, PackageManagement, PackageSource, PackageSummary, PackageTargetType,
};
use huber::platform::PlatformTag;

fn recipe(tag: &str) -> PackageManagement {
    PackageManagement {
        artifact_templates: vec![format!("https://example/{}-{{version}}.tgz", tag)],
        checksum: None,
        install_commands: None,
        uninstall_commands: None,
        upgrade_commands: None,
    }
}

fn full_package() -> Package {
    Package {
        name: "gh".to_string(),
        version: None,
        description: Some("GitHub on the command line".to_string()),
        source: PackageSource::Github { owner: "cli".to_string(), repo: "cli".to_string() },
        targets: vec![
            PackageTargetType::LinuxAmd64(recipe("linux-amd64")),
            PackageTargetType::LinuxArm64(recipe("linux-arm64")),
            PackageTargetType::MacOS(recipe("macos")),
            PackageTargetType::Windows(recipe("windows")),
        ],
        detail: None,
    }
}

#[test]
fn github_url_is_repository_page() {
    let s = PackageSource::Github { owner: "cli".to_string(), repo: "cli".to_string() };
    assert_eq!(s.url(), "https://github.com/cli/cli");
}

#[test]
fn helm_url_is_empty() {
    let s = PackageSource::Helm { registry: "stable".to_string(), repo: "nginx".to_string() };
    assert_eq!(s.url(), "");
}

#[test]
fn owner_of_each_source() {
    let g = PackageSource::Github { owner: "rancher".to_string(), repo: "k3s".to_string() };
    let h = PackageSource::Helm { registry: "stable".to_string(), repo: "nginx".to_string() };
    assert_eq!(g.owner(), "rancher");
    assert_eq!(h.owner(), "stable");
}

#[test]
fn source_labels() {
    let g = PackageSource::Github { owner: "rancher".to_string(), repo: "k3s".to_string() };
    let h = PackageSource::Helm { registry: "stable".to_string(), repo: "nginx".to_string() };
    assert_eq!(g.to_string(), "github");
    assert_eq!(h.to_string(), "helm");
}

#[test]
fn package_shows_its_name() {
    assert_eq!(full_package().to_string(), "gh");
}

#[test]
fn target_follows_the_platform_table() {
    let p = full_package();
    assert_eq!(p.target("linux", "x86_64"), Ok(recipe("linux-amd64")));
    assert_eq!(p.target("linux", "aarch64"), Ok(recipe("linux-arm64")));
    assert_eq!(p.target("macos", "x86_64"), Ok(recipe("macos")));
    assert_eq!(p.target("macos", "aarch64"), Ok(recipe("macos")));
    assert_eq!(p.target("windows", "x86_64"), Ok(recipe("windows")));
    assert_eq!(p.target("windows", "aarch64"), Ok(recipe("windows")));
    assert_eq!(
        p.target("freebsd", "x86_64"),
        Err(EngineError::UnsupportedPlatform {
            os: "freebsd".to_string(),
            arch: "x86_64".to_string()
        })
    );
    assert_eq!(
        p.target("linux", "riscv64"),
        Err(EngineError::UnsupportedPlatform {
            os: "linux".to_string(),
            arch: "riscv64".to_string()
        })
    );
}

#[test]
fn target_missing_recipe_is_unsupported() {
    let mut p = full_package();
    p.targets = vec![PackageTargetType::LinuxAmd64(recipe("linux-amd64"))];
    assert_eq!(p.target("linux", "x86_64"), Ok(recipe("linux-amd64")));
    assert_eq!(
        p.target("macos", "x86_64"),
        Err(EngineError::UnsupportedPlatform {
            os: "macos".to_string(),
            arch: "x86_64".to_string()
        })
    );
}

#[test]
fn target_takes_the_first_recipe_of_a_tag() {
    let mut p = full_package();
    p.targets = vec![
        PackageTargetType::MacOS(recipe("first")),
        PackageTargetType::MacOS(recipe("second")),
    ];
    assert!(!p.has_unique_tags());
    assert_eq!(p.target("macos", "x86_64"), Ok(recipe("first")));
}

#[test]
fn unique_tags_are_recognised() {
    assert!(full_package().has_unique_tags());
    let mut p = full_package();
    p.targets.push(PackageTargetType::LinuxAmd64(recipe("again")));
    assert!(!p.has_unique_tags());
    p.targets.clear();
    assert!(p.has_unique_tags());
}

#[test]
fn target_tag_and_recipe() {
    let t = PackageTargetType::LinuxArm64(recipe("linux-arm64"));
    assert_eq!(t.platform(), PlatformTag::LinuxArm64);
    assert_eq!(*t.recipe(), recipe("linux-arm64"));
    assert_eq!(PackageTargetType::Windows(recipe("w")).platform(), PlatformTag::Windows);
    assert_eq!(PackageTargetType::MacOS(recipe("m")).platform(), PlatformTag::MacOS);
    assert_eq!(PackageTargetType::LinuxAmd64(recipe("l")).platform(), PlatformTag::LinuxAmd64);
}

#[test]
fn recipe_clone_is_equal() {
    let mut m = recipe("linux-amd64");
    m.checksum = Some("abc".to_string());
    m.install_commands = Some(vec!["tar xf {version}".to_string()]);
    assert_eq!(m.clone(), m);
}

#[test]
fn summary_of_a_package() {
    let p = full_package();
    let expected = PackageSummary {
        name: "gh".to_string(),
        description: Some("GitHub on the command line".to_string()),
        source: Some("https://github.com/cli/cli".to_string()),
    };
    assert_eq!(PackageSummary::of(&p), expected);
    assert_eq!(PackageSummary::from(p), expected);
}

#[test]
fn summary_of_a_helm_package_has_an_empty_address() {
    let mut p = full_package();
    p.description = None;
    p.source = PackageSource::Helm { registry: "stable".to_string(), repo: "gh".to_string() };
    let s = PackageSummary::from(p);
    assert_eq!(s.description, None);
    assert_eq!(s.source, Some(String::new()));
}

#[test]
fn index_entry_of_a_package() {
    assert_eq!(
        PackageIndex::of(&full_package()),
        PackageIndex {
            name: "gh".to_string(),
            owner: "cli".to_string(),
            source: "github".to_string()
        }
    );
}

#[test]
fn recipe_templates_are_checked() {
    let mut m = recipe("linux-amd64");
    assert!(m.templates_valid());
    m.upgrade_commands = Some(vec!["run {os} {arch}".to_string()]);
    assert!(m.templates_valid());
    m.install_commands = Some(vec!["run {home}".to_string()]);
    assert!(!m.templates_valid());
    m.install_commands = None;
    m.artifact_templates.push("https://example/{tag}".to_string());
    assert!(!m.templates_valid());
}
