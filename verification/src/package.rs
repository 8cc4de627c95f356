//! The manifest model: a package, its source and its per-platform install recipes.

use vstd::prelude::*;
use vstd::string::*;
use crate::error::{EngineError, EngineErrorView};
use crate::platform::{lemma_platform_table, platform_tag, platform_tag_of, PlatformTag};
use crate::template::{is_valid, valid_template, valid_templates};
use crate::text::{clone_opt_string, clone_opt_strings, clone_strings, opt_view, opt_views, views};

verus! {

/// The descriptor of a package: where it comes from and how it is installed
/// on each platform.
#[derive(Clone, Debug)]
pub struct Package {
    pub name: String,
    pub version: Option<String>,
    pub description: Option<String>,
    pub source: PackageSource,
    pub targets: Vec<PackageTargetType>,
    pub detail: Option<PackageDetailType>,
}

/// What is shown of a package: never a recipe.
#[derive(Clone, Debug, PartialEq, Eq)]
pub struct PackageSummary {
    pub name: String,
    pub description: Option<String>,
    pub source: Option<String>,
}

/// Where a package is published.
#[derive(Clone, Debug)]
pub enum PackageSource {
    Github { owner: String, repo: String },
    Helm { registry: String, repo: String },
}

/// Upstream metadata of a package.
#[derive(Clone, Debug)]
pub enum PackageDetailType {
    Github { package: GithubPackage },
}

/// A recipe under its platform tag.
#[derive(Clone, Debug)]
pub enum PackageTargetType {
    LinuxAmd64(PackageManagement),
    LinuxArm64(PackageManagement),
    MacOS(PackageManagement),
    Windows(PackageManagement),
}

/// The install recipe of one platform.
#[derive(Debug, PartialEq, Eq)]
pub struct PackageManagement {
    pub artifact_templates: Vec<String>,
    pub checksum: Option<String>,
    pub install_commands: Option<Vec<String>>,
    pub uninstall_commands: Option<Vec<String>>,
    pub upgrade_commands: Option<Vec<String>>,
}

/// A release as the upstream service describes it.
#[derive(Clone, Debug)]
pub struct GithubPackage {
    pub url: String,
    pub html_url: String,
    pub assets_url: String,
    pub upload_url: String,
    pub tarball_url: String,
    pub zipball_url: String,
    pub id: u64,
    pub tag_name: String,
    pub target_commitish: String,
    pub name: String,
    pub body: String,
    pub draft: bool,
    pub prerelease: bool,
    pub created_at: String,
    pub published_at: String,
    pub assets: Vec<GithubAsset>,
}

/// One downloadable file of a release.
#[derive(Clone, Debug)]
pub struct GithubAsset {
    pub url: String,
    pub browser_download_url: String,
    pub id: u64,
    pub name: String,
    pub label: Option<String>,
    pub state: String,
    pub content_type: String,
    pub size: u64,
    pub download_count: u64,
    pub created_at: String,
    pub updated_at: String,
}

/// An entry of the lightweight index.
#[derive(Clone, Debug, PartialEq, Eq)]
pub struct PackageIndex {
    pub name: String,
    pub owner: String,
    pub source: String,
}

/// The mathematical value of a recipe.
pub struct PackageManagementView {
    pub artifact_templates: Seq<Seq<char>>,
    pub checksum: Option<Seq<char>>,
    pub install_commands: Option<Seq<Seq<char>>>,
    pub uninstall_commands: Option<Seq<Seq<char>>>,
    pub upgrade_commands: Option<Seq<Seq<char>>>,
}

/// The mathematical value of a summary.
pub struct PackageSummaryView {
    pub name: Seq<char>,
    pub description: Option<Seq<char>>,
    pub source: Option<Seq<char>>,
}

/// The mathematical value of an index entry.
pub struct PackageIndexView {
    pub name: Seq<char>,
    pub owner: Seq<char>,
    pub source: Seq<char>,
}

impl View for PackageManagement {
    type V = PackageManagementView;

    open spec fn view(&self) -> PackageManagementView {
        PackageManagementView {
            artifact_templates: views(self.artifact_templates@),
            checksum: opt_view(self.checksum),
            install_commands: opt_views(self.install_commands),
            uninstall_commands: opt_views(self.uninstall_commands),
            upgrade_commands: opt_views(self.upgrade_commands),
        }
    }
}

impl View for PackageSummary {
    type V = PackageSummaryView;

    open spec fn view(&self) -> PackageSummaryView {
        PackageSummaryView {
            name: self.name@,
            description: opt_view(self.description),
            source: opt_view(self.source),
        }
    }
}

impl View for PackageIndex {
    type V = PackageIndexView;

    open spec fn view(&self) -> PackageIndexView {
        PackageIndexView { name: self.name@, owner: self.owner@, source: self.source@ }
    }
}

impl Clone for PackageManagement {
    fn clone(&self) -> (r: Self)
        ensures
            r@ == self@,
    {
        PackageManagement {
            artifact_templates: clone_strings(&self.artifact_templates),
            checksum: clone_opt_string(&self.checksum),
            install_commands: clone_opt_strings(&self.install_commands),
            uninstall_commands: clone_opt_strings(&self.uninstall_commands),
            upgrade_commands: clone_opt_strings(&self.upgrade_commands),
        }
    }
}

/// Whether every template of an optional list is valid.
pub open spec fn valid_commands(cs: Option<Seq<Seq<char>>>) -> bool {
    match cs {
        Some(c) => valid_templates(c),
        None => true,
    }
}

/// Whether every template of a recipe is valid: its artifact addresses and
/// its commands hold no placeholder but those of the version, the operating
/// system and the architecture.
pub open spec fn valid_recipe(m: PackageManagementView) -> bool {
    &&& valid_templates(m.artifact_templates)
    &&& valid_commands(m.install_commands)
    &&& valid_commands(m.uninstall_commands)
    &&& valid_commands(m.upgrade_commands)
}

/// Whether every template of a list is valid.
pub fn all_valid(ts: &Vec<String>) -> (r: bool)
    ensures
        r == valid_templates(views(ts@)),
{
    let mut i: usize = 0;
    while i < ts.len()
        invariant
            i <= ts.len(),
            forall|j: int| 0 <= j < i ==> valid_template(#[trigger] views(ts@)[j]),
        decreases ts.len() - i,
    {
        if !is_valid(ts[i].as_str()) {
            assert(!valid_template(views(ts@)[i as int]));
            return false;
        }
        i += 1;
    }
    true
}

/// Whether every template of an optional list is valid.
pub fn all_valid_opt(cs: &Option<Vec<String>>) -> (r: bool)
    ensures
        r == valid_commands(opt_views(*cs)),
{
    match cs {
        Some(c) => all_valid(c),
        None => true,
    }
}

impl PackageManagement {
    /// Whether every template of the recipe is valid. A manifest is held to
    /// this when it is loaded.
    pub fn templates_valid(&self) -> (r: bool)
        ensures
            r == valid_recipe(self@),
    {
        all_valid(&self.artifact_templates) && all_valid_opt(&self.install_commands)
            && all_valid_opt(&self.uninstall_commands) && all_valid_opt(&self.upgrade_commands)
    }
}

impl PackageIndex {
    /// The value of the index entry of a package: its name, who publishes
    /// it, and the kind of its source.
    pub open spec fn of_view(p: Package) -> PackageIndexView {
        PackageIndexView {
            name: p.name@,
            owner: p.source.owner_view(),
            source: p.source.label_view(),
        }
    }

    /// The index entry of a package.
    pub fn of(p: &Package) -> (r: Self)
        ensures
            r@ == Self::of_view(*p),
    {
        PackageIndex { name: p.name.clone(), owner: p.source.owner(), source: p.source.to_string() }
    }
}

impl PackageSource {
    /// The display address of the source: the repository's page for a Github
    /// source, and the empty string for any other.
    pub open spec fn url_view(&self) -> Seq<char> {
        match *self {
            PackageSource::Github { owner, repo } => "https://github.com/"@ + owner@ + "/"@
                + repo@,
            PackageSource::Helm { .. } => Seq::<char>::empty(),
        }
    }

    /// Who publishes the source: the owner of a Github source, the registry
    /// of a Helm source.
    pub open spec fn owner_view(&self) -> Seq<char> {
        match *self {
            PackageSource::Github { owner, .. } => owner@,
            PackageSource::Helm { registry, .. } => registry@,
        }
    }

    /// The name of the source's kind.
    pub open spec fn label_view(&self) -> Seq<char> {
        match *self {
            PackageSource::Github { .. } => "github"@,
            PackageSource::Helm { .. } => "helm"@,
        }
    }

    pub fn url(&self) -> (r: String)
        ensures
            r@ == self.url_view(),
    {
        match self {
            PackageSource::Github { owner, repo } => {
                let mut r = String::from_str("https://github.com/");
                r.append(owner.as_str());
                r.append("/");
                r.append(repo.as_str());
                r
            },
            _ => String::new(),
        }
    }

    pub fn owner(&self) -> (r: String)
        ensures
            r@ == self.owner_view(),
    {
        match self {
            PackageSource::Github { owner, repo: _ } => owner.clone(),
            PackageSource::Helm { registry, repo: _ } => registry.clone(),
        }
    }

    /// The label of the source's kind: "github" or "helm".
    pub fn to_string(&self) -> (r: String)
        ensures
            r@ == self.label_view(),
    {
        match self {
            PackageSource::Github { .. } => String::from_str("github"),
            PackageSource::Helm { .. } => String::from_str("helm"),
        }
    }
}

impl PackageTargetType {
    /// The platform tag that the recipe stands under.
    pub open spec fn tag(&self) -> PlatformTag {
        match *self {
            PackageTargetType::LinuxAmd64(_) => PlatformTag::LinuxAmd64,
            PackageTargetType::LinuxArm64(_) => PlatformTag::LinuxArm64,
            PackageTargetType::MacOS(_) => PlatformTag::MacOS,
            PackageTargetType::Windows(_) => PlatformTag::Windows,
        }
    }

    /// The recipe itself.
    pub open spec fn management(&self) -> PackageManagement {
        match *self {
            PackageTargetType::LinuxAmd64(m) => m,
            PackageTargetType::LinuxArm64(m) => m,
            PackageTargetType::MacOS(m) => m,
            PackageTargetType::Windows(m) => m,
        }
    }

    /// The platform tag that the recipe stands under.
    pub fn platform(&self) -> (r: PlatformTag)
        ensures
            r == self.tag(),
    {
        match self {
            PackageTargetType::LinuxAmd64(_) => PlatformTag::LinuxAmd64,
            PackageTargetType::LinuxArm64(_) => PlatformTag::LinuxArm64,
            PackageTargetType::MacOS(_) => PlatformTag::MacOS,
            PackageTargetType::Windows(_) => PlatformTag::Windows,
        }
    }

    /// The recipe itself.
    pub fn recipe(&self) -> (r: &PackageManagement)
        ensures
            *r == self.management(),
    {
        match self {
            PackageTargetType::LinuxAmd64(m) => m,
            PackageTargetType::LinuxArm64(m) => m,
            PackageTargetType::MacOS(m) => m,
            PackageTargetType::Windows(m) => m,
        }
    }
}

/// Whether some recipe stands under the tag.
pub open spec fn has_tag(targets: Seq<PackageTargetType>, tag: PlatformTag) -> bool {
    exists|i: int| 0 <= i < targets.len() && #[trigger] targets[i].tag() == tag
}

/// Whether the recipe at `i` is the first one under the tag.
pub open spec fn is_first_with_tag(targets: Seq<PackageTargetType>, tag: PlatformTag, i: int) -> bool {
    &&& 0 <= i < targets.len()
    &&& targets[i].tag() == tag
    &&& forall|j: int| 0 <= j < i ==> (#[trigger] targets[j]).tag() != tag
}

/// The position of the first recipe under the tag.
pub open spec fn first_with_tag(targets: Seq<PackageTargetType>, tag: PlatformTag) -> int {
    choose|i: int| is_first_with_tag(targets, tag, i)
}

/// The recipe that applies on the operating system and architecture: the
/// first one under the pair's tag, if the pair has a tag and a recipe stands
/// under it.
pub open spec fn resolve(targets: Seq<PackageTargetType>, os: Seq<char>, arch: Seq<char>) -> Option<
    PackageManagementView,
> {
    match platform_tag_of(os, arch) {
        Some(tag) => if has_tag(targets, tag) {
            Some(targets[first_with_tag(targets, tag)].management()@)
        } else {
            None
        },
        None => None,
    }
}

/// The first recipe under a tag is the only position that is first.
pub proof fn lemma_first_with_tag(targets: Seq<PackageTargetType>, tag: PlatformTag, i: int)
    requires
        is_first_with_tag(targets, tag, i),
    ensures
        has_tag(targets, tag),
        first_with_tag(targets, tag) == i,
{
    let k = first_with_tag(targets, tag);
    assert(is_first_with_tag(targets, tag, k));
    if k < i {
        assert(targets[k].tag() != tag);
    }
    if i < k {
        assert(targets[i].tag() != tag);
    }
}

impl Package {
    /// No two recipes stand under one platform tag.
    pub open spec fn wf(&self) -> bool {
        forall|i: int, j: int|
            0 <= i < j < self.targets.len() ==> (#[trigger] self.targets[i]).tag() != (
            #[trigger] self.targets[j]).tag()
    }

    /// Whether no two recipes stand under one platform tag.
    pub fn has_unique_tags(&self) -> (r: bool)
        ensures
            r == self.wf(),
    {
        let mut i: usize = 0;
        while i < self.targets.len()
            invariant
                i <= self.targets.len(),
                forall|a: int, b: int|
                    0 <= a < b < i ==> (#[trigger] self.targets[a]).tag() != (
                    #[trigger] self.targets[b]).tag(),
            decreases self.targets.len() - i,
        {
            let tag = self.targets[i].platform();
            let mut j: usize = 0;
            while j < i
                invariant
                    j <= i,
                    i < self.targets.len(),
                    tag == self.targets[i as int].tag(),
                    forall|a: int| 0 <= a < j ==> (#[trigger] self.targets[a]).tag() != tag,
                decreases i - j,
            {
                if self.targets[j].platform() == tag {
                    assert(self.targets[j as int].tag() == self.targets[i as int].tag());
                    return false;
                }
                j += 1;
            }
            i += 1;
        }
        true
    }

    /// Picks the recipe for the operating system and architecture.
    pub fn target(&self, os: &str, arch: &str) -> (r: Result<PackageManagement, EngineError>)
        ensures
            match resolve(self.targets@, os@, arch@) {
                Some(m) => r is Ok && r->Ok_0@ == m,
                None => r is Err && r->Err_0@ == (EngineErrorView::UnsupportedPlatform {
                    os: os@,
                    arch: arch@,
                }),
            },
    {
        if let Some(tag) = platform_tag(os, arch) {
            let mut i: usize = 0;
            while i < self.targets.len()
                invariant
                    i <= self.targets.len(),
                    platform_tag_of(os@, arch@) == Some(tag),
                    forall|j: int| 0 <= j < i ==> (#[trigger] self.targets[j]).tag() != tag,
                decreases self.targets.len() - i,
            {
                if self.targets[i].platform() == tag {
                    proof {
                        lemma_first_with_tag(self.targets@, tag, i as int);
                    }
                    return Ok(self.targets[i].recipe().clone());
                }
                i += 1;
            }
        }
        Err(EngineError::UnsupportedPlatform { os: String::from_str(os), arch: String::from_str(arch) })
    }

    /// The package's name.
    pub fn to_string(&self) -> (r: String)
        ensures
            r@ == self.name@,
    {
        self.name.clone()
    }
}

/// In a package with at most one recipe per tag, every operating system and
/// architecture whose tag is that of a recipe resolves to that recipe, and
/// every pair whose tag no recipe has, or that has no tag, resolves to none.
pub proof fn lemma_resolve_by_tag(p: Package, os: Seq<char>, arch: Seq<char>)
    requires
        p.wf(),
    ensures
        forall|i: int|
            0 <= i < p.targets.len() && platform_tag_of(os, arch) == Some(
                (#[trigger] p.targets[i]).tag(),
            ) ==> resolve(p.targets@, os, arch) == Some(p.targets[i].management()@),
        platform_tag_of(os, arch) is None ==> resolve(p.targets@, os, arch) is None,
        platform_tag_of(os, arch) matches Some(tag) && !has_tag(p.targets@, tag) ==> resolve(
            p.targets@,
            os,
            arch,
        ) is None,
{
    assert forall|i: int|
        0 <= i < p.targets.len() && platform_tag_of(os, arch) == Some(
            (#[trigger] p.targets[i]).tag(),
        ) implies resolve(p.targets@, os, arch) == Some(p.targets[i].management()@) by {
        let tag = p.targets[i].tag();
        assert(is_first_with_tag(p.targets@, tag, i));
        lemma_first_with_tag(p.targets@, tag, i);
    }
}

/// The table of platforms, for a package with at most one recipe per tag:
/// the recipe under a tag is what linux/x86_64, linux/aarch64, macos on any
/// architecture and windows on any architecture resolve to, each for its own
/// tag, and freebsd resolves to none whatever the recipes are.
pub proof fn lemma_resolve_table(p: Package, i: int, arch: Seq<char>)
    requires
        p.wf(),
        0 <= i < p.targets.len(),
    ensures
        p.targets[i].tag() == PlatformTag::LinuxAmd64 ==> resolve(
            p.targets@,
            "linux"@,
            "x86_64"@,
        ) == Some(p.targets[i].management()@),
        p.targets[i].tag() == PlatformTag::LinuxArm64 ==> resolve(
            p.targets@,
            "linux"@,
            "aarch64"@,
        ) == Some(p.targets[i].management()@),
        p.targets[i].tag() == PlatformTag::MacOS ==> resolve(p.targets@, "macos"@, arch) == Some(
            p.targets[i].management()@,
        ),
        p.targets[i].tag() == PlatformTag::Windows ==> resolve(p.targets@, "windows"@, arch)
            == Some(p.targets[i].management()@),
        resolve(p.targets@, "freebsd"@, arch) is None,
{
    lemma_platform_table(arch);
    lemma_resolve_by_tag(p, "linux"@, "x86_64"@);
    lemma_resolve_by_tag(p, "linux"@, "aarch64"@);
    lemma_resolve_by_tag(p, "macos"@, arch);
    lemma_resolve_by_tag(p, "windows"@, arch);
}

impl From<Package> for PackageSummary {
    fn from(p: Package) -> (r: Self)
        ensures
            r@ == summary_of(p),
    {
        let source = p.source.url();
        PackageSummary { name: p.name, description: p.description, source: Some(source) }
    }
}

impl vstd::std_specs::convert::FromSpecImpl<Package> for PackageSummary {
    open spec fn obeys_from_spec() -> bool {
        false
    }

    open spec fn from_spec(p: Package) -> PackageSummary {
        arbitrary()
    }
}

/// What a summary shows of a package: its name, its description and the
/// display address of its source.
pub open spec fn summary_of(p: Package) -> PackageSummaryView {
    PackageSummaryView {
        name: p.name@,
        description: opt_view(p.description),
        source: Some(p.source.url_view()),
    }
}

impl PackageSummary {
    /// The summary of a package that stays with its owner.
    pub fn of(p: &Package) -> (r: Self)
        ensures
            r@ == summary_of(*p),
    {
        PackageSummary {
            name: p.name.clone(),
            description: clone_opt_string(&p.description),
            source: Some(p.source.url()),
        }
    }
}

} // verus!
