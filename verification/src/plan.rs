//! Planning a mutation: which manifest instance serves a request, which
//! artifact addresses are tried and in what order, and which commands run.

use vstd::prelude::*;
use vstd::string::*;
use crate::error::{EngineError, EngineErrorView};
use crate::package::{resolve, Package, PackageManagement, PackageManagementView};
use crate::template::{expand, expand_of, lemma_valid_expands, valid_template, valid_templates};
use crate::text::{clone_opt_string, opt_str_view, opt_view, opt_views, str_eq, views};

verus! {

/// The kind of a mutation.
#[derive(Clone, Copy, Debug, PartialEq, Eq, Structural)]
pub enum JobKind {
    Install,
    Uninstall,
    Upgrade,
}

/// A resolved mutation: what is installed or removed, from where, and how.
#[derive(Debug)]
pub struct Job {
    pub kind: JobKind,
    pub name: String,
    pub version: String,
    /// The digest that the artifact must have, if the recipe gives one.
    pub checksum: Option<String>,
    /// The artifact addresses still to be tried, the current one first.
    pub urls: Vec<String>,
    /// The commands of the recipe for this kind, where it has any.
    pub commands: Option<Vec<String>>,
}

/// The mathematical value of a job.
pub struct JobView {
    pub kind: JobKind,
    pub name: Seq<char>,
    pub version: Seq<char>,
    pub checksum: Option<Seq<char>>,
    pub urls: Seq<Seq<char>>,
    pub commands: Option<Seq<Seq<char>>>,
}

impl View for Job {
    type V = JobView;

    open spec fn view(&self) -> JobView {
        JobView {
            kind: self.kind,
            name: self.name@,
            version: self.version@,
            checksum: opt_view(self.checksum),
            urls: views(self.urls@),
            commands: opt_views(self.commands),
        }
    }
}

/// Whether a manifest instance serves a request for the name: with a
/// version asked for, an instance of that version or one that pins none;
/// with none asked for, an instance that pins its own.
pub open spec fn candidate(p: Package, name: Seq<char>, version: Option<Seq<char>>) -> bool {
    &&& p.name@ == name
    &&& match version {
        Some(v) => p.version is None || p.version->Some_0@ == v,
        None => p.version is Some,
    }
}

/// Whether some instance serves the request.
pub open spec fn has_candidate(manifests: Seq<Package>, name: Seq<char>, version: Option<Seq<char>>) -> bool {
    exists|i: int| 0 <= i < manifests.len() && candidate(#[trigger] manifests[i], name, version)
}

/// Whether the instance at `i` is the first that serves the request.
pub open spec fn is_first_candidate(
    manifests: Seq<Package>,
    name: Seq<char>,
    version: Option<Seq<char>>,
    i: int,
) -> bool {
    &&& 0 <= i < manifests.len()
    &&& candidate(manifests[i], name, version)
    &&& forall|j: int| 0 <= j < i ==> !candidate(#[trigger] manifests[j], name, version)
}

/// The position of the first instance that serves the request: the newest,
/// as the store lists the newest first.
pub open spec fn first_candidate(manifests: Seq<Package>, name: Seq<char>, version: Option<Seq<char>>) -> int {
    choose|i: int| is_first_candidate(manifests, name, version, i)
}

/// The version that an instance is installed at: the one asked for, else its own.
pub open spec fn version_of(p: Package, requested: Option<Seq<char>>) -> Seq<char> {
    match requested {
        Some(v) => v,
        None => opt_view(p.version).unwrap_or(Seq::empty()),
    }
}

/// The first candidate is the only position that is first.
pub proof fn lemma_first_candidate(
    manifests: Seq<Package>,
    name: Seq<char>,
    version: Option<Seq<char>>,
    i: int,
)
    requires
        is_first_candidate(manifests, name, version, i),
    ensures
        has_candidate(manifests, name, version),
        first_candidate(manifests, name, version) == i,
{
    let k = first_candidate(manifests, name, version);
    assert(is_first_candidate(manifests, name, version, k));
    if k < i {
        assert(!candidate(manifests[k], name, version));
    }
    if i < k {
        assert(!candidate(manifests[i], name, version));
    }
}

/// Whether an instance serves the request.
pub fn is_candidate(p: &Package, name: &str, version: Option<&str>) -> (r: bool)
    ensures
        r == candidate(*p, name@, opt_str_view(version)),
{
    if !str_eq(p.name.as_str(), name) {
        return false;
    }
    match version {
        Some(v) => match &p.version {
            Some(pv) => str_eq(pv.as_str(), v),
            None => true,
        },
        None => p.version.is_some(),
    }
}

/// The first instance that serves the request, if any does.
pub fn pick<'a>(manifests: &'a Vec<Package>, name: &str, version: Option<&str>) -> (r: Option<
    &'a Package,
>)
    ensures
        ({
            let v = opt_str_view(version);
            match r {
                Some(p) => has_candidate(manifests@, name@, v) && *p == manifests[first_candidate(
                    manifests@,
                    name@,
                    v,
                )],
                None => !has_candidate(manifests@, name@, v),
            }
        }),
{
    let ghost v = opt_str_view(version);
    let mut i: usize = 0;
    while i < manifests.len()
        invariant
            i <= manifests.len(),
            v == opt_str_view(version),
            forall|j: int| 0 <= j < i ==> !candidate(#[trigger] manifests[j], name@, v),
        decreases manifests.len() - i,
    {
        if is_candidate(&manifests[i], name, version) {
            proof {
                lemma_first_candidate(manifests@, name@, v, i as int);
            }
            return Some(&manifests[i]);
        }
        i += 1;
    }
    None
}

/// The expansions of the templates that have one, in the templates' order.
pub open spec fn expansions(
    ts: Seq<Seq<char>>,
    version: Seq<char>,
    os: Seq<char>,
    arch: Seq<char>,
) -> Seq<Seq<char>>
    decreases ts.len(),
{
    if ts.len() == 0 {
        Seq::empty()
    } else {
        let rest = expansions(ts.drop_last(), version, os, arch);
        match expand_of(ts.last(), version, os, arch) {
            Some(u) => rest.push(u),
            None => rest,
        }
    }
}

/// Expands the templates that are valid, in order.
pub fn expand_valid(ts: &Vec<String>, version: &str, os: &str, arch: &str) -> (r: Vec<String>)
    ensures
        views(r@) == expansions(views(ts@), version@, os@, arch@),
{
    let mut out: Vec<String> = Vec::new();
    let mut i: usize = 0;
    assert(views(out@) =~= Seq::<Seq<char>>::empty());
    assert(views(ts@).take(0) =~= Seq::<Seq<char>>::empty());
    while i < ts.len()
        invariant
            i <= ts.len(),
            views(out@) == expansions(views(ts@).take(i as int), version@, os@, arch@),
        decreases ts.len() - i,
    {
        let e = expand(ts[i].as_str(), version, os, arch);
        proof {
            let next = views(ts@).take(i + 1);
            assert(next.drop_last() =~= views(ts@).take(i as int));
            assert(next.last() == ts[i as int]@);
        }
        if let Some(u) = e {
            assert(views(out@.push(u)) =~= views(out@).push(u@));
            out.push(u);
        }
        i += 1;
    }
    assert(views(ts@).take(i as int) =~= views(ts@));
    out
}

/// Whether the template at `i` is the first invalid one.
pub open spec fn is_first_invalid(cs: Seq<Seq<char>>, i: int) -> bool {
    &&& 0 <= i < cs.len()
    &&& !valid_template(cs[i])
    &&& forall|j: int| 0 <= j < i ==> valid_template(#[trigger] cs[j])
}

/// The position of the first invalid template.
pub open spec fn first_invalid(cs: Seq<Seq<char>>) -> int {
    choose|i: int| is_first_invalid(cs, i)
}

/// The expansions of all the templates, or the first template that is invalid.
pub open spec fn expand_all_of(
    cs: Seq<Seq<char>>,
    version: Seq<char>,
    os: Seq<char>,
    arch: Seq<char>,
) -> Result<Seq<Seq<char>>, Seq<char>> {
    if valid_templates(cs) {
        Ok(Seq::new(cs.len(), |i: int| expand_of(cs[i], version, os, arch).unwrap()))
    } else {
        Err(cs[first_invalid(cs)])
    }
}

/// The first invalid template is the only position that is first.
pub proof fn lemma_first_invalid(cs: Seq<Seq<char>>, i: int)
    requires
        is_first_invalid(cs, i),
    ensures
        !valid_templates(cs),
        first_invalid(cs) == i,
{
    let k = first_invalid(cs);
    assert(is_first_invalid(cs, k));
    if k < i {
        assert(valid_template(cs[k]));
    }
    if i < k {
        assert(valid_template(cs[i]));
    }
}

/// Expands every template, or hands back the first that is invalid.
pub fn expand_all(cs: &Vec<String>, version: &str, os: &str, arch: &str) -> (r: Result<
    Vec<String>,
    String,
>)
    ensures
        match expand_all_of(views(cs@), version@, os@, arch@) {
            Ok(s) => r is Ok && views(r->Ok_0@) == s,
            Err(c) => r is Err && r->Err_0@ == c,
        },
{
    let mut out: Vec<String> = Vec::new();
    let mut i: usize = 0;
    while i < cs.len()
        invariant
            i <= cs.len(),
            out.len() == i,
            forall|j: int| 0 <= j < i ==> valid_template(#[trigger] views(cs@)[j]),
            forall|j: int|
                0 <= j < i ==> Some((#[trigger] out[j])@) == expand_of(
                    views(cs@)[j],
                    version@,
                    os@,
                    arch@,
                ),
        decreases cs.len() - i,
    {
        proof {
            lemma_valid_expands(cs[i as int]@, version@, os@, arch@);
        }
        match expand(cs[i].as_str(), version, os, arch) {
            Some(u) => {
                out.push(u);
            },
            None => {
                proof {
                    lemma_first_invalid(views(cs@), i as int);
                }
                return Err(cs[i].clone());
            },
        }
        i += 1;
    }
    assert(valid_templates(views(cs@)));
    assert(views(out@) =~= Seq::new(
        cs.len() as nat,
        |i: int| expand_of(views(cs@)[i], version@, os@, arch@).unwrap(),
    ));
    Ok(out)
}

/// The commands of a recipe for a kind of mutation.
pub open spec fn commands_of(kind: JobKind, m: PackageManagementView) -> Option<Seq<Seq<char>>> {
    match kind {
        JobKind::Install => m.install_commands,
        JobKind::Uninstall => m.uninstall_commands,
        JobKind::Upgrade => m.upgrade_commands,
    }
}

/// The expanded commands of a recipe for a kind of mutation: none where the
/// recipe has none, and the first invalid command where there is one.
pub open spec fn expanded_commands_of(
    kind: JobKind,
    m: PackageManagementView,
    version: Seq<char>,
    os: Seq<char>,
    arch: Seq<char>,
) -> Result<Option<Seq<Seq<char>>>, Seq<char>> {
    match commands_of(kind, m) {
        None => Ok(None),
        Some(cs) => match expand_all_of(cs, version, os, arch) {
            Ok(x) => Ok(Some(x)),
            Err(c) => Err(c),
        },
    }
}

/// Expands the commands of a recipe for a kind of mutation.
pub fn expanded_commands(
    kind: JobKind,
    m: &PackageManagement,
    version: &str,
    os: &str,
    arch: &str,
) -> (r: Result<Option<Vec<String>>, String>)
    ensures
        match expanded_commands_of(kind, m@, version@, os@, arch@) {
            Ok(x) => r is Ok && opt_views(r->Ok_0) == x,
            Err(c) => r is Err && r->Err_0@ == c,
        },
{
    let commands = match kind {
        JobKind::Install => &m.install_commands,
        JobKind::Uninstall => &m.uninstall_commands,
        JobKind::Upgrade => &m.upgrade_commands,
    };
    match commands {
        None => Ok(None),
        Some(cs) => match expand_all(cs, version, os, arch) {
            Ok(x) => Ok(Some(x)),
            Err(c) => Err(c),
        },
    }
}

/// The job that installs an instance at a version on a platform: the
/// platform must have a recipe, one artifact template at least must expand,
/// and every command must be valid.
pub open spec fn plan_of(
    kind: JobKind,
    name: Seq<char>,
    version: Seq<char>,
    p: Package,
    os: Seq<char>,
    arch: Seq<char>,
) -> Result<JobView, EngineErrorView> {
    match resolve(p.targets@, os, arch) {
        None => Err(EngineErrorView::UnsupportedPlatform { os, arch }),
        Some(m) => {
            let urls = expansions(m.artifact_templates, version, os, arch);
            if urls.len() == 0 {
                Err(EngineErrorView::ArtifactUnavailable { name })
            } else {
                match expanded_commands_of(kind, m, version, os, arch) {
                    Err(command) => Err(EngineErrorView::CommandExecutionFailed { command }),
                    Ok(commands) => Ok(
                        JobView { kind, name, version, checksum: m.checksum, urls, commands },
                    ),
                }
            }
        },
    }
}

/// Plans the installation of an instance at a version on a platform.
pub fn plan(kind: JobKind, name: &str, version: &str, p: &Package, os: &str, arch: &str) -> (r:
    Result<Job, EngineError>)
    ensures
        match plan_of(kind, name@, version@, *p, os@, arch@) {
            Ok(j) => r is Ok && r->Ok_0@ == j,
            Err(e) => r is Err && r->Err_0@ == e,
        },
{
    let m = match p.target(os, arch) {
        Ok(m) => m,
        Err(e) => {
            return Err(e);
        },
    };
    let urls = expand_valid(&m.artifact_templates, version, os, arch);
    if urls.len() == 0 {
        return Err(EngineError::ArtifactUnavailable { name: String::from_str(name) });
    }
    match expanded_commands(kind, &m, version, os, arch) {
        Err(command) => Err(EngineError::CommandExecutionFailed { command }),
        Ok(commands) => Ok(
            Job {
                kind,
                name: String::from_str(name),
                version: String::from_str(version),
                checksum: clone_opt_string(&m.checksum),
                urls,
                commands,
            },
        ),
    }
}

} // verus!
