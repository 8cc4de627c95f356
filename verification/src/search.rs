//! The search command: which manifests a request asks for, as summaries.

use vstd::prelude::*;
use crate::error::{EngineError, EngineErrorView};
use crate::package::{summary_of, Package, PackageSummary, PackageSummaryView};
use crate::pattern::regex_compiles;
use crate::store::{lemma_search_all, matcher, targets_of, PackageStore, Query};
use crate::text::{as_opt_str, opt_view};

verus! {

/// The name of the command.
pub const CMD_NAME: &'static str = "search";

/// The search command.
#[derive(Clone, Copy, Debug)]
pub struct SearchCmd;

/// What a search asks for: optional filters, and whether every release of
/// the named package is wanted.
#[derive(Clone, Debug)]
pub struct SearchRequest {
    pub name: Option<String>,
    pub owner: Option<String>,
    pub pattern: Option<String>,
    pub all: bool,
}

/// The summaries of a sequence of packages, one for one.
pub open spec fn summaries_of(packages: Seq<Package>) -> Seq<PackageSummaryView> {
    packages.map_values(|p: Package| summary_of(p))
}

/// The values of a list of summaries.
pub open spec fn summary_views(v: Seq<PackageSummary>) -> Seq<PackageSummaryView> {
    v.map_values(|s: PackageSummary| s@)
}

/// The answer to a request over the manifests of a store. With a name and
/// the flag for all releases, it is every instance of that name, and none is
/// an error. Otherwise it is what passes the filters, and a pattern that
/// does not compile is an error.
pub open spec fn answer(manifests: Seq<Package>, request: SearchRequest) -> Result<
    Seq<PackageSummaryView>,
    EngineErrorView,
> {
    if request.name is Some && request.all {
        let name = request.name->Some_0@;
        let found = manifests.filter(matcher(Query { name: Some(name), pattern: None, owner: None }));
        if found.len() == 0 {
            Err(EngineErrorView::NotFound { name })
        } else {
            Ok(summaries_of(found))
        }
    } else if request.pattern is Some && !regex_compiles(request.pattern->Some_0@) {
        Err(EngineErrorView::InvalidPattern { pattern: request.pattern->Some_0@ })
    } else {
        Ok(
            summaries_of(
                manifests.filter(
                    matcher(
                        Query {
                            name: opt_view(request.name),
                            pattern: opt_view(request.pattern),
                            owner: opt_view(request.owner),
                        },
                    ),
                ),
            ),
        )
    }
}

/// Whether a result is the given answer.
pub open spec fn is_answer(
    r: Result<Vec<PackageSummary>, EngineError>,
    expected: Result<Seq<PackageSummaryView>, EngineErrorView>,
) -> bool {
    match expected {
        Ok(s) => r is Ok && summary_views(r->Ok_0@) == s,
        Err(e) => r is Err && r->Err_0@ == e,
    }
}

/// The summaries of the packages, one for one.
pub fn summarize(packages: &Vec<&Package>) -> (r: Vec<PackageSummary>)
    ensures
        summary_views(r@) == summaries_of(targets_of(packages@)),
{
    let mut out: Vec<PackageSummary> = Vec::new();
    let mut i: usize = 0;
    while i < packages.len()
        invariant
            i <= packages.len(),
            out.len() == i,
            forall|j: int| 0 <= j < i ==> (#[trigger] out[j])@ == summary_of(*packages[j]),
        decreases packages.len() - i,
    {
        out.push(PackageSummary::of(packages[i]));
        i += 1;
    }
    assert(summary_views(out@) =~= summaries_of(targets_of(packages@)));
    out
}

impl SearchCmd {
    pub fn new() -> (r: Self) {
        SearchCmd {  }
    }

    /// Answers a request from a store.
    pub fn run(&self, store: &PackageStore, request: &SearchRequest) -> (r: Result<
        Vec<PackageSummary>,
        EngineError,
    >)
        ensures
            is_answer(r, answer(store.manifests@, *request)),
    {
        if request.all {
            if let Some(name) = &request.name {
                return match store.find(name.as_str()) {
                    Ok(found) => Ok(summarize(&found)),
                    Err(e) => Err(e),
                };
            }
        }
        match store.search(
            as_opt_str(&request.name),
            as_opt_str(&request.pattern),
            as_opt_str(&request.owner),
        ) {
            Ok(found) => Ok(summarize(&found)),
            Err(e) => Err(e),
        }
    }
}

/// A request without filters is answered with the summary of every
/// manifest, in the store's order.
pub proof fn lemma_answer_all(manifests: Seq<Package>, request: SearchRequest)
    requires
        request.name is None,
        request.pattern is None,
        request.owner is None,
    ensures
        answer(manifests, request) == Ok::<Seq<PackageSummaryView>, EngineErrorView>(
            summaries_of(manifests),
        ),
{
    lemma_search_all(manifests);
}

} // verus!
