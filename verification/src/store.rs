//! The package index and manifest store: list, find and search.

use vstd::prelude::*;
use vstd::string::*;
use crate::error::{EngineError, EngineErrorView};
use crate::package::{Package, PackageIndex, PackageSource};
use crate::pattern::{regex_compiles, regex_is_match, regex_plain, regex_source};
use crate::text::{opt_str_view, str_eq};

verus! {

/// The lightweight index and the manifests of a repository.
///
/// The manifests stand in the repository's order, which lists the instances
/// of one name from the newest to the oldest; every answer keeps that order.
#[derive(Debug)]
pub struct PackageStore {
    pub index: Vec<PackageIndex>,
    pub manifests: Vec<Package>,
}

/// The filters of a search, each of them optional.
pub struct Query {
    pub name: Option<Seq<char>>,
    pub pattern: Option<Seq<char>>,
    pub owner: Option<Seq<char>>,
}

/// Whether the pattern matches the package's name or its description.
pub open spec fn pattern_hits(pattern: Seq<char>, p: Package) -> bool {
    ||| regex_is_match(pattern, p.name@)
    ||| (p.description matches Some(d) && regex_is_match(pattern, d@))
}

/// Whether a package passes the name and owner filters, `hit` saying whether
/// it passes the pattern filter.
pub open spec fn keeps_of(p: Package, name: Option<Seq<char>>, owner: Option<Seq<char>>, hit: bool) -> bool {
    &&& (name matches Some(n) ==> p.name@ == n)
    &&& (owner matches Some(o) ==> p.source.owner_view() == o)
    &&& hit
}

/// Whether a package passes every filter that the query holds.
pub open spec fn entry_matches(p: Package, q: Query) -> bool {
    keeps_of(p, q.name, q.owner, q.pattern matches Some(pt) ==> pattern_hits(pt, p))
}

/// The query as a predicate on packages.
pub open spec fn matcher(q: Query) -> spec_fn(Package) -> bool {
    |p: Package| entry_matches(p, q)
}

/// The packages that a list of references points to.
pub open spec fn targets_of(refs: Seq<&Package>) -> Seq<Package> {
    refs.map_values(|p: &Package| *p)
}

/// Whether a package passes the name and owner filters of a search, given
/// whether it passes the pattern filter.
pub fn keeps(p: &Package, name: Option<&str>, owner: Option<&str>, hit: bool) -> (r: bool)
    ensures
        r == keeps_of(*p, opt_str_view(name), opt_str_view(owner), hit),
{
    let name_ok = match name {
        Some(n) => str_eq(p.name.as_str(), n),
        None => true,
    };
    let owner_ok = match owner {
        Some(o) => match &p.source {
            PackageSource::Github { owner, repo: _ } => str_eq(owner.as_str(), o),
            PackageSource::Helm { registry, repo: _ } => str_eq(registry.as_str(), o),
        },
        None => true,
    };
    name_ok && owner_ok && hit
}

/// Whether a compiled pattern matches the package's name or its description.
/// The pattern is one that `regex::Regex::new` compiled, as `search` compiles
/// its own.
pub fn hits(re: &regex::Regex, p: &Package) -> (r: bool)
    requires
        regex_plain(*re),
    ensures
        r == pattern_hits(regex_source(*re), *p),
{
    if re.is_match(p.name.as_str()) {
        true
    } else {
        match &p.description {
            Some(d) => re.is_match(d.as_str()),
            None => false,
        }
    }
}

impl PackageStore {
    /// The entries of the index, in its order.
    pub fn list(&self) -> (r: &Vec<PackageIndex>)
        ensures
            *r == self.index,
    {
        &self.index
    }

    /// The manifests that pass the filters, `re` being the compiled pattern
    /// where the query holds one.
    fn select<'a>(
        &'a self,
        name: Option<&str>,
        re: &Option<regex::Regex>,
        owner: Option<&str>,
        Ghost(q): Ghost<Query>,
    ) -> (r: Vec<&'a Package>)
        requires
            q.name == opt_str_view(name),
            q.owner == opt_str_view(owner),
            match *re {
                Some(c) => regex_plain(c) && q.pattern == Some(regex_source(c)),
                None => q.pattern is None,
            },
        ensures
            targets_of(r@) == self.manifests@.filter(matcher(q)),
    {
        let mut out: Vec<&Package> = Vec::new();
        let mut i: usize = 0;
        proof {
            reveal(Seq::filter);
            assert(self.manifests@.take(0).filter(matcher(q)) =~= Seq::<Package>::empty());
            assert(targets_of(out@) =~= Seq::<Package>::empty());
        }
        while i < self.manifests.len()
            invariant
                i <= self.manifests.len(),
                q.name == opt_str_view(name),
                q.owner == opt_str_view(owner),
                match *re {
                    Some(c) => regex_plain(c) && q.pattern == Some(regex_source(c)),
                    None => q.pattern is None,
                },
                targets_of(out@) == self.manifests@.take(i as int).filter(matcher(q)),
            decreases self.manifests.len() - i,
        {
            let p = &self.manifests[i];
            let hit = match re {
                Some(c) => hits(c, p),
                None => true,
            };
            let keep = keeps(p, name, owner, hit);
            proof {
                let before = self.manifests@.take(i as int);
                assert(self.manifests@.take(i + 1) =~= before.push(*p));
                before.lemma_filter_push(*p, matcher(q));
                assert(keep == matcher(q)(*p));
                assert(targets_of(out@.push(p)) =~= targets_of(out@).push(*p));
            }
            if keep {
                out.push(p);
            }
            i += 1;
        }
        assert(self.manifests@.take(i as int) =~= self.manifests@);
        out
    }

    /// Every manifest instance of the name, in the store's order.
    pub fn find(&self, name: &str) -> (r: Result<Vec<&Package>, EngineError>)
        ensures
            ({
                let found = self.manifests@.filter(
                    matcher(Query { name: Some(name@), pattern: None, owner: None }),
                );
                if found.len() == 0 {
                    r is Err && r->Err_0@ == (EngineErrorView::NotFound { name: name@ })
                } else {
                    r is Ok && targets_of(r->Ok_0@) == found
                }
            }),
    {
        let ghost q = Query { name: Some(name@), pattern: None, owner: None };
        let found = self.select(Some(name), &None, None, Ghost(q));
        assert(targets_of(found@).len() == found@.len());
        if found.len() == 0 {
            Err(EngineError::NotFound { name: String::from_str(name) })
        } else {
            Ok(found)
        }
    }

    /// The manifests that pass every filter given, in the store's order. A
    /// pattern is a regular expression tested against the name and the
    /// description; one that does not compile is refused.
    pub fn search(&self, name: Option<&str>, pattern: Option<&str>, owner: Option<&str>) -> (r:
        Result<Vec<&Package>, EngineError>)
        ensures
            match pattern {
                Some(pt) if !regex_compiles(pt@) => r is Err && r->Err_0@ == (
                EngineErrorView::InvalidPattern { pattern: pt@ }),
                _ => r is Ok && targets_of(r->Ok_0@) == self.manifests@.filter(
                    matcher(
                        Query {
                            name: opt_str_view(name),
                            pattern: opt_str_view(pattern),
                            owner: opt_str_view(owner),
                        },
                    ),
                ),
            },
    {
        let ghost q = Query {
            name: opt_str_view(name),
            pattern: opt_str_view(pattern),
            owner: opt_str_view(owner),
        };
        let re = match pattern {
            Some(pt) => match regex::Regex::new(pt) {
                Ok(c) => Some(c),
                Err(_) => {
                    return Err(EngineError::InvalidPattern { pattern: String::from_str(pt) });
                },
            },
            None => None,
        };
        Ok(self.select(name, &re, owner, Ghost(q)))
    }
}

/// A search without filters answers with every manifest, in the store's order.
pub proof fn lemma_search_all(manifests: Seq<Package>)
    ensures
        manifests.filter(matcher(Query { name: None, pattern: None, owner: None })) == manifests,
    decreases manifests.len(),
{
    let m = matcher(Query { name: None, pattern: None, owner: None });
    reveal(Seq::filter);
    if manifests.len() > 0 {
        lemma_search_all(manifests.drop_last());
        assert(m(manifests.last()));
        assert(manifests.drop_last().push(manifests.last()) =~= manifests);
    }
}

/// A search answers with exactly the manifests that pass every filter given:
/// a package stands in the answer if and only if it stands among the
/// manifests and passes the name filter, the pattern filter and the owner
/// filter together.
pub proof fn lemma_search_exact(manifests: Seq<Package>, q: Query, p: Package)
    ensures
        manifests.filter(matcher(q)).contains(p) <==> manifests.contains(p) && entry_matches(p, q),
{
    let found = manifests.filter(matcher(q));
    if found.contains(p) {
        let i = choose|i: int| 0 <= i < found.len() && found[i] == p;
        manifests.lemma_filter_pred(matcher(q), i);
        manifests.lemma_filter_contains_rev(matcher(q), p);
    }
    if manifests.contains(p) && entry_matches(p, q) {
        let i = choose|i: int| 0 <= i < manifests.len() && manifests[i] == p;
        assert(matcher(q)(manifests[i]));
        manifests.lemma_filter_contains(matcher(q), i);
    }
}

} // verus!
