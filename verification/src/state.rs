//! The local install-state store: what is installed, by package name.

use vstd::prelude::*;
use crate::text::{clone_strings, str_eq, views};

verus! {

/// The record of one installed package.
#[derive(Debug, PartialEq, Eq)]
pub struct InstalledPackageState {
    pub name: String,
    pub version: String,
    pub root: String,
    pub executables: Vec<String>,
    pub installed_at: u64,
}

/// The mathematical value of a record.
pub struct InstalledStateView {
    pub name: Seq<char>,
    pub version: Seq<char>,
    pub root: Seq<char>,
    pub executables: Seq<Seq<char>>,
    pub installed_at: u64,
}

impl View for InstalledPackageState {
    type V = InstalledStateView;

    open spec fn view(&self) -> InstalledStateView {
        InstalledStateView {
            name: self.name@,
            version: self.version@,
            root: self.root@,
            executables: views(self.executables@),
            installed_at: self.installed_at,
        }
    }
}

impl Clone for InstalledPackageState {
    fn clone(&self) -> (r: Self)
        ensures
            r@ == self@,
    {
        InstalledPackageState {
            name: self.name.clone(),
            version: self.version.clone(),
            root: self.root.clone(),
            executables: clone_strings(&self.executables),
            installed_at: self.installed_at,
        }
    }
}

/// No two records bear one name.
pub open spec fn names_distinct(s: Seq<InstalledPackageState>) -> bool {
    forall|i: int, j: int| 0 <= i < j < s.len() ==> (#[trigger] s[i]).name@ != (#[trigger] s[j]).name@
}

/// Whether a record bears the name.
pub open spec fn has_name(s: Seq<InstalledPackageState>, name: Seq<char>) -> bool {
    exists|i: int| 0 <= i < s.len() && (#[trigger] s[i]).name@ == name
}

/// The position of a record that bears the name.
pub open spec fn position_of(s: Seq<InstalledPackageState>, name: Seq<char>) -> int {
    choose|i: int| 0 <= i < s.len() && (#[trigger] s[i]).name@ == name
}

/// The records by name.
pub open spec fn by_name(s: Seq<InstalledPackageState>) -> Map<Seq<char>, InstalledStateView> {
    Map::new(|n: Seq<char>| has_name(s, n), |n: Seq<char>| s[position_of(s, n)]@)
}

/// A record is found under its own name, at its own position.
pub proof fn lemma_record_at(s: Seq<InstalledPackageState>, i: int)
    requires
        names_distinct(s),
        0 <= i < s.len(),
    ensures
        has_name(s, s[i].name@),
        position_of(s, s[i].name@) == i,
        by_name(s).contains_key(s[i].name@),
        by_name(s)[s[i].name@] == s[i]@,
{
    let n = s[i].name@;
    assert(has_name(s, n));
    let k = position_of(s, n);
    assert(0 <= k < s.len() && s[k].name@ == n);
    if k < i {
        assert(s[k].name@ != s[i].name@);
    }
    if i < k {
        assert(s[i].name@ != s[k].name@);
    }
}

/// A record under a new name is added to the records by name.
pub proof fn lemma_record_pushed(s: Seq<InstalledPackageState>, x: InstalledPackageState)
    requires
        names_distinct(s),
        !has_name(s, x.name@),
    ensures
        names_distinct(s.push(x)),
        by_name(s.push(x)) == by_name(s).insert(x.name@, x@),
{
    let t = s.push(x);
    assert forall|i: int, j: int| 0 <= i < j < t.len() implies (#[trigger] t[i]).name@ != (
    #[trigger] t[j]).name@ by {
        if j < s.len() {
            assert(s[i].name@ != s[j].name@);
        } else {
            assert(s[i].name@ != x.name@);
        }
    }
    assert forall|n: Seq<char>| #[trigger]
        by_name(t).contains_key(n) == by_name(s).insert(x.name@, x@).contains_key(n) by {
        if has_name(s, n) {
            let i = position_of(s, n);
            assert(t[i].name@ == n);
        }
        if has_name(t, n) {
            let i = position_of(t, n);
            if i < s.len() {
                assert(s[i].name@ == n);
            }
        }
        assert(t[s.len() as int].name@ == x.name@);
    }
    assert forall|n: Seq<char>| #[trigger] by_name(t).contains_key(n) implies by_name(t)[n]
        == by_name(s).insert(x.name@, x@)[n] by {
        let i = position_of(t, n);
        lemma_record_at(t, i);
        if i < s.len() {
            assert(s[i].name@ == n);
            lemma_record_at(s, i);
        }
    }
    assert(by_name(t) =~= by_name(s).insert(x.name@, x@));
}

/// Removing a record removes its name from the records by name.
pub proof fn lemma_record_removed(s: Seq<InstalledPackageState>, i: int)
    requires
        names_distinct(s),
        0 <= i < s.len(),
    ensures
        names_distinct(s.remove(i)),
        by_name(s.remove(i)) == by_name(s).remove(s[i].name@),
{
    let t = s.remove(i);
    let gone = s[i].name@;
    assert forall|a: int, b: int| 0 <= a < b < t.len() implies (#[trigger] t[a]).name@ != (
    #[trigger] t[b]).name@ by {
        let a2 = if a < i { a } else { a + 1 };
        let b2 = if b < i { b } else { b + 1 };
        assert(s[a2].name@ != s[b2].name@);
    }
    assert forall|n: Seq<char>| #[trigger]
        by_name(t).contains_key(n) == by_name(s).remove(gone).contains_key(n) by {
        if has_name(t, n) {
            let k = position_of(t, n);
            let k2 = if k < i { k } else { k + 1 };
            assert(s[k2].name@ == n);
            if n == gone {
                if k2 < i {
                    assert(s[k2].name@ != s[i].name@);
                } else {
                    assert(s[i].name@ != s[k2].name@);
                }
            }
        }
        if has_name(s, n) && n != gone {
            let k = position_of(s, n);
            let k2 = if k < i { k } else { k - 1 };
            assert(t[k2].name@ == n);
        }
    }
    assert forall|n: Seq<char>| #[trigger] by_name(t).contains_key(n) implies by_name(t)[n]
        == by_name(s).remove(gone)[n] by {
        let k = position_of(t, n);
        lemma_record_at(t, k);
        let k2 = if k < i { k } else { k + 1 };
        assert(s[k2].name@ == n);
        lemma_record_at(s, k2);
    }
    assert(by_name(t) =~= by_name(s).remove(gone));
}

/// Records with the same values, one for one, are the same records by name.
pub proof fn lemma_same_records(s: Seq<InstalledPackageState>, t: Seq<InstalledPackageState>)
    requires
        names_distinct(s),
        s.len() == t.len(),
        forall|i: int| 0 <= i < s.len() ==> (#[trigger] s[i])@ == t[i]@,
    ensures
        names_distinct(t),
        by_name(t) == by_name(s),
{
    assert forall|i: int, j: int| 0 <= i < j < t.len() implies (#[trigger] t[i]).name@ != (
    #[trigger] t[j]).name@ by {
        assert(s[i]@ == t[i]@ && s[j]@ == t[j]@);
        assert(s[i].name@ != s[j].name@);
    }
    assert forall|n: Seq<char>| #[trigger] by_name(t).contains_key(n) == by_name(s).contains_key(
        n,
    ) by {
        if has_name(s, n) {
            let i = position_of(s, n);
            assert(s[i]@ == t[i]@);
            assert(t[i].name@ == n);
        }
        if has_name(t, n) {
            let i = position_of(t, n);
            assert(s[i]@ == t[i]@);
            assert(s[i].name@ == n);
        }
    }
    assert forall|n: Seq<char>| #[trigger] by_name(t).contains_key(n) implies by_name(t)[n]
        == by_name(s)[n] by {
        let i = position_of(t, n);
        lemma_record_at(t, i);
        assert(s[i]@ == t[i]@);
        assert(s[i].name@ == n);
        lemma_record_at(s, i);
    }
    assert(by_name(t) =~= by_name(s));
}

/// What is installed on this machine.
#[derive(Debug)]
pub struct InstallStateStore {
    pub entries: Vec<InstalledPackageState>,
}

impl Clone for InstallStateStore {
    fn clone(&self) -> (r: Self)
        ensures
            self.wf() ==> r.wf() && r@ == self@,
    {
        let mut entries: Vec<InstalledPackageState> = Vec::new();
        let mut i: usize = 0;
        while i < self.entries.len()
            invariant
                i <= self.entries.len(),
                entries.len() == i,
                forall|j: int| 0 <= j < i ==> (#[trigger] self.entries[j])@ == entries[j]@,
            decreases self.entries.len() - i,
        {
            entries.push(self.entries[i].clone());
            i += 1;
        }
        proof {
            if self.wf() {
                lemma_same_records(self.entries@, entries@);
            }
        }
        InstallStateStore { entries }
    }
}

impl View for InstallStateStore {
    type V = Map<Seq<char>, InstalledStateView>;

    open spec fn view(&self) -> Map<Seq<char>, InstalledStateView> {
        by_name(self.entries@)
    }
}

impl InstallStateStore {
    /// Every name has at most one record.
    pub open spec fn wf(&self) -> bool {
        names_distinct(self.entries@)
    }

    /// A store without records.
    pub fn new() -> (r: Self)
        ensures
            r.wf(),
            r@ == Map::<Seq<char>, InstalledStateView>::empty(),
    {
        let r = InstallStateStore { entries: Vec::new() };
        assert(r@ =~= Map::<Seq<char>, InstalledStateView>::empty());
        r
    }

    /// The position of the record of the name, if there is one.
    fn find(&self, name: &str) -> (r: Option<usize>)
        requires
            self.wf(),
        ensures
            match r {
                Some(i) => i < self.entries.len() && self.entries[i as int].name@ == name@
                    && self@.contains_key(name@) && self@[name@] == self.entries[i as int]@,
                None => !self@.contains_key(name@),
            },
    {
        let mut i: usize = 0;
        while i < self.entries.len()
            invariant
                i <= self.entries.len(),
                self.wf(),
                forall|j: int| 0 <= j < i ==> (#[trigger] self.entries[j]).name@ != name@,
            decreases self.entries.len() - i,
        {
            if str_eq(self.entries[i].name.as_str(), name) {
                proof {
                    lemma_record_at(self.entries@, i as int);
                }
                return Some(i);
            }
            i += 1;
        }
        None
    }

    /// The record of the name, if there is one.
    pub fn get(&self, name: &str) -> (r: Option<&InstalledPackageState>)
        requires
            self.wf(),
        ensures
            match r {
                Some(s) => self@.contains_key(name@) && s@ == self@[name@] && s.name@ == name@,
                None => !self@.contains_key(name@),
            },
    {
        match self.find(name) {
            Some(i) => Some(&self.entries[i]),
            None => None,
        }
    }

    /// Removes the record of the name, and says whether there was one.
    pub fn delete(&mut self, name: &str) -> (r: bool)
        requires
            old(self).wf(),
        ensures
            final(self).wf(),
            final(self)@ == old(self)@.remove(name@),
            r == old(self)@.contains_key(name@),
    {
        match self.find(name) {
            Some(i) => {
                proof {
                    lemma_record_removed(self.entries@, i as int);
                }
                self.entries.remove(i);
                true
            },
            None => {
                assert(self@ =~= self@.remove(name@));
                false
            },
        }
    }

    /// Records the state under its name, in place of any earlier record of
    /// that name.
    pub fn put(&mut self, state: InstalledPackageState)
        requires
            old(self).wf(),
        ensures
            final(self).wf(),
            final(self)@ == old(self)@.insert(state.name@, state@),
    {
        self.delete(state.name.as_str());
        proof {
            assert(!self@.contains_key(state.name@));
            assert(by_name(self.entries@).contains_key(state.name@) == has_name(
                self.entries@,
                state.name@,
            ));
            lemma_record_pushed(self.entries@, state);
            assert(old(self)@.remove(state.name@).insert(state.name@, state@) =~= old(self)@.insert(
                state.name@,
                state@,
            ));
        }
        self.entries.push(state);
    }

    /// Every record, each under its own name.
    pub fn list(&self) -> (r: &Vec<InstalledPackageState>)
        requires
            self.wf(),
        ensures
            *r == self.entries,
            forall|i: int|
                0 <= i < r.len() ==> self@.contains_key((#[trigger] r[i]).name@) && self@[r[i].name@]
                    == r[i]@,
            forall|n: Seq<char>|
                self@.contains_key(n) ==> exists|i: int|
                    0 <= i < r.len() && (#[trigger] r[i]).name@ == n,
    {
        proof {
            assert forall|i: int| 0 <= i < self.entries.len() implies self@.contains_key(
                (#[trigger] self.entries[i]).name@,
            ) && self@[self.entries[i].name@] == self.entries[i]@ by {
                lemma_record_at(self.entries@, i);
            }
        }
        &self.entries
    }
}

} // verus!
