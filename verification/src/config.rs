//! What a project's configuration file declares.

use vstd::prelude::*;
use crate::error::Error;
use crate::text::{equal, views};

verus! {

/// Some entry of `entries` goes by `name`.
pub open spec fn has_name<V>(entries: Seq<(Seq<char>, V)>, name: Seq<char>) -> bool {
    exists|i: int| 0 <= i < entries.len() && (#[trigger] entries[i]).0 == name
}

/// The place of an entry of `entries` that goes by `name`.
pub open spec fn place_of<V>(entries: Seq<(Seq<char>, V)>, name: Seq<char>) -> int {
    choose|i: int| 0 <= i < entries.len() && (#[trigger] entries[i]).0 == name
}

/// No two entries of `entries` go by the same name.
pub open spec fn unique_names<V>(entries: Seq<(Seq<char>, V)>) -> bool {
    forall|i: int, j: int|
        0 <= i < j < entries.len() ==> (#[trigger] entries[i]).0 != (#[trigger] entries[j]).0
}

/// What `entries` holds under `name`.
pub open spec fn lookup<V>(entries: Seq<(Seq<char>, V)>, name: Seq<char>) -> Option<V> {
    if has_name(entries, name) {
        Some(entries[place_of(entries, name)].1)
    } else {
        None
    }
}

/// `entries` after `value` was put under `name`: in the place of the entry
/// that went by that name, or behind the others where none did.
pub open spec fn with_entry<V>(entries: Seq<(Seq<char>, V)>, name: Seq<char>, value: V) -> Seq<
    (Seq<char>, V),
> {
    if has_name(entries, name) {
        entries.update(place_of(entries, name), (name, value))
    } else {
        entries.push((name, value))
    }
}

/// `entries` without the entry that goes by `name`.
pub open spec fn without_entry<V>(entries: Seq<(Seq<char>, V)>, name: Seq<char>) -> Seq<
    (Seq<char>, V),
> {
    if has_name(entries, name) {
        entries.remove(place_of(entries, name))
    } else {
        entries
    }
}

/// Among unique names, an entry's place is the only one with its name.
pub proof fn lemma_place_unique<V>(entries: Seq<(Seq<char>, V)>, i: int)
    requires
        unique_names(entries),
        0 <= i < entries.len(),
    ensures
        has_name(entries, entries[i].0),
        place_of(entries, entries[i].0) == i,
        lookup(entries, entries[i].0) == Some(entries[i].1),
{
    let name = entries[i].0;
    let p = place_of(entries, name);
    assert(0 <= p < entries.len() && entries[p].0 == name);
    if p < i {
        assert(entries[p].0 != entries[i].0);
    }
    if i < p {
        assert(entries[i].0 != entries[p].0);
    }
}

/// Putting a value under a name keeps the names unique, makes the name give
/// that value, and changes what no other name gives.
pub proof fn lemma_with_entry<V>(
    entries: Seq<(Seq<char>, V)>,
    name: Seq<char>,
    value: V,
    other: Seq<char>,
)
    requires
        unique_names(entries),
    ensures
        unique_names(with_entry(entries, name, value)),
        lookup(with_entry(entries, name, value), name) == Some(value),
        other != name ==> lookup(with_entry(entries, name, value), other) == lookup(
            entries,
            other,
        ),
{
    let after = with_entry(entries, name, value);
    let n = entries.len() as int;
    // The place of the new entry, and the names of the others as they were.
    let p = if has_name(entries, name) {
        place_of(entries, name)
    } else {
        n
    };
    assert(0 <= p < after.len() && after[p] == (name, value));
    assert forall|i: int| 0 <= i < n && i != p implies #[trigger] after[i] == entries[i] by {}
    assert forall|i: int, j: int| 0 <= i < j < after.len() implies (#[trigger] after[i]).0
        != (#[trigger] after[j]).0 by {
        if j == n {
            assert(after[i] == entries[i]);
        } else {
            assert(entries[i].0 != entries[j].0);
        }
    }
    lemma_place_unique(after, p);
    if other != name {
        if has_name(entries, other) {
            let q = place_of(entries, other);
            assert(0 <= q < n && entries[q].0 == other);
            assert(after[q] == entries[q]);
            lemma_place_unique(after, q);
        } else if has_name(after, other) {
            let q = place_of(after, other);
            assert(0 <= q < after.len() && after[q].0 == other);
            assert(after[q] == entries[q]);
        }
    }
}

/// The place in `entries` of what stands at `i` once the entry at `p` is
/// taken out.
pub open spec fn place_before_removal(i: int, p: int) -> int {
    if i < p {
        i
    } else {
        i + 1
    }
}

/// Taking a name out keeps the names unique, leaves nothing under that
/// name, and changes what no other name gives.
pub proof fn lemma_without_entry<V>(entries: Seq<(Seq<char>, V)>, name: Seq<char>, other: Seq<char>)
    requires
        unique_names(entries),
    ensures
        unique_names(without_entry(entries, name)),
        lookup(without_entry(entries, name), name) is None,
        other != name ==> lookup(without_entry(entries, name), other) == lookup(entries, other),
{
    let after = without_entry(entries, name);
    if has_name(entries, name) {
        let p = place_of(entries, name);
        assert(0 <= p < entries.len() && entries[p].0 == name);
        assert forall|i: int| 0 <= i < after.len() implies #[trigger] after[i]
            == entries[place_before_removal(i, p)] by {}
        assert forall|i: int, j: int| 0 <= i < j < after.len() implies (#[trigger] after[i]).0
            != (#[trigger] after[j]).0 by {
            let a = place_before_removal(i, p);
            let b = place_before_removal(j, p);
            assert(entries[a].0 != entries[b].0);
        }
        if has_name(after, name) {
            let q = place_of(after, name);
            assert(0 <= q < after.len() && after[q].0 == name);
            let b = place_before_removal(q, p);
            assert(after[q] == entries[b]);
            if b < p {
                assert(entries[b].0 != entries[p].0);
            } else {
                assert(entries[p].0 != entries[b].0);
            }
        }
        if other != name {
            if has_name(entries, other) {
                let q = place_of(entries, other);
                assert(0 <= q < entries.len() && entries[q].0 == other);
                let a = if q < p {
                    q
                } else {
                    q - 1
                };
                assert(after[a] == entries[place_before_removal(a, p)]);
                lemma_place_unique(after, a);
            } else if has_name(after, other) {
                let q = place_of(after, other);
                assert(0 <= q < after.len() && after[q].0 == other);
                assert(after[q] == entries[place_before_removal(q, p)]);
            }
        }
    }
}

/// Values under unique names, in the order in which the names came.
#[derive(Debug, PartialEq, Eq)]
pub struct NameMap<V> {
    entries: Vec<(String, V)>,
}

impl<V> NameMap<V> {
    /// The names with their values, in order.
    pub closed spec fn entries(&self) -> Seq<(Seq<char>, V)> {
        Seq::new(self.entries@.len(), |i: int| (self.entries@[i].0@, self.entries@[i].1))
    }

    /// No name occurs twice.
    pub open spec fn wf(&self) -> bool {
        unique_names(self.entries())
    }

    #[verifier::type_invariant]
    spec fn unique(&self) -> bool {
        self.wf()
    }

    /// A map that holds nothing.
    pub fn new() -> (r: Self)
        ensures
            r.entries() == Seq::<(Seq<char>, V)>::empty(),
            r.wf(),
    {
        let r = NameMap { entries: Vec::new() };
        assert(r.entries() =~= Seq::<(Seq<char>, V)>::empty());
        r
    }

    /// The number of names.
    pub fn len(&self) -> (n: usize)
        ensures
            n == self.entries().len(),
            self.wf(),
    {
        proof {
            use_type_invariant(self);
        }
        self.entries.len()
    }

    /// The name at place `i`.
    pub fn name_at(&self, i: usize) -> (r: &String)
        requires
            i < self.entries().len(),
        ensures
            r@ == self.entries()[i as int].0,
    {
        &self.entries[i].0
    }

    /// The value at place `i`.
    pub fn value_at(&self, i: usize) -> (r: &V)
        requires
            i < self.entries().len(),
        ensures
            *r == self.entries()[i as int].1,
    {
        &self.entries[i].1
    }

    /// The place of `name`.
    pub fn find(&self, name: &str) -> (r: Option<usize>)
        ensures
            self.wf(),
            match r {
                Some(i) => has_name(self.entries(), name@) && i == place_of(
                    self.entries(),
                    name@,
                ) && i < self.entries().len(),
                None => !has_name(self.entries(), name@),
            },
    {
        proof {
            use_type_invariant(self);
        }
        let mut i: usize = 0;
        while i < self.entries.len()
            invariant
                i <= self.entries@.len(),
                self.wf(),
                forall|j: int| 0 <= j < i ==> (#[trigger] self.entries()[j]).0 != name@,
            decreases self.entries@.len() - i,
        {
            if equal(self.entries[i].0.as_str(), name) {
                proof {
                    assert(self.entries()[i as int].0 == name@);
                    lemma_place_unique(self.entries(), i as int);
                }
                return Some(i);
            }
            i += 1;
        }
        None
    }

    /// Whether something stands under `name`.
    pub fn contains_key(&self, name: &str) -> (r: bool)
        ensures
            r == has_name(self.entries(), name@),
    {
        self.find(name).is_some()
    }

    /// What stands under `name`.
    pub fn get(&self, name: &str) -> (r: Option<&V>)
        ensures
            match r {
                Some(v) => lookup(self.entries(), name@) == Some(*v),
                None => lookup(self.entries(), name@) is None,
            },
    {
        match self.find(name) {
            Some(i) => Some(&self.entries[i].1),
            None => None,
        }
    }

    /// Puts `value` under `name` and hands back what stood there.
    pub fn insert(&mut self, name: String, value: V) -> (r: Option<V>)
        ensures
            final(self).entries() == with_entry(old(self).entries(), name@, value),
            r == lookup(old(self).entries(), name@),
            final(self).wf(),
    {
        let ghost before = self.entries();
        proof {
            use_type_invariant(&*self);
            lemma_with_entry(before, name@, value, name@);
        }
        let found = self.find(name.as_str());
        let mut entries: Vec<(String, V)> = Vec::new();
        std::mem::swap(&mut entries, &mut self.entries);
        let r = match found {
            Some(i) => {
                let was = entries.remove(i);
                entries.insert(i, (name, value));
                Some(was.1)
            },
            None => {
                entries.push((name, value));
                None
            },
        };
        proof {
            let after = Seq::new(entries@.len(), |i: int| (entries@[i].0@, entries@[i].1));
            assert(after =~= with_entry(before, name@, value));
        }
        self.entries = entries;
        assert(self.entries() =~= with_entry(before, name@, value));
        r
    }

    /// Takes out what stands under `name` and hands it back.
    pub fn remove(&mut self, name: &str) -> (r: Option<V>)
        ensures
            final(self).entries() == without_entry(old(self).entries(), name@),
            r == lookup(old(self).entries(), name@),
            final(self).wf(),
    {
        let ghost before = self.entries();
        proof {
            use_type_invariant(&*self);
            lemma_without_entry(before, name@, name@);
        }
        let found = self.find(name);
        let mut entries: Vec<(String, V)> = Vec::new();
        std::mem::swap(&mut entries, &mut self.entries);
        let r = match found {
            Some(i) => {
                let was = entries.remove(i);
                Some(was.1)
            },
            None => None,
        };
        proof {
            let after = Seq::new(entries@.len(), |i: int| (entries@[i].0@, entries@[i].1));
            assert(after =~= without_entry(before, name@));
        }
        self.entries = entries;
        assert(self.entries() =~= without_entry(before, name@));
        r
    }
}

impl<V: Clone> Clone for NameMap<V> {
    /// A map with the same names in the same order, each with a clone of
    /// its value.
    fn clone(&self) -> (r: Self)
        ensures
            r.entries().len() == self.entries().len(),
            forall|i: int|
                0 <= i < self.entries().len() ==> (#[trigger] r.entries()[i]).0
                    == self.entries()[i].0,
    {
        proof {
            use_type_invariant(self);
        }
        let mut entries: Vec<(String, V)> = Vec::new();
        let mut i: usize = 0;
        while i < self.entries.len()
            invariant
                i <= self.entries@.len(),
                entries@.len() == i,
                forall|j: int| 0 <= j < i ==> (#[trigger] entries@[j]).0@ == self.entries@[j].0@,
            decreases self.entries@.len() - i,
        {
            entries.push((self.entries[i].0.clone(), self.entries[i].1.clone()));
            i += 1;
        }
        proof {
            let after = Seq::new(entries@.len(), |i: int| (entries@[i].0@, entries@[i].1));
            assert forall|a: int, b: int| 0 <= a < b < after.len() implies (#[trigger] after[a]).0
                != (#[trigger] after[b]).0 by {
                assert(entries@[a].0@ == self.entries@[a].0@);
                assert(entries@[b].0@ == self.entries@[b].0@);
                assert(self.entries()[a].0 != self.entries()[b].0);
            }
        }
        NameMap { entries }
    }
}

/// Where a dependency comes from: a directory on this machine, or a
/// repository to clone.
#[derive(Debug, Clone, PartialEq, Eq)]
pub enum ConfigDependency {
    Path { path: String },
    Git { git: String },
}

impl ConfigDependency {
    /// The dependency is cloned from a repository.
    pub open spec fn needs_git(&self) -> bool {
        self is Git
    }

    /// Whether the dependency is cloned from a repository.
    pub fn is_git(&self) -> (r: bool)
        ensures
            r == self.needs_git(),
    {
        match self {
            ConfigDependency::Path { .. } => false,
            ConfigDependency::Git { .. } => true,
        }
    }

    /// The dependency that a request to add one describes. A request names
    /// a repository or a directory: one that names both or neither is
    /// refused.
    pub fn from_request(git: Option<String>, path: Option<String>) -> (r: Result<Self, Error>)
        ensures
            match (git, path) {
                (Some(_), Some(_)) => r == Err::<Self, Error>(
                    Error::InvalidDependencySpec { both: true },
                ),
                (Some(g), None) => r == Ok::<Self, Error>(ConfigDependency::Git { git: g }),
                (None, Some(p)) => r == Ok::<Self, Error>(ConfigDependency::Path { path: p }),
                (None, None) => r == Err::<Self, Error>(
                    Error::InvalidDependencySpec { both: false },
                ),
            },
    {
        match (git, path) {
            (Some(_), Some(_)) => Err(Error::InvalidDependencySpec { both: true }),
            (Some(g), None) => Ok(ConfigDependency::Git { git: g }),
            (None, Some(p)) => Ok(ConfigDependency::Path { path: p }),
            (None, None) => Err(Error::InvalidDependencySpec { both: false }),
        }
    }
}

/// The package: its name and, where set, the place of the binary to build.
#[derive(Debug, Clone, PartialEq, Eq)]
pub struct ConfigPackage {
    pub name: String,
    pub bin: Option<String>,
}

/// What is set for gcc alone.
#[derive(Debug, Clone, PartialEq, Eq)]
pub struct ConfigGcc {
    pub flags: Option<Vec<String>>,
}

/// What is set for clang alone.
#[derive(Debug, Clone, PartialEq, Eq)]
pub struct ConfigClang {
    pub flags: Option<Vec<String>>,
}

/// The compiler to prefer and the flags to hand to it.
#[derive(Debug, Clone, PartialEq, Eq)]
pub struct ConfigCompiler {
    pub default: Option<String>,
    pub flags: Option<Vec<String>>,
    pub gcc: Option<ConfigGcc>,
    pub clang: Option<ConfigClang>,
}

/// What is set for clang-format: nothing so far.
#[derive(Debug, Clone, PartialEq, Eq)]
pub struct ConfigClangFormat {
}

/// What is set for uncrustify: the file that sets it up.
#[derive(Debug, Clone, PartialEq, Eq)]
pub struct ConfigUncrustify {
    pub config: String,
}

/// The formatter to prefer and what each formatter is set up with.
#[derive(Debug, Clone, PartialEq, Eq)]
pub struct ConfigFormatter {
    pub default: Option<String>,
    pub clang_format: Option<ConfigClangFormat>,
    pub uncrustify: Option<ConfigUncrustify>,
}

/// What is set for doxygen: the file that sets it up.
#[derive(Debug, Clone, PartialEq, Eq)]
pub struct ConfigDoxygen {
    pub doxyfile: String,
}

/// The documentation generator to prefer.
#[derive(Debug, Clone, PartialEq, Eq)]
pub struct ConfigDocgen {
    pub default: Option<String>,
    pub doxygen: Option<ConfigDoxygen>,
}

/// A project's configuration.
#[derive(Debug, Clone, PartialEq, Eq)]
pub struct Config {
    pub package: ConfigPackage,
    pub dependencies: NameMap<ConfigDependency>,
    pub scripts: NameMap<String>,
    pub compiler: Option<ConfigCompiler>,
    pub formatter: Option<ConfigFormatter>,
    pub docgen: Option<ConfigDocgen>,
}

impl Config {
    /// The flags that the configuration hands to every compiler.
    pub open spec fn flags(&self) -> Seq<Seq<char>> {
        match self.compiler {
            Some(c) => match c.flags {
                Some(f) => views(f@),
                None => Seq::empty(),
            },
            None => Seq::empty(),
        }
    }

    /// The compiler that the configuration prefers.
    pub open spec fn default_compiler(&self) -> Option<Seq<char>> {
        match self.compiler {
            Some(c) => match c.default {
                Some(d) => Some(d@),
                None => None,
            },
            None => None,
        }
    }

    /// The formatter that the configuration prefers.
    pub open spec fn default_formatter(&self) -> Option<Seq<char>> {
        match self.formatter {
            Some(c) => match c.default {
                Some(d) => Some(d@),
                None => None,
            },
            None => None,
        }
    }

    /// The documentation generator that the configuration prefers.
    pub open spec fn default_docgen(&self) -> Option<Seq<char>> {
        match self.docgen {
            Some(c) => match c.default {
                Some(d) => Some(d@),
                None => None,
            },
            None => None,
        }
    }

    /// The file that sets up uncrustify.
    pub open spec fn uncrustify_config(&self) -> Option<Seq<char>> {
        match self.formatter {
            Some(f) => match f.uncrustify {
                Some(u) => Some(u.config@),
                None => None,
            },
            None => None,
        }
    }

    /// `self` is the configuration of a new package called `name`: no
    /// dependencies, no scripts, nothing set for any tool.
    pub open spec fn is_fresh(&self, name: Seq<char>) -> bool {
        &&& self.package.name@ == name
        &&& self.package.bin is None
        &&& self.dependencies.entries().len() == 0
        &&& self.scripts.entries().len() == 0
        &&& self.compiler is None
        &&& self.formatter is None
        &&& self.docgen is None
    }

    /// The configuration of a new package called `name`.
    pub fn new(name: String) -> (r: Self)
        ensures
            r.is_fresh(name@),
    {
        Config {
            package: ConfigPackage { name, bin: None },
            dependencies: NameMap::new(),
            scripts: NameMap::new(),
            compiler: None,
            formatter: None,
            docgen: None,
        }
    }
}

} // verus!
