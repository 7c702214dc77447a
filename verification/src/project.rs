//! A project: a directory with a configuration file, sources below `src`,
//! tests below `tests` and what is built below `target`.

use vstd::prelude::*;
use crate::compiler::Compiler;
use crate::config::{lookup, with_entry, without_entry, Config, ConfigDependency};
use crate::error::Error;
use crate::paths::{file_stem, join, path_join, stem};
use crate::text::views;

verus! {

/// The directory of the sources, in the project's directory.
pub const SRC: &'static str = "src";

/// The directory of all that is built, in the project's directory.
pub const TARGET: &'static str = "target";

/// The directory of the installed dependencies, in the target directory.
pub const VENDOR: &'static str = "vendor";

/// The directory of the tests that stand apart from the sources, in the
/// project's directory.
pub const TESTS: &'static str = "tests";

/// The configuration file, in the project's directory.
pub const CONFIG_FILE: &'static str = "cpkg.toml";

/// The order to write a project's configuration to its file. Whatever
/// changes the configuration hands one back, so that the file never stays
/// behind.
#[must_use]
#[derive(Debug, Clone, PartialEq, Eq)]
pub struct SaveConfig {
    pub path: String,
}

/// A project at a directory, with the configuration that was loaded for it.
pub struct Project<'a> {
    path: &'a str,
    config: Config,
}

impl<'a> Project<'a> {
    /// The directory of the project.
    pub closed spec fn root(&self) -> Seq<char> {
        self.path@
    }

    /// The configuration of the project.
    pub closed spec fn settings(&self) -> Config {
        self.config
    }

    /// The directory of the sources.
    pub open spec fn src_dir(&self) -> Seq<char> {
        path_join(self.root(), SRC@)
    }

    /// The directory of all that is built.
    pub open spec fn target_dir(&self) -> Seq<char> {
        path_join(self.root(), TARGET@)
    }

    /// The directory of the installed dependencies.
    pub open spec fn vendor_dir(&self) -> Seq<char> {
        path_join(self.target_dir(), VENDOR@)
    }

    /// The directory of the tests that stand apart from the sources.
    pub open spec fn tests_dir(&self) -> Seq<char> {
        path_join(self.root(), TESTS@)
    }

    /// The configuration file of the project.
    pub open spec fn config_path(&self) -> Seq<char> {
        path_join(self.root(), CONFIG_FILE@)
    }

    /// Where the binary goes: where the configuration says, if it says so;
    /// else below the target directory, under the name of the entrypoint's
    /// file without its extension, or under the package's name where the
    /// build starts from `main.c`.
    pub open spec fn output_path(&self, entrypoint: Option<Seq<char>>) -> Seq<char> {
        match self.settings().package.bin {
            Some(bin) => bin@,
            None => match entrypoint {
                Some(entry) => path_join(self.target_dir(), file_stem(entry)->0),
                None => path_join(self.target_dir(), self.settings().package.name@),
            },
        }
    }

    /// The project at `path` with the configuration `config`.
    pub fn new(path: &'a str, config: Config) -> (r: Self)
        ensures
            r.root() == path@,
            r.settings() == config,
    {
        Project { path, config }
    }

    /// The directory of the project.
    pub fn path(&self) -> (r: &'a str)
        ensures
            r@ == self.root(),
    {
        self.path
    }

    /// The directory of the sources.
    pub fn src(&self) -> (r: String)
        ensures
            r@ == self.src_dir(),
    {
        join(self.path, SRC)
    }

    /// The directory of all that is built.
    pub fn target(&self) -> (r: String)
        ensures
            r@ == self.target_dir(),
    {
        join(self.path, TARGET)
    }

    /// The directory of the installed dependencies.
    pub fn vendor(&self) -> (r: String)
        ensures
            r@ == self.vendor_dir(),
    {
        let target = self.target();
        join(target.as_str(), VENDOR)
    }

    /// The directory of the tests that stand apart from the sources.
    pub fn tests(&self) -> (r: String)
        ensures
            r@ == self.tests_dir(),
    {
        join(self.path, TESTS)
    }

    /// The configuration file of the project.
    pub fn config_file(&self) -> (r: String)
        ensures
            r@ == self.config_path(),
    {
        join(self.path, CONFIG_FILE)
    }

    /// The configuration of the project.
    pub fn config(&self) -> (r: &Config)
        ensures
            *r == self.settings(),
    {
        &self.config
    }

    /// The name of the package.
    pub fn name(&self) -> (r: &String)
        ensures
            *r == self.settings().package.name,
    {
        &self.config.package.name
    }

    /// Lets `cb` change the configuration, and hands back what it returns
    /// with the order to write the configuration out.
    pub fn with_config<T, F: FnOnce(&mut Config) -> T>(&mut self, cb: F) -> (r: (T, SaveConfig))
        requires
            forall|c: &mut Config| *c == old(self).settings() ==> call_requires(cb, (c,)),
        ensures
            final(self).root() == old(self).root(),
            r.1.path@ == old(self).config_path(),
            exists|c: &mut Config|
                *c == old(self).settings() && *final(c) == final(self).settings()
                    && call_ensures(cb, (c,), r.0),
    {
        let r = cb(&mut self.config);
        (r, SaveConfig { path: join(self.path, CONFIG_FILE) })
    }

    /// Puts the dependency `dep` under `name`, in the place of one that
    /// went by that name, and hands back the order to write the
    /// configuration out.
    pub fn add_dep(&mut self, name: String, dep: ConfigDependency) -> (save: SaveConfig)
        ensures
            save.path@ == old(self).config_path(),
            final(self).root() == old(self).root(),
            final(self).settings().dependencies.entries() == with_entry(
                old(self).settings().dependencies.entries(),
                name@,
                dep,
            ),
            final(self).settings().dependencies.wf(),
            final(self).settings().package == old(self).settings().package,
            final(self).settings().scripts == old(self).settings().scripts,
            final(self).settings().compiler == old(self).settings().compiler,
            final(self).settings().formatter == old(self).settings().formatter,
            final(self).settings().docgen == old(self).settings().docgen,
    {
        self.config.dependencies.insert(name, dep);
        SaveConfig { path: join(self.path, CONFIG_FILE) }
    }

    /// Takes the dependency `name` out and hands it back, with the order
    /// to write the configuration out. Where there is none of that name
    /// the configuration stays as it is, and is written out all the same.
    pub fn remove_dep(&mut self, name: &str) -> (r: (Result<ConfigDependency, Error>, SaveConfig))
        ensures
            r.1.path@ == old(self).config_path(),
            final(self).root() == old(self).root(),
            final(self).settings().dependencies.entries() == without_entry(
                old(self).settings().dependencies.entries(),
                name@,
            ),
            final(self).settings().dependencies.wf(),
            final(self).settings().package == old(self).settings().package,
            final(self).settings().scripts == old(self).settings().scripts,
            final(self).settings().compiler == old(self).settings().compiler,
            final(self).settings().formatter == old(self).settings().formatter,
            final(self).settings().docgen == old(self).settings().docgen,
            match lookup(old(self).settings().dependencies.entries(), name@) {
                Some(dep) => r.0 == Ok::<ConfigDependency, Error>(dep),
                None => r.0 matches Err(Error::DependencyNotFound { name: n }) && n@ == name@,
            },
    {
        let save = SaveConfig { path: join(self.path, CONFIG_FILE) };
        match self.config.dependencies.remove(name) {
            Some(dep) => (Ok(dep), save),
            None => (Err(Error::DependencyNotFound { name: name.to_owned() }), save),
        }
    }

    /// The flags that the configuration hands to every compiler.
    pub fn configured_flags(&self) -> (r: Vec<String>)
        ensures
            views(r@) == self.settings().flags(),
    {
        match &self.config.compiler {
            Some(compiler) => match &compiler.flags {
                Some(flags) => flags.clone(),
                None => Vec::new(),
            },
            None => Vec::new(),
        }
    }

    /// The flags that the configuration hands to the compiler `backend`:
    /// the same for every compiler.
    pub fn build_flags<C: Compiler>(&self, backend: &C) -> (r: Vec<String>)
        ensures
            views(r@) == self.settings().flags(),
    {
        self.configured_flags()
    }

    /// Where the binary goes that is built from `entrypoint`, the path of a
    /// source file, or from `main.c` where there is none.
    pub fn build_out(&self, entrypoint: Option<&str>) -> (r: String)
        requires
            self.settings().package.bin is None ==> (entrypoint matches Some(entry) ==> file_stem(
                entry@,
            ) is Some),
        ensures
            r@ == self.output_path(
                match entrypoint {
                    Some(entry) => Some(entry@),
                    None => None,
                },
            ),
    {
        match &self.config.package.bin {
            Some(bin) => bin.clone(),
            None => {
                let target = self.target();
                match entrypoint {
                    Some(entry) => match stem(entry) {
                        Some(s) => join(target.as_str(), s.as_str()),
                        None => target,
                    },
                    None => join(target.as_str(), self.config.package.name.as_str()),
                }
            },
        }
    }
}

} // verus!
