//! The installation of dependencies: what to link or clone into the vendor
//! directory.
//!
//! A dependency that is found in the vendor directory under its name counts
//! as installed and is left as it is. A dependency on a directory is linked
//! there; one on a repository is cloned there, which takes git.

use vstd::prelude::*;
use vstd::string::StringExecFns;
use crate::config::ConfigDependency;
use crate::error::Error;
use crate::host::{is_installed, is_present, yes_at};
use crate::paths::{join, path_join};
use crate::project::Project;
use crate::text::views;

verus! {

/// One thing to do for a dependency.
#[derive(Debug, Clone, PartialEq, Eq)]
pub enum InstallStep {
    /// Link the directory `from` to `to`.
    Link { from: String, to: String },
    /// Clone the repository `url` into `to`, without waiting for the clone
    /// to end.
    Clone { url: String, to: String },
}

/// A step as the text that it holds.
pub enum InstallStepView {
    Link { from: Seq<char>, to: Seq<char> },
    Clone { url: Seq<char>, to: Seq<char> },
}

impl View for InstallStep {
    type V = InstallStepView;

    open spec fn view(&self) -> InstallStepView {
        match self {
            InstallStep::Link { from, to } => InstallStepView::Link { from: from@, to: to@ },
            InstallStep::Clone { url, to } => InstallStepView::Clone { url: url@, to: to@ },
        }
    }
}

/// A file to write.
#[derive(Debug, Clone, PartialEq, Eq)]
pub struct FileToWrite {
    pub path: String,
    pub contents: String,
}

/// What an installation does: the directories to make where they are
/// missing, the file to write for the editor's language server, and the
/// steps for the dependencies, or the reason why none can be taken.
#[derive(Debug, PartialEq, Eq)]
pub struct InstallPlan {
    pub dirs: Vec<String>,
    pub flags_file: Option<FileToWrite>,
    pub steps: Result<Vec<InstallStep>, Error>,
}

/// The views of a sequence of steps.
pub open spec fn step_views(steps: Seq<InstallStep>) -> Seq<InstallStepView> {
    Seq::new(steps.len(), |i: int| steps[i]@)
}

/// What is done for the dependency `dep` called `name`, with `vendor` the
/// vendor directory.
pub open spec fn step_for(vendor: Seq<char>, name: Seq<char>, dep: ConfigDependency) -> InstallStepView {
    match dep {
        ConfigDependency::Path { path } => InstallStepView::Link {
            from: path@,
            to: path_join(vendor, name),
        },
        ConfigDependency::Git { git } => InstallStepView::Clone {
            url: git@,
            to: path_join(vendor, name),
        },
    }
}

/// The steps for the dependencies `deps`: one for each that `installed`
/// does not say to be installed, in their order.
pub open spec fn install_steps(
    vendor: Seq<char>,
    deps: Seq<(Seq<char>, ConfigDependency)>,
    installed: Seq<bool>,
) -> Seq<InstallStepView>
    decreases deps.len(),
{
    if deps.len() == 0 {
        Seq::empty()
    } else {
        let rest = install_steps(vendor, deps.drop_last(), installed);
        if yes_at(installed, deps.len() - 1) {
            rest
        } else {
            rest.push(step_for(vendor, deps.last().0, deps.last().1))
        }
    }
}

/// The dependency at `i` is the first one that is cloned.
pub open spec fn is_first_git(deps: Seq<(Seq<char>, ConfigDependency)>, i: int) -> bool {
    &&& 0 <= i < deps.len()
    &&& deps[i].1.needs_git()
    &&& forall|j: int| 0 <= j < i ==> !(#[trigger] deps[j]).1.needs_git()
}

/// `r` is what the steps of an installation come to: a failure that names
/// the first dependency to clone where there is one and git is missing,
/// and else the steps for what is not installed.
pub open spec fn steps_decided(
    vendor: Seq<char>,
    deps: Seq<(Seq<char>, ConfigDependency)>,
    has_git: bool,
    installed: Seq<bool>,
    r: Result<Vec<InstallStep>, Error>,
) -> bool {
    match r {
        Ok(steps) => step_views(steps@) == install_steps(vendor, deps, installed) && (has_git
            || forall|j: int| 0 <= j < deps.len() ==> !(#[trigger] deps[j]).1.needs_git()),
        Err(e) => !has_git && exists|i: int| #[trigger]
            is_first_git(deps, i) && (e matches Error::DependencyMissingGit { name } && name@
                == deps[i].0),
    }
}

/// The flags that the editor's language server is to compile with.
pub open spec fn editor_flags() -> Seq<char> {
    "-I./target/vendor"@
}

impl<'a> Project<'a> {
    /// The file that tells the editor's language server how to compile.
    pub open spec fn editor_flags_file(&self) -> Seq<char> {
        path_join(self.root(), "compile_flags.txt"@)
    }

    /// `plan` is what an installation does for the project where the
    /// machine answers as the four arguments between say: whether there is
    /// a language server, whether its file of flags exists, whether there
    /// is git, and which dependencies are installed.
    pub open spec fn install_decided(
        &self,
        has_clangd: bool,
        has_flags_file: bool,
        has_git: bool,
        installed: Seq<bool>,
        plan: InstallPlan,
    ) -> bool {
        &&& views(plan.dirs@) == seq![self.target_dir(), self.vendor_dir()]
        &&& if has_clangd && !has_flags_file {
            plan.flags_file matches Some(file) && file.path@ == self.editor_flags_file()
                && file.contents@ == editor_flags()
        } else {
            plan.flags_file is None
        }
        &&& steps_decided(
            self.vendor_dir(),
            self.settings().dependencies.entries(),
            has_git,
            installed,
            plan.steps,
        )
    }

    /// Decides what an installation does. The target and the vendor
    /// directory are to exist. Where there is a language server and no file
    /// of flags for it, that file is written. A dependency to clone needs
    /// git: where that is missing, no step is taken for any dependency.
    /// Else each dependency that `installed` does not say to be installed
    /// is linked or cloned.
    pub fn plan_install(
        &self,
        has_clangd: bool,
        has_flags_file: bool,
        has_git: bool,
        installed: &Vec<bool>,
    ) -> (plan: InstallPlan)
        ensures
            self.install_decided(has_clangd, has_flags_file, has_git, installed@, plan),
    {
        let vendor = self.vendor();
        let mut dirs: Vec<String> = Vec::new();
        dirs.push(self.target());
        dirs.push(self.vendor());
        assert(views(dirs@) =~= seq![self.target_dir(), self.vendor_dir()]);
        let flags_file = if has_clangd && !has_flags_file {
            Some(
                FileToWrite {
                    path: join(self.path(), "compile_flags.txt"),
                    contents: String::from_str("-I./target/vendor"),
                },
            )
        } else {
            None
        };
        let deps = &self.config().dependencies;
        let n = deps.len();
        let ghost entries = deps.entries();
        if !has_git {
            let mut g: usize = 0;
            while g < n
                invariant
                    g <= n,
                    n == entries.len(),
                    entries == deps.entries(),
                    entries == self.settings().dependencies.entries(),
                    views(dirs@) == seq![self.target_dir(), self.vendor_dir()],
                    if has_clangd && !has_flags_file {
                        flags_file matches Some(file) && file.path@ == self.editor_flags_file()
                            && file.contents@ == editor_flags()
                    } else {
                        flags_file is None
                    },
                    !has_git,
                    forall|j: int| 0 <= j < g ==> !(#[trigger] entries[j]).1.needs_git(),
                decreases n - g,
            {
                if deps.value_at(g).is_git() {
                    assert(is_first_git(entries, g as int));
                    let name = deps.name_at(g).clone();
                    return InstallPlan {
                        dirs,
                        flags_file,
                        steps: Err(Error::DependencyMissingGit { name }),
                    };
                }
                g += 1;
            }
        }
        let mut steps: Vec<InstallStep> = Vec::new();
        let mut i: usize = 0;
        assert(entries.take(0) =~= Seq::<(Seq<char>, ConfigDependency)>::empty());
        assert(step_views(steps@) =~= Seq::<InstallStepView>::empty());
        while i < n
            invariant
                i <= n,
                n == entries.len(),
                entries == deps.entries(),
                vendor@ == self.vendor_dir(),
                step_views(steps@) == install_steps(
                    self.vendor_dir(),
                    entries.take(i as int),
                    installed@,
                ),
            decreases n - i,
        {
            let ghost before = step_views(steps@);
            proof {
                assert(entries.take(i + 1).drop_last() =~= entries.take(i as int));
                assert(entries.take(i + 1).last() == entries[i as int]);
            }
            let present = i < installed.len() && installed[i];
            if !present {
                let to = join(vendor.as_str(), deps.name_at(i).as_str());
                let step = match deps.value_at(i) {
                    ConfigDependency::Path { path } => InstallStep::Link { from: path.clone(), to },
                    ConfigDependency::Git { git } => InstallStep::Clone { url: git.clone(), to },
                };
                assert(step@ == step_for(
                    self.vendor_dir(),
                    entries[i as int].0,
                    entries[i as int].1,
                ));
                steps.push(step);
                assert(step_views(steps@) =~= before.push(step@));
            }
            i += 1;
        }
        assert(entries.take(n as int) =~= entries);
        InstallPlan { dirs, flags_file, steps: Ok(steps) }
    }

    /// Decides what an installation does for the project as the machine
    /// stands: `plan_install` on what the machine answers.
    pub fn install_deps(&self) -> (plan: InstallPlan)
        ensures
            exists|has_clangd: bool, has_flags_file: bool, has_git: bool, installed: Seq<bool>|
             #[trigger]
                self.install_decided(has_clangd, has_flags_file, has_git, installed, plan),
    {
        let has_clangd = is_installed("clangd");
        let flags_file = join(self.path(), "compile_flags.txt");
        let has_flags_file = has_clangd && is_present(flags_file.as_str());
        let has_git = is_installed("git");
        let vendor = self.vendor();
        let deps = &self.config().dependencies;
        let n = deps.len();
        let mut installed: Vec<bool> = Vec::new();
        let mut i: usize = 0;
        while i < n
            invariant
                i <= n,
                n == deps.entries().len(),
            decreases n - i,
        {
            let dir = join(vendor.as_str(), deps.name_at(i).as_str());
            installed.push(is_present(dir.as_str()));
            i += 1;
        }
        let plan = self.plan_install(has_clangd, has_flags_file, has_git, &installed);
        assert(self.install_decided(has_clangd, has_flags_file, has_git, installed@, plan));
        plan
    }
}

/// A dependency that is installed gets no step, whatever the others get:
/// with every dependency installed nothing is left to do.
pub proof fn lemma_installed_is_left_alone(
    vendor: Seq<char>,
    deps: Seq<(Seq<char>, ConfigDependency)>,
    installed: Seq<bool>,
)
    requires
        forall|i: int| 0 <= i < deps.len() ==> yes_at(installed, i),
    ensures
        install_steps(vendor, deps, installed).len() == 0,
    decreases deps.len(),
{
    if deps.len() > 0 {
        assert(yes_at(installed, deps.len() - 1));
        lemma_installed_is_left_alone(vendor, deps.drop_last(), installed);
    }
}

} // verus!
