//! How a project comes to be: made anew, set up in a directory that is
//! there, or opened where one was set up before.

use vstd::prelude::*;
use vstd::string::StringExecFns;
use crate::compiler::{CommandLine, CommandLineView};
use crate::config::Config;
use crate::error::Error;
use crate::host::{is_dir, is_file, is_installed, is_present};
use crate::paths::{file_name, join, name_of, path_join};
use crate::project::{Project, CONFIG_FILE, SRC};
use crate::text::views;

verus! {

/// One thing to do to set a project up.
#[derive(Debug, Clone, PartialEq, Eq)]
pub enum SetupStep {
    /// Make the directory `path`.
    MakeDir { path: String },
    /// Make the directory `path` unless it is there.
    EnsureDir { path: String },
    /// Write `contents` to the file `path`.
    WriteFile { path: String, contents: String },
    /// Write the project's configuration to the file `path`.
    WriteConfig { path: String },
    /// Run `command` and wait for it to end.
    Run { command: CommandLine },
}

/// A step as the text that it holds.
pub enum SetupStepView {
    MakeDir { path: Seq<char> },
    EnsureDir { path: Seq<char> },
    WriteFile { path: Seq<char>, contents: Seq<char> },
    WriteConfig { path: Seq<char> },
    Run { command: CommandLineView },
}

impl View for SetupStep {
    type V = SetupStepView;

    open spec fn view(&self) -> SetupStepView {
        match self {
            SetupStep::MakeDir { path } => SetupStepView::MakeDir { path: path@ },
            SetupStep::EnsureDir { path } => SetupStepView::EnsureDir { path: path@ },
            SetupStep::WriteFile { path, contents } => SetupStepView::WriteFile {
                path: path@,
                contents: contents@,
            },
            SetupStep::WriteConfig { path } => SetupStepView::WriteConfig { path: path@ },
            SetupStep::Run { command } => SetupStepView::Run { command: command@ },
        }
    }
}

/// The views of a sequence of steps.
pub open spec fn setup_views(steps: Seq<SetupStep>) -> Seq<SetupStepView> {
    Seq::new(steps.len(), |i: int| steps[i]@)
}

/// The program that a new project starts with.
pub open spec fn hello_source() -> Seq<char> {
    "#include <stdio.h>\n\nint main() {\n\tprintf(\"Hello, world!\\n\");\n\treturn 0;\n}\n"@
}

/// The test that a new project starts with.
pub open spec fn hello_test() -> Seq<char> {
    "#include <assert.h>\n\nint main() {\n\tassert( (1 + 2 == 3) && \"C is broken\" );\n}\n"@
}

/// What a new project keeps out of version control.
pub open spec fn ignored() -> Seq<char> {
    "/target\n"@
}

/// The command that puts the directory `path` under version control.
pub open spec fn version_control(path: Seq<char>) -> CommandLineView {
    CommandLineView { program: "git"@, args: seq!["init"@], dir: Some(path) }
}

/// The steps that set a project up in the directory `path`: the source
/// directory with a program and a test, the configuration and, where
/// there is git, version control.
pub open spec fn setup_steps(path: Seq<char>, has_git: bool) -> Seq<SetupStepView> {
    let src = path_join(path, SRC@);
    let files = seq![
        SetupStepView::EnsureDir { path: src },
        SetupStepView::WriteFile { path: path_join(src, "main.c"@), contents: hello_source() },
        SetupStepView::WriteFile { path: path_join(src, "main.test.c"@), contents: hello_test() },
        SetupStepView::WriteConfig { path: path_join(path, CONFIG_FILE@) },
    ];
    if has_git {
        files.push(
            SetupStepView::WriteFile { path: path_join(path, ".gitignore"@), contents: ignored() },
        ).push(SetupStepView::Run { command: version_control(path) })
    } else {
        files
    }
}

/// The steps that set a project up in `path`, as values.
fn steps_for(path: &str, has_git: bool) -> (steps: Vec<SetupStep>)
    ensures
        setup_views(steps@) == setup_steps(path@, has_git),
{
    let src = join(path, SRC);
    let mut steps: Vec<SetupStep> = Vec::new();
    steps.push(SetupStep::EnsureDir { path: src.clone() });
    steps.push(
        SetupStep::WriteFile {
            path: join(src.as_str(), "main.c"),
            contents: String::from_str(
                "#include <stdio.h>\n\nint main() {\n\tprintf(\"Hello, world!\\n\");\n\treturn 0;\n}\n",
            ),
        },
    );
    steps.push(
        SetupStep::WriteFile {
            path: join(src.as_str(), "main.test.c"),
            contents: String::from_str(
                "#include <assert.h>\n\nint main() {\n\tassert( (1 + 2 == 3) && \"C is broken\" );\n}\n",
            ),
        },
    );
    steps.push(SetupStep::WriteConfig { path: join(path, CONFIG_FILE) });
    if has_git {
        steps.push(
            SetupStep::WriteFile {
                path: join(path, ".gitignore"),
                contents: String::from_str("/target\n"),
            },
        );
        let mut args: Vec<String> = Vec::new();
        args.push(String::from_str("init"));
        assert(views(args@) =~= seq!["init"@]);
        steps.push(
            SetupStep::Run {
                command: CommandLine {
                    program: String::from_str("git"),
                    args,
                    dir: Some(String::from_str(path)),
                },
            },
        );
    }
    assert(setup_views(steps@) =~= setup_steps(path@, has_git));
    steps
}

impl<'a> Project<'a> {
    /// `r` is what setting a project up in `path` comes to: a refusal where
    /// `path` is no directory, holds a project already or has no name to
    /// call the package by, and else the new project, called as the
    /// directory is, with the steps that set it up.
    pub open spec fn init_decided(
        path: Seq<char>,
        is_dir: bool,
        has_config: bool,
        has_git: bool,
        r: Result<(Project<'a>, Vec<SetupStep>), Error>,
    ) -> bool {
        if !is_dir {
            r matches Err(Error::InitNotADirectory { path: p }) && p@ == path
        } else if has_config {
            r == Err::<(Project<'a>, Vec<SetupStep>), Error>(Error::AlreadyInitialized)
        } else if file_name(path) is None {
            r matches Err(Error::UnnamedDirectory { path: p }) && p@ == path
        } else {
            r matches Ok((project, steps)) && project.root() == path && project.settings().is_fresh(
                file_name(path)->0,
            ) && setup_views(steps@) == setup_steps(path, has_git)
        }
    }

    /// `r` is what making a project at `path` comes to: a refusal where
    /// something is at `path` or the path has no name to call the package
    /// by, and else the new project, called as the directory is, with the
    /// steps that make the directory and set the project up in it.
    pub open spec fn create_decided(
        path: Seq<char>,
        occupied: bool,
        has_git: bool,
        r: Result<(Project<'a>, Vec<SetupStep>), Error>,
    ) -> bool {
        if occupied {
            r matches Err(Error::PathExists { path: p }) && p@ == path
        } else if file_name(path) is None {
            r matches Err(Error::UnnamedDirectory { path: p }) && p@ == path
        } else {
            r matches Ok((project, steps)) && project.root() == path && project.settings().is_fresh(
                file_name(path)->0,
            ) && setup_views(steps@) == seq![SetupStepView::MakeDir { path }] + setup_steps(
                path,
                has_git,
            )
        }
    }

    /// `r` is what looking for the configuration of a project at `path`
    /// comes to: the path of the file, or a refusal where `path` is no
    /// directory or the file is not in it.
    pub open spec fn config_found(
        path: Seq<char>,
        is_dir: bool,
        has_config: bool,
        r: Result<String, Error>,
    ) -> bool {
        if !is_dir {
            r matches Err(Error::OpenNotADirectory { path: p }) && p@ == path
        } else if !has_config {
            r == Err::<String, Error>(Error::MissingConfig)
        } else {
            r matches Ok(file) && file@ == path_join(path, CONFIG_FILE@)
        }
    }

    /// Decides how a project is set up in `path`, where `is_dir` says
    /// whether `path` is a directory, `has_config` whether it holds a
    /// configuration file, and `has_git` whether there is git. The package
    /// is called as the directory is, so that no project is set up in a
    /// directory without a name.
    pub fn plan_init(path: &'a str, is_dir: bool, has_config: bool, has_git: bool) -> (r: Result<
        (Project<'a>, Vec<SetupStep>),
        Error,
    >)
        ensures
            Self::init_decided(path@, is_dir, has_config, has_git, r),
    {
        if !is_dir {
            return Err(Error::InitNotADirectory { path: String::from_str(path) });
        }
        if has_config {
            return Err(Error::AlreadyInitialized);
        }
        match name_of(path) {
            Some(name) => Ok((Project::new(path, Config::new(name)), steps_for(path, has_git))),
            None => Err(Error::UnnamedDirectory { path: String::from_str(path) }),
        }
    }

    /// Decides how a project is made at `path`, where `occupied` says
    /// whether something is at `path` and `has_git` whether there is git.
    /// The package is called as the directory is, so that no directory is
    /// made for a project at a path without a name.
    pub fn plan_create(path: &'a str, occupied: bool, has_git: bool) -> (r: Result<
        (Project<'a>, Vec<SetupStep>),
        Error,
    >)
        ensures
            Self::create_decided(path@, occupied, has_git, r),
    {
        if occupied {
            return Err(Error::PathExists { path: String::from_str(path) });
        }
        let name = match name_of(path) {
            Some(name) => name,
            None => {
                return Err(Error::UnnamedDirectory { path: String::from_str(path) });
            },
        };
        let project = Project::new(path, Config::new(name));
        let mut steps: Vec<SetupStep> = Vec::new();
        steps.push(SetupStep::MakeDir { path: String::from_str(path) });
        let mut rest = steps_for(path, has_git);
        let ghost tail = setup_views(rest@);
        steps.append(&mut rest);
        assert(setup_views(steps@) =~= seq![SetupStepView::MakeDir { path: path@ }] + tail);
        Ok((project, steps))
    }

    /// Decides where the configuration of the project at `path` is read
    /// from, where `is_dir` says whether `path` is a directory and
    /// `has_config` whether the configuration file is in it.
    pub fn find_config(path: &str, is_dir: bool, has_config: bool) -> (r: Result<String, Error>)
        ensures
            Self::config_found(path@, is_dir, has_config, r),
    {
        if !is_dir {
            return Err(Error::OpenNotADirectory { path: String::from_str(path) });
        }
        if !has_config {
            return Err(Error::MissingConfig);
        }
        Ok(join(path, CONFIG_FILE))
    }

    /// Decides how a project is made at `path`, as the machine stands:
    /// `plan_create` on what the machine answers.
    pub fn create(path: &'a str) -> (r: Result<(Project<'a>, Vec<SetupStep>), Error>)
        ensures
            exists|occupied: bool, has_git: bool| #[trigger]
                Self::create_decided(path@, occupied, has_git, r),
    {
        let occupied = is_present(path);
        let has_git = !occupied && is_installed("git");
        let r = Self::plan_create(path, occupied, has_git);
        assert(Self::create_decided(path@, occupied, has_git, r));
        r
    }

    /// Decides how a project is set up in `path`, as the machine stands:
    /// `plan_init` on what the machine answers.
    pub fn init(path: &'a str) -> (r: Result<(Project<'a>, Vec<SetupStep>), Error>)
        ensures
            exists|is_dir: bool, has_config: bool, has_git: bool| #[trigger]
                Self::init_decided(path@, is_dir, has_config, has_git, r),
    {
        let is_dir = is_dir(path);
        let config = join(path, CONFIG_FILE);
        let has_config = is_dir && is_present(config.as_str());
        let has_git = is_dir && !has_config && is_installed("git");
        let r = Self::plan_init(path, is_dir, has_config, has_git);
        assert(Self::init_decided(path@, is_dir, has_config, has_git, r));
        r
    }

    /// Decides where the configuration of the project at `path` is read
    /// from, as the machine stands: `find_config` on what the machine
    /// answers.
    pub fn locate_config(path: &str) -> (r: Result<String, Error>)
        ensures
            exists|is_dir: bool, has_config: bool| #[trigger]
                Self::config_found(path@, is_dir, has_config, r),
    {
        let is_dir = is_dir(path);
        let config = join(path, CONFIG_FILE);
        let has_config = is_dir && is_file(config.as_str());
        let r = Self::find_config(path, is_dir, has_config);
        assert(Self::config_found(path@, is_dir, has_config, r));
        r
    }

    /// The project at `path` with the configuration that was decoded from
    /// its file, or the failure to decode it.
    pub fn open(path: &'a str, decoded: Result<Config, String>) -> (r: Result<Project<'a>, Error>)
        ensures
            match decoded {
                Ok(config) => r matches Ok(project) && project.root() == path@
                    && project.settings() == config,
                Err(message) => r == Err::<Project<'a>, Error>(
                    Error::ConfigDecodeError { message },
                ),
            },
    {
        match decoded {
            Ok(config) => Ok(Project::new(path, config)),
            Err(message) => Err(Error::ConfigDecodeError { message }),
        }
    }
}

} // verus!
