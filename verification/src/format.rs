//! Formatters: the command that makes one rewrite the files of a project
//! in place, and what its answer means.

use vstd::prelude::*;
use vstd::string::StringExecFns;
use crate::backend::{
    candidate_table, candidates, lemma_selected_is_candidate, located, selected, survey,
};
use crate::compiler::{CommandLine, CommandLineView};
use crate::config::Config;
use crate::error::{BackendKind, Error};
use crate::host::{lossy, lossy_text, Exit};
use crate::project::Project;
use crate::sources::listed_below;
use crate::text::{equal, extend, option_view, views};

verus! {

/// A formatter.
pub trait Format {
    /// The command that formats `files` under the configuration `config`.
    spec fn format_plan(&self, config: Config, files: Seq<Seq<char>>) -> CommandLineView;

    /// The command that formats `files` for the project, without running
    /// it.
    fn format_command(&self, proj: &Project, files: &Vec<String>) -> (cmd: CommandLine)
        ensures
            cmd@ == self.format_plan(proj.settings(), views(files@)),
    ;
}

/// The formatter clang-format.
#[derive(Debug, Clone, Copy, PartialEq, Eq)]
pub struct ClangFormat;

/// The formatter uncrustify.
#[derive(Debug, Clone, Copy, PartialEq, Eq)]
pub struct Uncrustify;

/// One of the known formatters.
#[derive(Debug, Clone, Copy, PartialEq, Eq)]
pub enum Formatter {
    ClangFormat(ClangFormat),
    Uncrustify(Uncrustify),
}

/// The arguments that hand uncrustify its configuration file, where the
/// project names one.
pub open spec fn uncrustify_setup(config: Config) -> Seq<Seq<char>> {
    match config.uncrustify_config() {
        Some(file) => seq!["-c"@, file],
        None => Seq::empty(),
    }
}

impl Format for ClangFormat {
    open spec fn format_plan(&self, config: Config, files: Seq<Seq<char>>) -> CommandLineView {
        CommandLineView { program: "clang-format"@, args: files.push("-i"@), dir: None }
    }

    fn format_command(&self, proj: &Project, files: &Vec<String>) -> (cmd: CommandLine) {
        let mut args: Vec<String> = Vec::new();
        assert(views(args@) =~= Seq::<Seq<char>>::empty());
        extend(&mut args, files);
        let ghost listed = views(args@);
        args.push(String::from_str("-i"));
        assert(views(args@) =~= views(files@).push("-i"@));
        CommandLine { program: String::from_str("clang-format"), args, dir: None }
    }
}

impl Format for Uncrustify {
    open spec fn format_plan(&self, config: Config, files: Seq<Seq<char>>) -> CommandLineView {
        CommandLineView {
            program: "uncrustify"@,
            args: (uncrustify_setup(config) + files).push("--no-backup"@),
            dir: None,
        }
    }

    fn format_command(&self, proj: &Project, files: &Vec<String>) -> (cmd: CommandLine) {
        let mut args: Vec<String> = Vec::new();
        assert(views(args@) =~= Seq::<Seq<char>>::empty());
        match &proj.config().formatter {
            Some(formatter) => match &formatter.uncrustify {
                Some(uncrustify) => {
                    args.push(String::from_str("-c"));
                    args.push(uncrustify.config.clone());
                    assert(views(args@) =~= seq!["-c"@, uncrustify.config@]);
                },
                None => {},
            },
            None => {},
        }
        assert(views(args@) == uncrustify_setup(proj.settings()));
        extend(&mut args, files);
        let ghost listed = views(args@);
        args.push(String::from_str("--no-backup"));
        assert(views(args@) =~= listed.push("--no-backup"@));
        CommandLine { program: String::from_str("uncrustify"), args, dir: None }
    }
}

impl Format for Formatter {
    open spec fn format_plan(&self, config: Config, files: Seq<Seq<char>>) -> CommandLineView {
        match self {
            Formatter::ClangFormat(f) => f.format_plan(config, files),
            Formatter::Uncrustify(f) => f.format_plan(config, files),
        }
    }

    fn format_command(&self, proj: &Project, files: &Vec<String>) -> (cmd: CommandLine) {
        match self {
            Formatter::ClangFormat(f) => f.format_command(proj, files),
            Formatter::Uncrustify(f) => f.format_command(proj, files),
        }
    }
}

impl Formatter {
    /// The name that the formatter is chosen by.
    pub open spec fn name(&self) -> Seq<char> {
        match self {
            Formatter::ClangFormat(_) => "clang-format"@,
            Formatter::Uncrustify(_) => "uncrustify"@,
        }
    }

    /// The command that formats the files of the project as they stand on
    /// disk: `format_command` on the files that are listed below `src`.
    pub fn format(&self, proj: &Project) -> (cmd: CommandLine)
        ensures
            exists|files: Seq<Seq<char>>|
                listed_below(proj.src_dir(), files) && cmd@ == #[trigger] self.format_plan(
                    proj.settings(),
                    files,
                ),
    {
        let files = proj.src_files();
        let cmd = self.format_command(proj, &files);
        assert(cmd@ == self.format_plan(proj.settings(), views(files@)));
        cmd
    }
}

/// What the end of a formatter's run means: success, or a failure with
/// what the formatter wrote.
pub fn format_result(success: bool, stderr: String) -> (r: Result<(), Error>)
    ensures
        success ==> r is Ok,
        !success ==> r == Err::<(), Error>(Error::FormatFailed { stderr }),
{
    if success {
        Ok(())
    } else {
        Err(Error::FormatFailed { stderr })
    }
}

/// What the end of a formatter's run means, where what the formatter wrote
/// comes as bytes: `format_result` on the text that the bytes make.
pub fn format_ended(exit: &Exit) -> (r: Result<(), Error>)
    ensures
        exit.success ==> r is Ok,
        !exit.success ==> (r matches Err(Error::FormatFailed { stderr }) && stderr@ == lossy_text(
            exit.stderr@,
        )),
{
    format_result(exit.success, lossy(&exit.stderr))
}

/// The formatter that the configuration of `proj` prefers.
fn preferred<'p>(proj: &'p Project) -> (r: Option<&'p String>)
    ensures
        option_view(r) == proj.settings().default_formatter(),
{
    match &proj.config().formatter {
        Some(c) => c.default.as_ref(),
        None => None,
    }
}

/// The known formatter that is chosen by `name`.
fn called(name: &str) -> (r: Formatter)
    requires
        candidates(BackendKind::Formatter).contains(name@),
    ensures
        r.name() == name@,
{
    if equal(name, "clang-format") {
        Formatter::ClangFormat(ClangFormat)
    } else {
        assert(name@ == "uncrustify"@);
        Formatter::Uncrustify(Uncrustify)
    }
}

/// A choice among the formatters with the name of the formatter that was
/// chosen.
pub open spec fn by_name(r: Result<Formatter, Error>) -> Result<Seq<char>, Error> {
    match r {
        Ok(formatter) => Ok(formatter.name()),
        Err(e) => Err(e),
    }
}

/// Chooses the formatter to work with, where `available` says of each
/// place of the order of trial whether its formatter is installed: the one
/// that the project's configuration prefers, if it is installed, and else
/// the first of the known formatters that is. A preferred formatter that
/// is not known is refused, whatever is installed.
pub fn select(proj: &Project, available: &Vec<bool>) -> (r: Result<Formatter, Error>)
    ensures
        selected(
            BackendKind::Formatter,
            candidates(BackendKind::Formatter),
            proj.settings().default_formatter(),
            available@,
            by_name(r),
        ),
{
    let table = candidate_table(BackendKind::Formatter);
    match crate::backend::select(BackendKind::Formatter, &table, preferred(proj), available) {
        Ok(name) => {
            proof {
                lemma_selected_is_candidate(
                    BackendKind::Formatter,
                    candidates(BackendKind::Formatter),
                    proj.settings().default_formatter(),
                    available@,
                    name@,
                );
            }
            Ok(called(name.as_str()))
        },
        Err(e) => Err(e),
    }
}

/// Chooses the formatter to work with as the machine stands: the one that
/// the project's configuration prefers, if the machine says that it is
/// installed, and else the first of the known formatters of which it says
/// so.
pub fn try_locate(proj: &Project) -> (r: Result<Formatter, Error>)
    ensures
        located(
            BackendKind::Formatter,
            candidates(BackendKind::Formatter),
            proj.settings().default_formatter(),
            by_name(r),
        ),
{
    let table = candidate_table(BackendKind::Formatter);
    match survey(BackendKind::Formatter, &table, preferred(proj)) {
        Ok(answers) => {
            let r = select(proj, &answers);
            assert(selected(
                BackendKind::Formatter,
                candidates(BackendKind::Formatter),
                proj.settings().default_formatter(),
                answers@,
                by_name(r),
            ));
            r
        },
        Err(e) => {
            assert(selected(
                BackendKind::Formatter,
                candidates(BackendKind::Formatter),
                proj.settings().default_formatter(),
                Seq::<bool>::empty(),
                by_name(Err(e)),
            ));
            Err(e)
        },
    }
}

} // verus!
