//! Documentation generators: what makes one write the documentation of a
//! project, what shows the result, and what its answer means.

use vstd::prelude::*;
use vstd::string::StringExecFns;
use crate::backend::{
    candidate_table, candidates, lemma_selected_is_candidate, located, selected, survey,
};
use crate::compiler::{CommandLine, CommandLineView};
use crate::error::{BackendKind, Error};
use crate::host::{lossy, lossy_text, Exit, Platform};
use crate::install::FileToWrite;
use crate::paths::{join, path_join};
use crate::project::Project;
use crate::text::{equal, option_view, views};

verus! {

/// What makes a generator write documentation: the file to set it up
/// with, where it takes one, and the command to run.
#[derive(Debug, Clone, PartialEq, Eq)]
pub struct DocJob {
    pub setup: Option<FileToWrite>,
    pub command: CommandLine,
}

/// A job as the text that it holds.
pub struct DocJobView {
    pub setup: Option<(Seq<char>, Seq<char>)>,
    pub command: CommandLineView,
}

impl View for DocJob {
    type V = DocJobView;

    open spec fn view(&self) -> DocJobView {
        DocJobView {
            setup: match self.setup {
                Some(file) => Some((file.path@, file.contents@)),
                None => None,
            },
            command: self.command@,
        }
    }
}

/// A documentation generator.
pub trait Docgen {
    /// What writes the documentation of the sources in `src` to `to`.
    spec fn generate_plan(&self, src: Seq<char>, to: Seq<char>) -> DocJobView;

    /// The command that shows the documentation in `to` on a machine of
    /// the kind `platform`, where the generator has one.
    spec fn open_plan(&self, to: Seq<char>, platform: Platform) -> Option<CommandLineView>;

    /// What writes the documentation of the sources in `src` to `to`,
    /// without doing it.
    fn generate(&self, src: &str, to: &str) -> (job: DocJob)
        ensures
            job@ == self.generate_plan(src@, to@),
    ;

    /// The command that shows the documentation in `to` on a machine of
    /// the kind `platform`, without running it; a failure where the
    /// generator cannot show what it made.
    fn open(&self, to: &str, platform: Platform) -> (r: Result<CommandLine, Error>)
        ensures
            match self.open_plan(to@, platform) {
                Some(plan) => r matches Ok(cmd) && cmd@ == plan,
                None => r == Err::<CommandLine, Error>(Error::OpenUnsupported),
            },
    ;
}

/// The generator doxygen.
#[derive(Debug, Clone, Copy, PartialEq, Eq)]
pub struct Doxygen;

/// The generator cldoc.
#[derive(Debug, Clone, Copy, PartialEq, Eq)]
pub struct Cldoc;

/// One of the known generators.
#[derive(Debug, Clone, Copy, PartialEq, Eq)]
pub enum Generator {
    Doxygen(Doxygen),
    Cldoc(Cldoc),
}

/// What doxygen is set up with: the sources two directories up, the
/// output where it runs.
pub open spec fn doxyfile() -> Seq<char> {
    "INPUT=../../src\nOUTPUT_DIRECTORY=.\n"@
}

/// The command that shows the file `path` in the program that the desktop
/// of a machine of the kind `platform` opens it with.
pub open spec fn show(path: Seq<char>, platform: Platform) -> CommandLineView {
    match platform {
        Platform::Linux => CommandLineView { program: "xdg-open"@, args: seq![path], dir: None },
        Platform::Windows => CommandLineView {
            program: "cmd"@,
            args: seq!["-C"@, "start"@, path],
            dir: None,
        },
    }
}

impl Docgen for Doxygen {
    open spec fn generate_plan(&self, src: Seq<char>, to: Seq<char>) -> DocJobView {
        DocJobView {
            setup: Some((path_join(to, "Doxyfile"@), doxyfile())),
            command: CommandLineView { program: "doxygen"@, args: Seq::empty(), dir: Some(to) },
        }
    }

    open spec fn open_plan(&self, to: Seq<char>, platform: Platform) -> Option<CommandLineView> {
        Some(show(path_join(to, "html/index.html"@), platform))
    }

    fn generate(&self, src: &str, to: &str) -> (job: DocJob) {
        let args: Vec<String> = Vec::new();
        assert(views(args@) =~= Seq::<Seq<char>>::empty());
        DocJob {
            setup: Some(
                FileToWrite {
                    path: join(to, "Doxyfile"),
                    contents: String::from_str("INPUT=../../src\nOUTPUT_DIRECTORY=.\n"),
                },
            ),
            command: CommandLine {
                program: String::from_str("doxygen"),
                args,
                dir: Some(String::from_str(to)),
            },
        }
    }

    fn open(&self, to: &str, platform: Platform) -> (r: Result<CommandLine, Error>) {
        let index = join(to, "html/index.html");
        let mut args: Vec<String> = Vec::new();
        match platform {
            Platform::Linux => {
                args.push(index);
                assert(views(args@) =~= seq![path_join(to@, "html/index.html"@)]);
                Ok(CommandLine { program: String::from_str("xdg-open"), args, dir: None })
            },
            Platform::Windows => {
                args.push(String::from_str("-C"));
                args.push(String::from_str("start"));
                args.push(index);
                assert(views(args@) =~= seq![
                    "-C"@,
                    "start"@,
                    path_join(to@, "html/index.html"@),
                ]);
                Ok(CommandLine { program: String::from_str("cmd"), args, dir: None })
            },
        }
    }
}

impl Docgen for Cldoc {
    open spec fn generate_plan(&self, src: Seq<char>, to: Seq<char>) -> DocJobView {
        DocJobView {
            setup: None,
            command: CommandLineView {
                program: "cldoc"@,
                args: seq!["generate"@, "--"@, "--output"@, to, src],
                dir: None,
            },
        }
    }

    open spec fn open_plan(&self, to: Seq<char>, platform: Platform) -> Option<CommandLineView> {
        None
    }

    fn generate(&self, src: &str, to: &str) -> (job: DocJob) {
        let mut args: Vec<String> = Vec::new();
        args.push(String::from_str("generate"));
        args.push(String::from_str("--"));
        args.push(String::from_str("--output"));
        args.push(String::from_str(to));
        args.push(String::from_str(src));
        assert(views(args@) =~= seq!["generate"@, "--"@, "--output"@, to@, src@]);
        DocJob {
            setup: None,
            command: CommandLine { program: String::from_str("cldoc"), args, dir: None },
        }
    }

    fn open(&self, to: &str, platform: Platform) -> (r: Result<CommandLine, Error>) {
        Err(Error::OpenUnsupported)
    }
}

impl Docgen for Generator {
    open spec fn generate_plan(&self, src: Seq<char>, to: Seq<char>) -> DocJobView {
        match self {
            Generator::Doxygen(g) => g.generate_plan(src, to),
            Generator::Cldoc(g) => g.generate_plan(src, to),
        }
    }

    open spec fn open_plan(&self, to: Seq<char>, platform: Platform) -> Option<CommandLineView> {
        match self {
            Generator::Doxygen(g) => g.open_plan(to, platform),
            Generator::Cldoc(g) => g.open_plan(to, platform),
        }
    }

    fn generate(&self, src: &str, to: &str) -> (job: DocJob) {
        match self {
            Generator::Doxygen(g) => g.generate(src, to),
            Generator::Cldoc(g) => g.generate(src, to),
        }
    }

    fn open(&self, to: &str, platform: Platform) -> (r: Result<CommandLine, Error>) {
        match self {
            Generator::Doxygen(g) => g.open(to, platform),
            Generator::Cldoc(g) => g.open(to, platform),
        }
    }
}

impl Generator {
    /// The name that the generator is chosen by.
    pub open spec fn name(&self) -> Seq<char> {
        match self {
            Generator::Doxygen(_) => "doxygen"@,
            Generator::Cldoc(_) => "cldoc"@,
        }
    }
}

/// What the end of a generator's run means: success, or a failure with
/// what the generator wrote.
pub fn generate_result(success: bool, stderr: String) -> (r: Result<(), Error>)
    ensures
        success ==> r is Ok,
        !success ==> r == Err::<(), Error>(Error::DocgenFailed { stderr }),
{
    if success {
        Ok(())
    } else {
        Err(Error::DocgenFailed { stderr })
    }
}

/// What the end of a generator's run means, where what the generator wrote
/// comes as bytes: `generate_result` on the text that the bytes make.
pub fn generate_ended(exit: &Exit) -> (r: Result<(), Error>)
    ensures
        exit.success ==> r is Ok,
        !exit.success ==> (r matches Err(Error::DocgenFailed { stderr }) && stderr@ == lossy_text(
            exit.stderr@,
        )),
{
    generate_result(exit.success, lossy(&exit.stderr))
}

/// The generator that the configuration of `proj` prefers.
fn preferred<'p>(proj: &'p Project) -> (r: Option<&'p String>)
    ensures
        option_view(r) == proj.settings().default_docgen(),
{
    match &proj.config().docgen {
        Some(c) => c.default.as_ref(),
        None => None,
    }
}

/// The known generator that is chosen by `name`.
fn called(name: &str) -> (r: Generator)
    requires
        candidates(BackendKind::Docgen).contains(name@),
    ensures
        r.name() == name@,
{
    if equal(name, "doxygen") {
        Generator::Doxygen(Doxygen)
    } else {
        assert(name@ == "cldoc"@);
        Generator::Cldoc(Cldoc)
    }
}

/// A choice among the generators with the name of the generator that was
/// chosen.
pub open spec fn by_name(r: Result<Generator, Error>) -> Result<Seq<char>, Error> {
    match r {
        Ok(generator) => Ok(generator.name()),
        Err(e) => Err(e),
    }
}

/// Chooses the generator to work with, where `available` says of each
/// place of the order of trial whether its generator is installed: the one
/// that the project's configuration prefers, if it is installed, and else
/// the first of the known generators that is. A preferred generator that
/// is not known is refused, whatever is installed.
pub fn select(proj: &Project, available: &Vec<bool>) -> (r: Result<Generator, Error>)
    ensures
        selected(
            BackendKind::Docgen,
            candidates(BackendKind::Docgen),
            proj.settings().default_docgen(),
            available@,
            by_name(r),
        ),
{
    let table = candidate_table(BackendKind::Docgen);
    match crate::backend::select(BackendKind::Docgen, &table, preferred(proj), available) {
        Ok(name) => {
            proof {
                lemma_selected_is_candidate(
                    BackendKind::Docgen,
                    candidates(BackendKind::Docgen),
                    proj.settings().default_docgen(),
                    available@,
                    name@,
                );
            }
            Ok(called(name.as_str()))
        },
        Err(e) => Err(e),
    }
}

/// Chooses the generator to work with as the machine stands: the one that
/// the project's configuration prefers, if the machine says that it is
/// installed, and else the first of the known generators of which it says
/// so.
pub fn try_locate(proj: &Project) -> (r: Result<Generator, Error>)
    ensures
        located(
            BackendKind::Docgen,
            candidates(BackendKind::Docgen),
            proj.settings().default_docgen(),
            by_name(r),
        ),
{
    let table = candidate_table(BackendKind::Docgen);
    match survey(BackendKind::Docgen, &table, preferred(proj)) {
        Ok(answers) => {
            let r = select(proj, &answers);
            assert(selected(
                BackendKind::Docgen,
                candidates(BackendKind::Docgen),
                proj.settings().default_docgen(),
                answers@,
                by_name(r),
            ));
            r
        },
        Err(e) => {
            assert(selected(
                BackendKind::Docgen,
                candidates(BackendKind::Docgen),
                proj.settings().default_docgen(),
                Seq::<bool>::empty(),
                by_name(Err(e)),
            ));
            Err(e)
        },
    }
}

} // verus!
