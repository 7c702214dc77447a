//! Compilers: what one is asked to do, the command that asks it, and what
//! its answer means.

use vstd::prelude::*;
use vstd::string::StringExecFns;
use crate::backend::{candidate_table, candidates, located, selected, survey};
use crate::error::{BackendKind, Error};
use crate::host::{lossy, lossy_text, Exit};
use crate::project::Project;
use crate::text::{contains, contains_text, extend, join, joined, option_view, views};

verus! {

/// A program to run, the arguments to run it with and, where it matters,
/// the directory to run it in.
#[derive(Debug, Clone, PartialEq, Eq)]
pub struct CommandLine {
    pub program: String,
    pub args: Vec<String>,
    pub dir: Option<String>,
}

/// One call of a compiler: the sources in the order in which they are
/// handed over, the directories to search for headers, the binary to write
/// and the flags to pass on.
#[derive(Debug, Clone, PartialEq, Eq)]
pub struct CompileRequest {
    pub files: Vec<String>,
    pub include_dirs: Vec<String>,
    pub output: String,
    pub flags: Vec<String>,
}

/// A command as the text that it holds.
pub struct CommandLineView {
    pub program: Seq<char>,
    pub args: Seq<Seq<char>>,
    pub dir: Option<Seq<char>>,
}

impl View for CommandLine {
    type V = CommandLineView;

    open spec fn view(&self) -> CommandLineView {
        CommandLineView {
            program: self.program@,
            args: views(self.args@),
            dir: match self.dir {
                Some(d) => Some(d@),
                None => None,
            },
        }
    }
}

/// A call of a compiler as the text that it holds.
pub struct CompileRequestView {
    pub files: Seq<Seq<char>>,
    pub include_dirs: Seq<Seq<char>>,
    pub output: Seq<char>,
    pub flags: Seq<Seq<char>>,
}

impl View for CompileRequest {
    type V = CompileRequestView;

    open spec fn view(&self) -> CompileRequestView {
        CompileRequestView {
            files: views(self.files@),
            include_dirs: views(self.include_dirs@),
            output: self.output@,
            flags: views(self.flags@),
        }
    }
}

/// The command with which the compiler `program` carries out `request`.
pub open spec fn compile_command(program: Seq<char>, request: CompileRequestView) -> CommandLineView {
    CommandLineView {
        program,
        args: compile_args(request.files, request.include_dirs, request.output, request.flags),
        dir: None,
    }
}

/// The arguments that make a compiler search each of `dirs` for headers.
pub open spec fn include_args(dirs: Seq<Seq<char>>) -> Seq<Seq<char>>
    decreases dirs.len(),
{
    if dirs.len() == 0 {
        Seq::empty()
    } else {
        include_args(dirs.drop_last()).push("-I"@).push(dirs.last())
    }
}

/// The arguments of a compiler for one call: the sources, the binary to
/// write, the flags as they are, then the directories to search.
pub open spec fn compile_args(
    files: Seq<Seq<char>>,
    dirs: Seq<Seq<char>>,
    output: Seq<char>,
    flags: Seq<Seq<char>>,
) -> Seq<Seq<char>> {
    files + seq!["-o"@, output] + flags + include_args(dirs)
}

/// What the linker writes when it finds the program's entrypoint defined
/// more than once.
pub open spec fn duplicate_entrypoint_note() -> Seq<char> {
    "multiple definition of `main"@
}

/// A makefile that builds the package `name` into `bin` with the compiler
/// `cc` and the flags `flags`.
pub open spec fn makefile_text(
    cc: Seq<char>,
    name: Seq<char>,
    bin: Seq<char>,
    flags: Seq<Seq<char>>,
) -> Seq<char> {
    "CC = "@ + cc + "\n\n"@ + name + ": $(wildcard src/*)\n\t$(CC) $(wildcard src/*.c) -o "@ + bin
        + " "@ + joined(flags, " "@) + "\n"@
}

/// What the end of a compiler's run means: success, or a failure with what
/// the compiler wrote, marked where that holds the linker's note of a
/// second entrypoint.
pub fn compile_result(success: bool, stderr: String) -> (r: Result<(), Error>)
    ensures
        success ==> r is Ok,
        !success ==> r == Err::<(), Error>(
            Error::CompileFailed {
                stderr,
                duplicate_entrypoint: contains_text(stderr@, duplicate_entrypoint_note()),
            },
        ),
{
    if success {
        Ok(())
    } else {
        let duplicate_entrypoint = contains(stderr.as_str(), "multiple definition of `main");
        Err(Error::CompileFailed { stderr, duplicate_entrypoint })
    }
}

/// `r` is what the end `exit` of a compiler's run means: success, or a
/// failure with what the compiler wrote, as text.
pub open spec fn compile_ended_as(exit: Exit, r: Result<(), Error>) -> bool {
    if exit.success {
        r is Ok
    } else {
        r matches Err(Error::CompileFailed { stderr, duplicate_entrypoint }) && stderr@
            == lossy_text(exit.stderr@) && duplicate_entrypoint == contains_text(
            stderr@,
            duplicate_entrypoint_note(),
        )
    }
}

/// What the end of a compiler's run means, where what the compiler wrote
/// comes as bytes: `compile_result` on the text that the bytes make.
pub fn compile_ended(exit: &Exit) -> (r: Result<(), Error>)
    ensures
        compile_ended_as(*exit, r),
{
    compile_result(exit.success, lossy(&exit.stderr))
}

/// A compiler.
pub trait Compiler {
    /// The program that compiles.
    spec fn program(&self) -> Seq<char>;

    /// The command that carries out `request`, without running it.
    fn get_compile_command(&self, request: &CompileRequest) -> (cmd: CommandLine)
        ensures
            cmd@ == compile_command(self.program(), request@),
    ;

    /// A makefile that builds the project with this compiler.
    fn makefile(&self, proj: &Project) -> (text: String)
        ensures
            text@ == makefile_text(
                self.program(),
                proj.settings().package.name@,
                proj.output_path(None),
                proj.settings().flags(),
            ),
    ;
}

/// A compiler that is called as gcc is.
#[derive(Debug, Clone, PartialEq, Eq)]
pub struct Gcc {
    bin: String,
}

impl Gcc {
    /// The compiler that is run as `bin`.
    pub fn new(bin: String) -> (r: Self)
        ensures
            r.program() == bin@,
    {
        Gcc { bin }
    }

    /// The program that is run.
    pub fn bin(&self) -> (r: &String)
        ensures
            r@ == self.program(),
    {
        &self.bin
    }
}

impl Compiler for Gcc {
    closed spec fn program(&self) -> Seq<char> {
        self.bin@
    }

    fn get_compile_command(&self, request: &CompileRequest) -> (cmd: CommandLine) {
        let mut args: Vec<String> = Vec::new();
        assert(views(args@) =~= Seq::<Seq<char>>::empty());
        extend(&mut args, &request.files);
        let ghost files = views(args@);
        args.push(String::from_str("-o"));
        args.push(request.output.clone());
        assert(views(args@) =~= files + seq!["-o"@, request.output@]);
        extend(&mut args, &request.flags);
        let ghost head = views(args@);
        let mut i: usize = 0;
        while i < request.include_dirs.len()
            invariant
                i <= request.include_dirs.len(),
                views(args@) == head + include_args(
                    views(request.include_dirs@).take(i as int),
                ),
            decreases request.include_dirs.len() - i,
        {
            let ghost now = views(args@);
            let ghost dirs = views(request.include_dirs@);
            args.push(String::from_str("-I"));
            args.push(request.include_dirs[i].clone());
            proof {
                assert(dirs.take(i + 1).drop_last() =~= dirs.take(i as int));
                assert(dirs.take(i + 1).last() == request.include_dirs[i as int]@);
                assert(views(args@) =~= now.push("-I"@).push(request.include_dirs[i as int]@));
            }
            i += 1;
        }
        proof {
            let dirs = views(request.include_dirs@);
            assert(dirs.take(dirs.len() as int) =~= dirs);
        }
        CommandLine { program: self.bin.clone(), args, dir: None }
    }

    fn makefile(&self, proj: &Project) -> (text: String) {
        let flags = join(&proj.configured_flags(), " ");
        let bin = proj.build_out(None);
        let mut text = String::from_str("CC = ");
        text.append(self.bin.as_str());
        text.append("\n\n");
        text.append(proj.name().as_str());
        text.append(": $(wildcard src/*)\n\t$(CC) $(wildcard src/*.c) -o ");
        text.append(bin.as_str());
        text.append(" ");
        text.append(flags.as_str());
        text.append("\n");
        text
    }
}

/// The compiler that the configuration of `proj` prefers.
pub open spec fn preferred_compiler(proj: Option<&Project>) -> Option<Seq<char>> {
    match proj {
        Some(p) => p.settings().default_compiler(),
        None => None,
    }
}

/// The compiler that the configuration of `proj` prefers.
fn preferred<'p>(proj: Option<&'p Project>) -> (r: Option<&'p String>)
    ensures
        option_view(r) == preferred_compiler(proj),
{
    match proj {
        Some(p) => match &p.config().compiler {
            Some(c) => c.default.as_ref(),
            None => None,
        },
        None => None,
    }
}

/// A choice among the compilers with the program of the compiler that was
/// chosen.
pub open spec fn by_program(r: Result<Gcc, Error>) -> Result<Seq<char>, Error> {
    match r {
        Ok(gcc) => Ok(gcc.program()),
        Err(e) => Err(e),
    }
}

/// Chooses the compiler to work with, where `available` says of each place
/// of the order of trial whether its compiler is installed: the one that
/// the project's configuration prefers, if it is installed, and else the
/// first of the known compilers that is. A preferred compiler that is not
/// known is refused, whatever is installed.
pub fn select(proj: Option<&Project>, available: &Vec<bool>) -> (r: Result<Gcc, Error>)
    ensures
        selected(
            BackendKind::Compiler,
            candidates(BackendKind::Compiler),
            preferred_compiler(proj),
            available@,
            by_program(r),
        ),
{
    let table = candidate_table(BackendKind::Compiler);
    match crate::backend::select(BackendKind::Compiler, &table, preferred(proj), available) {
        Ok(bin) => Ok(Gcc { bin }),
        Err(e) => Err(e),
    }
}

/// Chooses the compiler to work with as the machine stands: the one that
/// the project's configuration prefers, if the machine says that it is
/// installed, and else the first of the known compilers of which it says
/// so.
pub fn try_locate(proj: Option<&Project>) -> (r: Result<Gcc, Error>)
    ensures
        located(
            BackendKind::Compiler,
            candidates(BackendKind::Compiler),
            preferred_compiler(proj),
            by_program(r),
        ),
{
    let table = candidate_table(BackendKind::Compiler);
    match survey(BackendKind::Compiler, &table, preferred(proj)) {
        Ok(answers) => {
            let r = select(proj, &answers);
            assert(selected(
                BackendKind::Compiler,
                candidates(BackendKind::Compiler),
                preferred_compiler(proj),
                answers@,
                by_program(r),
            ));
            r
        },
        Err(e) => {
            assert(selected(
                BackendKind::Compiler,
                candidates(BackendKind::Compiler),
                preferred_compiler(proj),
                Seq::<bool>::empty(),
                by_program(Err(e)),
            ));
            Err(e)
        },
    }
}

} // verus!
