//! What can go wrong, and how each failure is worded.

use vstd::prelude::*;
use vstd::string::StringExecFns;

verus! {

/// The three kinds of tool that a project is worked on with.
#[derive(Debug, Clone, Copy, PartialEq, Eq, Structural)]
pub enum BackendKind {
    Compiler,
    Formatter,
    Docgen,
}

/// A failure of one of the library's operations.
#[derive(Debug, Clone, PartialEq, Eq)]
pub enum Error {
    /// None of the tools of this kind is installed.
    NoBackendAvailable { kind: BackendKind },
    /// The configuration prefers a tool that is not among the known ones.
    UnrecognizedDefault { kind: BackendKind, name: String },
    /// The project has no `main.c` to build from.
    NoEntrypoint,
    /// The source file of the entrypoint asked for is not among the sources.
    EntrypointNotFound { path: String },
    /// The compiler failed; `duplicate_entrypoint` says that it found the
    /// program's entrypoint defined more than once.
    CompileFailed { stderr: String, duplicate_entrypoint: bool },
    /// A dependency names both a directory and a repository, or neither.
    InvalidDependencySpec { both: bool },
    /// A dependency is to be cloned and there is no git to clone it with.
    DependencyMissingGit { name: String },
    /// There is no dependency of this name to remove.
    DependencyNotFound { name: String },
    /// The configuration file could not be decoded.
    ConfigDecodeError { message: String },
    /// A test wrote something to its error stream that is not UTF-8.
    Utf8DecodeError,
    /// A project was to be created where something exists already.
    PathExists { path: String },
    /// A project was to be set up in something that is not a directory.
    InitNotADirectory { path: String },
    /// A project was to be opened in something that is not a directory.
    OpenNotADirectory { path: String },
    /// A project was to be set up where one exists already.
    AlreadyInitialized,
    /// A project was to be made or set up in a directory that has no name
    /// to call the package by.
    UnnamedDirectory { path: String },
    /// The directory holds no configuration file.
    MissingConfig,
    /// The formatter failed.
    FormatFailed { stderr: String },
    /// The documentation generator failed.
    DocgenFailed { stderr: String },
    /// The documentation generator cannot show what it made.
    OpenUnsupported,
}

impl Error {
    /// The failure in words.
    pub open spec fn text(&self) -> Seq<char> {
        match self {
            Error::NoBackendAvailable { kind } => match kind {
                BackendKind::Compiler => "Couldn't find a compiler backend."@,
                BackendKind::Formatter => "Couldn't find a formatting backend"@,
                BackendKind::Docgen => "Couldn't find a docgen backend"@,
            },
            Error::UnrecognizedDefault { kind, name } => match kind {
                BackendKind::Compiler => "Unrecognized default compiler: "@ + name@,
                BackendKind::Formatter => "Unrecognized default formatter: "@ + name@,
                BackendKind::Docgen => "Unrecognized default doc generator: "@ + name@,
            },
            Error::NoEntrypoint => "Couldn't find main.c to build!"@,
            Error::EntrypointNotFound { path } => "Entrypoint "@ + path@ + " does not exist!"@,
            Error::CompileFailed { stderr, duplicate_entrypoint } => if *duplicate_entrypoint {
                stderr@ + "\n(cpkg: did you mean to run with --bin?)"@
            } else {
                stderr@
            },
            Error::InvalidDependencySpec { both } => if *both {
                "Cannot be both git and path dependencies"@
            } else {
                "Must provide either --git or --path, for now."@
            },
            Error::DependencyMissingGit { name } => "Cannot install dependency '"@ + name@
                + "' without git."@,
            Error::DependencyNotFound { name } => "Could not find dependency "@ + name@
                + " to remove"@,
            Error::ConfigDecodeError { message } => message@,
            Error::Utf8DecodeError => "invalid utf-8 in the output of a test"@,
            Error::PathExists { path } => "Failed to create project at "@ + path@
                + ": path already exists"@,
            Error::InitNotADirectory { path } => "Failed to initialize project at "@ + path@
                + ": not a directory."@,
            Error::OpenNotADirectory { path } => "Failed to open project "@ + path@
                + ": not a directory."@,
            Error::AlreadyInitialized => "Cannot initialize project at existing cpkg project."@,
            Error::UnnamedDirectory { path } => "Failed to name the package of the project at "@
                + path@ + ": the directory has no name."@,
            Error::MissingConfig => "No cpkg.toml detected, this doesn't seem to be a valid project."@,
            Error::FormatFailed { stderr } => "Failed to format files. "@ + stderr@,
            Error::DocgenFailed { stderr } => "Failed to generate documentation: "@ + stderr@,
            Error::OpenUnsupported => "Open is not yet implemented for cldoc. Sorry!"@,
        }
    }

    /// The failure in words.
    pub fn message(&self) -> (r: String)
        ensures
            r@ == self.text(),
    {
        match self {
            Error::NoBackendAvailable { kind } => match kind {
                BackendKind::Compiler => String::from_str("Couldn't find a compiler backend."),
                BackendKind::Formatter => String::from_str("Couldn't find a formatting backend"),
                BackendKind::Docgen => String::from_str("Couldn't find a docgen backend"),
            },
            Error::UnrecognizedDefault { kind, name } => {
                let mut r = match kind {
                    BackendKind::Compiler => String::from_str("Unrecognized default compiler: "),
                    BackendKind::Formatter => String::from_str("Unrecognized default formatter: "),
                    BackendKind::Docgen => String::from_str(
                        "Unrecognized default doc generator: ",
                    ),
                };
                r.append(name.as_str());
                r
            },
            Error::NoEntrypoint => String::from_str("Couldn't find main.c to build!"),
            Error::EntrypointNotFound { path } => around("Entrypoint ", path, " does not exist!"),
            Error::CompileFailed { stderr, duplicate_entrypoint } => {
                let mut r = String::from_str(stderr.as_str());
                if *duplicate_entrypoint {
                    r.append("\n(cpkg: did you mean to run with --bin?)");
                }
                r
            },
            Error::InvalidDependencySpec { both } => if *both {
                String::from_str("Cannot be both git and path dependencies")
            } else {
                String::from_str("Must provide either --git or --path, for now.")
            },
            Error::DependencyMissingGit { name } => around(
                "Cannot install dependency '",
                name,
                "' without git.",
            ),
            Error::DependencyNotFound { name } => around(
                "Could not find dependency ",
                name,
                " to remove",
            ),
            Error::ConfigDecodeError { message } => String::from_str(message.as_str()),
            Error::Utf8DecodeError => String::from_str("invalid utf-8 in the output of a test"),
            Error::PathExists { path } => around(
                "Failed to create project at ",
                path,
                ": path already exists",
            ),
            Error::InitNotADirectory { path } => around(
                "Failed to initialize project at ",
                path,
                ": not a directory.",
            ),
            Error::OpenNotADirectory { path } => around(
                "Failed to open project ",
                path,
                ": not a directory.",
            ),
            Error::AlreadyInitialized => String::from_str(
                "Cannot initialize project at existing cpkg project.",
            ),
            Error::UnnamedDirectory { path } => around(
                "Failed to name the package of the project at ",
                path,
                ": the directory has no name.",
            ),
            Error::MissingConfig => String::from_str(
                "No cpkg.toml detected, this doesn't seem to be a valid project.",
            ),
            Error::FormatFailed { stderr } => {
                let mut r = String::from_str("Failed to format files. ");
                r.append(stderr.as_str());
                r
            },
            Error::DocgenFailed { stderr } => {
                let mut r = String::from_str("Failed to generate documentation: ");
                r.append(stderr.as_str());
                r
            },
            Error::OpenUnsupported => String::from_str(
                "Open is not yet implemented for cldoc. Sorry!",
            ),
        }
    }
}

/// `middle` with `before` in front of it and `after` behind it.
fn around(before: &str, middle: &String, after: &str) -> (r: String)
    ensures
        r@ == before@ + middle@ + after@,
{
    let mut r = String::from_str(before);
    r.append(middle.as_str());
    r.append(after);
    r
}

} // verus!
