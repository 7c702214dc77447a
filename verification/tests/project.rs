use cpkg::compiler::Gcc;
use cpkg::config::{Config, ConfigCompiler, ConfigDependency};
use cpkg::error::{BackendKind, Error};
use cpkg::project::{Project, SaveConfig};

fn strings(items: &[&str]) -> Vec<String> {
    items.iter().map(|s| s.to_string()).collect()
}

fn libfoo() -> ConfigDependency {
    ConfigDependency::Path { path: "../libfoo".to_string() }
}

#[test]
fn the_directories_of_a_project() {
    let proj = Project::new("proj", Config::new("demo".to_string()));
    assert_eq!(proj.path(), "proj");
    assert_eq!(proj.src(), "proj/src");
    assert_eq!(proj.target(), "proj/target");
    assert_eq!(proj.vendor(), "proj/target/vendor");
    assert_eq!(proj.tests(), "proj/tests");
    assert_eq!(proj.config_file(), "proj/cpkg.toml");
}

#[test]
fn the_directories_of_a_project_at_an_odd_place() {
    let here = Project::new("", Config::new("demo".to_string()));
    assert_eq!(here.src(), "src");
    assert_eq!(here.vendor(), "target/vendor");
    let slash = Project::new("/work/proj/", Config::new("demo".to_string()));
    assert_eq!(slash.src(), "/work/proj/src");
    assert_eq!(slash.tests(), "/work/proj/tests");
}

#[test]
fn a_project_is_called_as_its_package() {
    let proj = Project::new("proj", Config::new("demo".to_string()));
    assert_eq!(proj.name(), "demo");
    assert_eq!(proj.config().package.name, "demo");
}

#[test]
fn the_configured_flags_go_to_every_compiler() {
    let mut config = Config::new("demo".to_string());
    let plain = Project::new("proj", config.clone());
    assert_eq!(plain.build_flags(&Gcc::new("gcc".to_string())), Vec::<String>::new());
    config.compiler = Some(ConfigCompiler { default: None, flags: None, gcc: None, clang: None });
    let unset = Project::new("proj", config.clone());
    assert_eq!(unset.build_flags(&Gcc::new("gcc".to_string())), Vec::<String>::new());
    config.compiler = Some(ConfigCompiler {
        default: None,
        flags: Some(strings(&["-O2", "-Wall"])),
        gcc: None,
        clang: None,
    });
    let set = Project::new("proj", config);
    assert_eq!(set.build_flags(&Gcc::new("gcc".to_string())), strings(&["-O2", "-Wall"]));
    assert_eq!(set.build_flags(&Gcc::new("clang".to_string())), strings(&["-O2", "-Wall"]));
    assert_eq!(set.configured_flags(), strings(&["-O2", "-Wall"]));
}

#[test]
fn an_added_dependency_is_in_the_configuration_at_once() {
    let mut proj = Project::new("proj", Config::new("demo".to_string()));
    let save = proj.add_dep("libfoo".to_string(), libfoo());
    assert_eq!(save, SaveConfig { path: "proj/cpkg.toml".to_string() });
    assert_eq!(proj.config().dependencies.get("libfoo"), Some(&libfoo()));
    assert_eq!(proj.config().dependencies.len(), 1);
}

#[test]
fn a_dependency_that_is_added_again_takes_the_place_of_the_first() {
    let mut proj = Project::new("proj", Config::new("demo".to_string()));
    let _ = proj.add_dep("libfoo".to_string(), libfoo());
    let git = ConfigDependency::Git { git: "https://example.org/foo.git".to_string() };
    let _ = proj.add_dep("libfoo".to_string(), git.clone());
    assert_eq!(proj.config().dependencies.len(), 1);
    assert_eq!(proj.config().dependencies.get("libfoo"), Some(&git));
}

#[test]
fn a_removed_dependency_is_out_of_the_configuration_at_once() {
    let mut proj = Project::new("proj", Config::new("demo".to_string()));
    let _ = proj.add_dep("libfoo".to_string(), libfoo());
    let (removed, save) = proj.remove_dep("libfoo");
    assert_eq!(removed, Ok(libfoo()));
    assert_eq!(save, SaveConfig { path: "proj/cpkg.toml".to_string() });
    assert_eq!(proj.config().dependencies.get("libfoo"), None);
    assert_eq!(proj.config().dependencies.len(), 0);
}

#[test]
fn a_dependency_that_is_not_there_cannot_be_removed() {
    let mut proj = Project::new("proj", Config::new("demo".to_string()));
    let _ = proj.add_dep("libfoo".to_string(), libfoo());
    let (removed, save) = proj.remove_dep("libbar");
    assert_eq!(removed, Err(Error::DependencyNotFound { name: "libbar".to_string() }));
    assert_eq!(save.path, "proj/cpkg.toml");
    assert_eq!(proj.config().dependencies.len(), 1);
}

#[test]
fn a_change_of_the_configuration_is_to_be_written_out() {
    let mut proj = Project::new("proj", Config::new("demo".to_string()));
    let (old, save) = proj.with_config(|config: &mut Config| {
        std::mem::replace(&mut config.package.name, "renamed".to_string())
    });
    assert_eq!(old, "demo");
    assert_eq!(save.path, "proj/cpkg.toml");
    assert_eq!(proj.name(), "renamed");
}

#[test]
fn every_failure_has_its_words() {
    let cases = vec![
        (
            Error::NoBackendAvailable { kind: BackendKind::Compiler },
            "Couldn't find a compiler backend.",
        ),
        (
            Error::NoBackendAvailable { kind: BackendKind::Formatter },
            "Couldn't find a formatting backend",
        ),
        (Error::NoBackendAvailable { kind: BackendKind::Docgen }, "Couldn't find a docgen backend"),
        (
            Error::UnrecognizedDefault { kind: BackendKind::Compiler, name: "tcc".to_string() },
            "Unrecognized default compiler: tcc",
        ),
        (
            Error::UnrecognizedDefault { kind: BackendKind::Formatter, name: "x".to_string() },
            "Unrecognized default formatter: x",
        ),
        (
            Error::UnrecognizedDefault { kind: BackendKind::Docgen, name: "y".to_string() },
            "Unrecognized default doc generator: y",
        ),
        (Error::NoEntrypoint, "Couldn't find main.c to build!"),
        (
            Error::EntrypointNotFound { path: "proj/src/tool.c".to_string() },
            "Entrypoint proj/src/tool.c does not exist!",
        ),
        (
            Error::CompileFailed { stderr: "oops".to_string(), duplicate_entrypoint: false },
            "oops",
        ),
        (
            Error::CompileFailed { stderr: "oops".to_string(), duplicate_entrypoint: true },
            "oops\n(cpkg: did you mean to run with --bin?)",
        ),
        (Error::InvalidDependencySpec { both: true }, "Cannot be both git and path dependencies"),
        (
            Error::InvalidDependencySpec { both: false },
            "Must provide either --git or --path, for now.",
        ),
        (
            Error::DependencyMissingGit { name: "libbar".to_string() },
            "Cannot install dependency 'libbar' without git.",
        ),
        (
            Error::DependencyNotFound { name: "libbar".to_string() },
            "Could not find dependency libbar to remove",
        ),
        (Error::ConfigDecodeError { message: "bad toml".to_string() }, "bad toml"),
        (Error::Utf8DecodeError, "invalid utf-8 in the output of a test"),
        (
            Error::PathExists { path: "proj".to_string() },
            "Failed to create project at proj: path already exists",
        ),
        (
            Error::InitNotADirectory { path: "proj".to_string() },
            "Failed to initialize project at proj: not a directory.",
        ),
        (
            Error::OpenNotADirectory { path: "proj".to_string() },
            "Failed to open project proj: not a directory.",
        ),
        (Error::AlreadyInitialized, "Cannot initialize project at existing cpkg project."),
        (
            Error::UnnamedDirectory { path: "..".to_string() },
            "Failed to name the package of the project at ..: the directory has no name.",
        ),
        (
            Error::MissingConfig,
            "No cpkg.toml detected, this doesn't seem to be a valid project.",
        ),
    ];
    for (error, words) in cases {
        assert_eq!(error.message(), words);
    }
}
