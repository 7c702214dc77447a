use cpkg::compiler::CommandLine;
use cpkg::config::{Config, ConfigDocgen};
use cpkg::docgen::{
    generate_ended, generate_result, select, try_locate, Cldoc, DocJob, Docgen, Doxygen,
    Generator,
};
use cpkg::host::{Exit, Platform};
use cpkg::error::{BackendKind, Error};
use cpkg::install::FileToWrite;
use cpkg::project::Project;

fn strings(items: &[&str]) -> Vec<String> {
    items.iter().map(|s| s.to_string()).collect()
}

#[test]
fn doxygen_is_set_up_and_run_where_the_documentation_goes() {
    assert_eq!(
        Doxygen.generate("src", "target/doc"),
        DocJob {
            setup: Some(FileToWrite {
                path: "target/doc/Doxyfile".to_string(),
                contents: "INPUT=../../src\nOUTPUT_DIRECTORY=.\n".to_string(),
            }),
            command: CommandLine {
                program: "doxygen".to_string(),
                args: Vec::new(),
                dir: Some("target/doc".to_string()),
            },
        }
    );
}

#[test]
fn cldoc_is_told_sources_and_output() {
    assert_eq!(
        Cldoc.generate("src", "target/doc"),
        DocJob {
            setup: None,
            command: CommandLine {
                program: "cldoc".to_string(),
                args: strings(&["generate", "--", "--output", "target/doc", "src"]),
                dir: None,
            },
        }
    );
}

#[test]
fn doxygen_shows_the_index_of_what_it_made() {
    assert_eq!(
        Doxygen.open("target/doc", Platform::Linux),
        Ok(CommandLine {
            program: "xdg-open".to_string(),
            args: strings(&["target/doc/html/index.html"]),
            dir: None,
        })
    );
}

#[test]
fn cldoc_cannot_show_what_it_made() {
    assert_eq!(Cldoc.open("target/doc", Platform::Linux), Err(Error::OpenUnsupported));
    assert_eq!(
        Error::OpenUnsupported.message(),
        "Open is not yet implemented for cldoc. Sorry!"
    );
}

#[test]
fn a_known_generator_works_as_the_generator_that_it_is() {
    assert_eq!(
        Generator::Doxygen(Doxygen).generate("src", "doc"),
        Doxygen.generate("src", "doc")
    );
    assert_eq!(Generator::Cldoc(Cldoc).generate("src", "doc"), Cldoc.generate("src", "doc"));
    assert_eq!(Generator::Doxygen(Doxygen).open("doc", Platform::Windows),
        Doxygen.open("doc", Platform::Windows));
    assert_eq!(Generator::Cldoc(Cldoc).open("doc", Platform::Windows), Err(Error::OpenUnsupported));
}

#[test]
fn a_generator_that_ended_well_has_generated() {
    assert_eq!(generate_result(true, "warnings".to_string()), Ok(()));
}

#[test]
fn a_failed_generator_hands_on_what_it_wrote() {
    let r = generate_result(false, "bad Doxyfile".to_string());
    assert_eq!(r, Err(Error::DocgenFailed { stderr: "bad Doxyfile".to_string() }));
    assert_eq!(r.unwrap_err().message(), "Failed to generate documentation: bad Doxyfile");
}

#[test]
fn an_unknown_default_generator_is_refused() {
    let mut config = Config::new("demo".to_string());
    config.docgen = Some(ConfigDocgen { default: Some("sphinx".to_string()), doxygen: None });
    let proj = Project::new("proj", config);
    assert_eq!(
        try_locate(&proj),
        Err(Error::UnrecognizedDefault { kind: BackendKind::Docgen, name: "sphinx".to_string() })
    );
}

#[test]
fn a_located_generator_is_a_known_one() {
    let proj = Project::new("proj", Config::new("demo".to_string()));
    match try_locate(&proj) {
        Ok(Generator::Doxygen(_)) | Ok(Generator::Cldoc(_)) => {}
        Err(e) => assert_eq!(e, Error::NoBackendAvailable { kind: BackendKind::Docgen }),
    }
}

#[test]
fn what_a_generator_wrote_is_taken_as_text() {
    assert_eq!(generate_ended(&Exit { success: true, stderr: Vec::new() }), Ok(()));
    assert_eq!(
        generate_ended(&Exit { success: false, stderr: b"bad Doxyfile".to_vec() }),
        Err(Error::DocgenFailed { stderr: "bad Doxyfile".to_string() })
    );
    assert_eq!(
        generate_ended(&Exit { success: false, stderr: vec![0xff, 0x21] }),
        Err(Error::DocgenFailed { stderr: "\u{fffd}!".to_string() })
    );
}

#[test]
fn doxygen_shows_the_index_on_windows_too() {
    assert_eq!(
        Doxygen.open("target/doc", Platform::Windows),
        Ok(CommandLine {
            program: "cmd".to_string(),
            args: strings(&["-C", "start", "target/doc/html/index.html"]),
            dir: None,
        })
    );
    assert_eq!(Cldoc.open("target/doc", Platform::Windows), Err(Error::OpenUnsupported));
}

#[test]
fn the_first_installed_generator_is_chosen() {
    let plain = Project::new("proj", Config::new("demo".to_string()));
    assert_eq!(select(&plain, &vec![true, true]), Ok(Generator::Doxygen(Doxygen)));
    assert_eq!(select(&plain, &vec![false, true]), Ok(Generator::Cldoc(Cldoc)));
    assert_eq!(
        select(&plain, &vec![false, false]),
        Err(Error::NoBackendAvailable { kind: BackendKind::Docgen })
    );
    let mut config = Config::new("demo".to_string());
    config.docgen = Some(ConfigDocgen { default: Some("cldoc".to_string()), doxygen: None });
    let prefers = Project::new("proj", config);
    assert_eq!(select(&prefers, &vec![true, true]), Ok(Generator::Cldoc(Cldoc)));
    assert_eq!(select(&prefers, &vec![false, true]), Ok(Generator::Doxygen(Doxygen)));
    let mut config = Config::new("demo".to_string());
    config.docgen = Some(ConfigDocgen { default: Some("sphinx".to_string()), doxygen: None });
    let unknown = Project::new("proj", config);
    assert_eq!(
        select(&unknown, &vec![true, true]),
        Err(Error::UnrecognizedDefault { kind: BackendKind::Docgen, name: "sphinx".to_string() })
    );
}
