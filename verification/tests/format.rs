use cpkg::compiler::CommandLine;
use cpkg::config::{Config, ConfigFormatter, ConfigUncrustify};
use cpkg::error::{BackendKind, Error};
use cpkg::format::{
    format_ended, format_result, select, try_locate, ClangFormat, Format, Formatter, Uncrustify,
};
use cpkg::host::Exit;
use cpkg::project::Project;

fn strings(items: &[&str]) -> Vec<String> {
    items.iter().map(|s| s.to_string()).collect()
}

fn formatter_config(default: Option<&str>, uncrustify: Option<&str>) -> Config {
    let mut config = Config::new("demo".to_string());
    config.formatter = Some(ConfigFormatter {
        default: default.map(|d| d.to_string()),
        clang_format: None,
        uncrustify: uncrustify.map(|c| ConfigUncrustify { config: c.to_string() }),
    });
    config
}

#[test]
fn clang_format_rewrites_the_files_in_place() {
    let proj = Project::new("proj", Config::new("demo".to_string()));
    assert_eq!(
        ClangFormat.format_command(&proj, &strings(&["proj/src/a.c", "proj/src/a.h"])),
        CommandLine {
            program: "clang-format".to_string(),
            args: strings(&["proj/src/a.c", "proj/src/a.h", "-i"]),
            dir: None,
        }
    );
}

#[test]
fn uncrustify_takes_its_configuration_where_there_is_one() {
    let proj = Project::new("proj", formatter_config(None, Some("style.cfg")));
    assert_eq!(
        Uncrustify.format_command(&proj, &strings(&["proj/src/a.c"])),
        CommandLine {
            program: "uncrustify".to_string(),
            args: strings(&["-c", "style.cfg", "proj/src/a.c", "--no-backup"]),
            dir: None,
        }
    );
}

#[test]
fn uncrustify_runs_without_a_configuration_too() {
    let plain = Project::new("proj", Config::new("demo".to_string()));
    assert_eq!(
        Uncrustify.format_command(&plain, &strings(&["proj/src/a.c"])).args,
        strings(&["proj/src/a.c", "--no-backup"])
    );
    let unset = Project::new("proj", formatter_config(Some("uncrustify"), None));
    assert_eq!(
        Formatter::Uncrustify(Uncrustify).format_command(&unset, &Vec::new()).args,
        strings(&["--no-backup"])
    );
}

#[test]
fn a_known_formatter_formats_as_the_formatter_that_it_is() {
    let proj = Project::new("proj", Config::new("demo".to_string()));
    let files = strings(&["proj/src/a.c"]);
    assert_eq!(
        Formatter::ClangFormat(ClangFormat).format_command(&proj, &files),
        ClangFormat.format_command(&proj, &files)
    );
}

#[test]
fn a_formatter_that_ended_well_has_formatted() {
    assert_eq!(format_result(true, String::new()), Ok(()));
}

#[test]
fn a_failed_formatter_hands_on_what_it_wrote() {
    let r = format_result(false, "no such file".to_string());
    assert_eq!(r, Err(Error::FormatFailed { stderr: "no such file".to_string() }));
    assert_eq!(r.unwrap_err().message(), "Failed to format files. no such file");
}

#[test]
fn an_unknown_default_formatter_is_refused() {
    let proj = Project::new("proj", formatter_config(Some("indent"), None));
    assert_eq!(
        try_locate(&proj),
        Err(Error::UnrecognizedDefault {
            kind: BackendKind::Formatter,
            name: "indent".to_string()
        })
    );
}

#[test]
fn a_located_formatter_is_a_known_one() {
    let proj = Project::new("proj", Config::new("demo".to_string()));
    match try_locate(&proj) {
        Ok(Formatter::ClangFormat(_)) | Ok(Formatter::Uncrustify(_)) => {}
        Err(e) => assert_eq!(e, Error::NoBackendAvailable { kind: BackendKind::Formatter }),
    }
}

#[test]
fn the_files_of_a_project_that_is_not_on_disk_are_none() {
    let proj = Project::new("/cpkg-no-such-directory/proj", Config::new("demo".to_string()));
    assert_eq!(
        Formatter::ClangFormat(ClangFormat).format(&proj),
        CommandLine { program: "clang-format".to_string(), args: strings(&["-i"]), dir: None }
    );
}

#[test]
fn what_a_formatter_wrote_is_taken_as_text() {
    assert_eq!(format_ended(&Exit { success: true, stderr: b"fine".to_vec() }), Ok(()));
    assert_eq!(
        format_ended(&Exit { success: false, stderr: vec![0x6e, 0x6f, 0xc3] }),
        Err(Error::FormatFailed { stderr: "no\u{fffd}".to_string() })
    );
}

#[test]
fn the_preferred_formatter_is_chosen_where_it_is_installed() {
    let prefers = Project::new("proj", formatter_config(Some("uncrustify"), None));
    assert_eq!(select(&prefers, &vec![true, true]), Ok(Formatter::Uncrustify(Uncrustify)));
    assert_eq!(select(&prefers, &vec![false, true]), Ok(Formatter::ClangFormat(ClangFormat)));
    let plain = Project::new("proj", Config::new("demo".to_string()));
    assert_eq!(select(&plain, &vec![true, true]), Ok(Formatter::ClangFormat(ClangFormat)));
    assert_eq!(select(&plain, &vec![false, true]), Ok(Formatter::Uncrustify(Uncrustify)));
    assert_eq!(
        select(&plain, &Vec::new()),
        Err(Error::NoBackendAvailable { kind: BackendKind::Formatter })
    );
    let unknown = Project::new("proj", formatter_config(Some("indent"), None));
    assert_eq!(
        select(&unknown, &vec![true, true]),
        Err(Error::UnrecognizedDefault {
            kind: BackendKind::Formatter,
            name: "indent".to_string()
        })
    );
}
