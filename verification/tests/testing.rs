use cpkg::compiler::{CompileRequest, Gcc};
use cpkg::config::{Config, ConfigCompiler};
use cpkg::error::Error;
use cpkg::project::Project;
use cpkg::host::Exit;
use cpkg::testing::{test_record, TestBuild, TestRecord, TestRun, TestStep};
use std::collections::hash_map::DefaultHasher;
use std::hash::Hasher;

fn strings(items: &[&str]) -> Vec<String> {
    items.iter().map(|s| s.to_string()).collect()
}

fn gcc() -> Gcc {
    Gcc::new("gcc".to_string())
}

fn hash_of(path: &str) -> u64 {
    let mut hasher = DefaultHasher::new();
    hasher.write(path.as_bytes());
    hasher.finish()
}

#[test]
fn the_binary_of_a_test_is_named_by_the_hash_of_its_path() {
    let proj = Project::new("proj", Config::new("demo".to_string()));
    assert_eq!(
        proj.test_out("proj/tests/a.c"),
        format!("proj/target/test/{}", hash_of("proj/tests/a.c"))
    );
}

#[test]
fn the_same_test_gets_the_same_binary() {
    let first = Project::new("proj", Config::new("demo".to_string()));
    let second = Project::new("proj", Config::new("demo".to_string()));
    assert_eq!(first.test_out("proj/src/a.test.c"), second.test_out("proj/src/a.test.c"));
    assert_eq!(first.test_out("proj/src/a.test.c"), first.test_out("proj/src/a.test.c"));
}

#[test]
fn different_tests_get_different_binaries() {
    let proj = Project::new("proj", Config::new("demo".to_string()));
    assert_ne!(proj.test_out("proj/tests/a.c"), proj.test_out("proj/tests/b.c"));
    assert_ne!(proj.test_out("proj/tests/a.c"), proj.test_out("proj/src/a.test.c"));
}

#[test]
fn every_test_is_compiled_with_the_sources_but_main() {
    let mut config = Config::new("demo".to_string());
    config.compiler = Some(ConfigCompiler {
        default: None,
        flags: Some(strings(&["-g"])),
        gcc: None,
        clang: None,
    });
    let proj = Project::new("proj", config);
    let c_files = strings(&["proj/src/util.c", "proj/src/main.c", "proj/src/sub/main.c", "proj/src/more.c"]);
    let tests = strings(&["proj/src/util.test.c", "proj/tests/all.c"]);
    let builds = proj.plan_tests(&gcc(), &c_files, &tests);
    assert_eq!(
        builds,
        vec![
            TestBuild {
                source: "proj/src/util.test.c".to_string(),
                request: CompileRequest {
                    files: strings(&["proj/src/util.c", "proj/src/more.c", "proj/src/util.test.c"]),
                    include_dirs: strings(&["proj/tests", "proj/src"]),
                    output: format!("proj/target/test/{}", hash_of("proj/src/util.test.c")),
                    flags: strings(&["-g"]),
                },
            },
            TestBuild {
                source: "proj/tests/all.c".to_string(),
                request: CompileRequest {
                    files: strings(&["proj/src/util.c", "proj/src/more.c", "proj/tests/all.c"]),
                    include_dirs: strings(&["proj/tests", "proj/src"]),
                    output: format!("proj/target/test/{}", hash_of("proj/tests/all.c")),
                    flags: strings(&["-g"]),
                },
            },
        ]
    );
}

#[test]
fn a_test_that_is_found_twice_is_compiled_twice() {
    let proj = Project::new("proj", Config::new("demo".to_string()));
    let tests = strings(&["proj/tests/a.c", "proj/tests/a.c"]);
    let builds = proj.plan_tests(&gcc(), &Vec::new(), &tests);
    assert_eq!(builds.len(), 2);
    assert_eq!(builds[0], builds[1]);
}

#[test]
fn without_tests_nothing_is_compiled() {
    let proj = Project::new("proj", Config::new("demo".to_string()));
    let c_files = strings(&["proj/src/main.c"]);
    assert_eq!(proj.plan_tests(&gcc(), &c_files, &Vec::new()), Vec::new());
}

#[test]
fn a_test_that_ended_well_has_passed() {
    assert_eq!(
        test_record("tests/a.c".to_string(), true, b"noise".to_vec()),
        Ok(TestRecord { source: "tests/a.c".to_string(), passed: true, stderr: None })
    );
}

#[test]
fn a_failed_test_hands_on_what_it_wrote() {
    assert_eq!(
        test_record("tests/a.c".to_string(), false, "a.c:3: failed: h\u{e9}".as_bytes().to_vec()),
        Ok(TestRecord {
            source: "tests/a.c".to_string(),
            passed: false,
            stderr: Some("a.c:3: failed: h\u{e9}".to_string()),
        })
    );
    assert_eq!(
        test_record("tests/a.c".to_string(), false, Vec::new()),
        Ok(TestRecord {
            source: "tests/a.c".to_string(),
            passed: false,
            stderr: Some(String::new()),
        })
    );
}

#[test]
fn a_failed_test_that_wrote_no_text_fails_the_run() {
    assert_eq!(
        test_record("tests/a.c".to_string(), false, vec![0x66, 0xff, 0x6f]),
        Err(Error::Utf8DecodeError)
    );
    assert_eq!(
        test_record("tests/a.c".to_string(), false, vec![0xc3]),
        Err(Error::Utf8DecodeError)
    );
}

#[test]
fn a_passed_test_may_have_written_anything() {
    assert_eq!(
        test_record("tests/a.c".to_string(), true, vec![0xff, 0xfe]),
        Ok(TestRecord { source: "tests/a.c".to_string(), passed: true, stderr: None })
    );
}

#[test]
fn the_tests_need_a_directory_for_their_binaries() {
    let proj = Project::new("proj", Config::new("demo".to_string()));
    assert_eq!(proj.test_dirs(), strings(&["proj/target", "proj/target/test"]));
}

fn two_tests() -> Vec<TestBuild> {
    let proj = Project::new("proj", Config::new("demo".to_string()));
    proj.plan_tests(
        &gcc(),
        &strings(&["proj/src/util.c"]),
        &strings(&["proj/src/util.test.c", "proj/tests/all.c"]),
    )
}

fn ended(success: bool, stderr: &[u8]) -> Exit {
    Exit { success, stderr: stderr.to_vec() }
}

#[test]
fn a_run_without_tests_is_over_at_once() {
    let run = TestRun::new(Vec::new());
    assert_eq!(run.next(), TestStep::Done);
    assert_eq!(run.finish(), Ok(Vec::new()));
}

#[test]
fn every_test_is_compiled_before_any_is_run() {
    let builds = two_tests();
    let mut run = TestRun::new(builds.clone());
    assert_eq!(run.next(), TestStep::Compile { request: &builds[0].request });
    run.advance(ended(true, b""));
    assert_eq!(run.next(), TestStep::Compile { request: &builds[1].request });
    run.advance(ended(true, b"warning: unused"));
    assert_eq!(run.next(), TestStep::Run { program: &builds[0].request.output });
    run.advance(ended(false, b"assertion failed"));
    assert_eq!(run.next(), TestStep::Run { program: &builds[1].request.output });
    run.advance(ended(true, b"noise"));
    assert_eq!(run.next(), TestStep::Done);
    assert_eq!(
        run.finish(),
        Ok(vec![
            TestRecord {
                source: "proj/src/util.test.c".to_string(),
                passed: false,
                stderr: Some("assertion failed".to_string()),
            },
            TestRecord { source: "proj/tests/all.c".to_string(), passed: true, stderr: None },
        ])
    );
}

#[test]
fn a_test_that_does_not_compile_ends_the_run() {
    let mut run = TestRun::new(two_tests());
    run.advance(ended(true, b""));
    run.advance(ended(false, b"all.c:1: error: expected ';'"));
    assert_eq!(run.next(), TestStep::Done);
    assert_eq!(
        run.finish(),
        Err(Error::CompileFailed {
            stderr: "all.c:1: error: expected ';'".to_string(),
            duplicate_entrypoint: false,
        })
    );
}

#[test]
fn a_failed_test_that_wrote_no_text_ends_the_run() {
    let mut run = TestRun::new(two_tests());
    run.advance(ended(true, b""));
    run.advance(ended(true, b""));
    run.advance(ended(false, &[0xff]));
    assert_eq!(run.next(), TestStep::Done);
    assert_eq!(run.finish(), Err(Error::Utf8DecodeError));
}

#[test]
fn a_run_that_is_over_stays_as_it_is() {
    let mut run = TestRun::new(two_tests());
    run.advance(ended(false, b"no"));
    run.advance(ended(true, b""));
    run.advance(ended(true, b""));
    assert_eq!(run.next(), TestStep::Done);
    assert_eq!(
        run.finish(),
        Err(Error::CompileFailed { stderr: "no".to_string(), duplicate_entrypoint: false })
    );
    let mut done = TestRun::new(Vec::new());
    done.advance(ended(false, b"late"));
    assert_eq!(done.finish(), Ok(Vec::new()));
}

#[test]
fn a_run_that_is_not_over_has_the_records_so_far() {
    let mut run = TestRun::new(two_tests());
    run.advance(ended(true, b""));
    run.advance(ended(true, b""));
    run.advance(ended(true, b""));
    assert_eq!(
        run.finish(),
        Ok(vec![TestRecord {
            source: "proj/src/util.test.c".to_string(),
            passed: true,
            stderr: None,
        }])
    );
}
