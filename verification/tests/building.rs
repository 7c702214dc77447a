use cpkg::compiler::{CompileRequest, Gcc};
use cpkg::config::{Config, ConfigCompiler};
use cpkg::error::Error;
use cpkg::project::Project;

fn strings(items: &[&str]) -> Vec<String> {
    items.iter().map(|s| s.to_string()).collect()
}

fn gcc() -> Gcc {
    Gcc::new("gcc".to_string())
}

fn sources() -> Vec<String> {
    strings(&["proj/src/main.c", "proj/src/util.c", "proj/src/tool.c", "proj/src/sub/more.c"])
}

fn with_flags(name: &str, flags: &[&str]) -> Config {
    let mut config = Config::new(name.to_string());
    config.compiler =
        Some(ConfigCompiler { default: None, flags: Some(strings(flags)), gcc: None, clang: None });
    config
}

#[test]
fn a_build_from_main_takes_the_sources_as_they_stand() {
    let proj = Project::new("proj", with_flags("demo", &["-O2"]));
    assert_eq!(
        proj.plan_build(&gcc(), sources(), true, &None),
        Ok(CompileRequest {
            files: sources(),
            include_dirs: strings(&["proj/target/vendor", "proj/src"]),
            output: "proj/target/demo".to_string(),
            flags: strings(&["-O2"]),
        })
    );
}

#[test]
fn a_build_from_main_needs_a_main() {
    let proj = Project::new("proj", Config::new("demo".to_string()));
    assert_eq!(proj.plan_build(&gcc(), sources(), false, &None), Err(Error::NoEntrypoint));
}

#[test]
fn a_named_entrypoint_goes_first_and_the_linker_is_told() {
    let proj = Project::new("proj", with_flags("demo", &["-O2"]));
    assert_eq!(
        proj.plan_build(&gcc(), sources(), true, &Some("tool".to_string())),
        Ok(CompileRequest {
            files: strings(&[
                "proj/src/tool.c",
                "proj/src/util.c",
                "proj/src/main.c",
                "proj/src/sub/more.c"
            ]),
            include_dirs: strings(&["proj/target/vendor", "proj/src"]),
            output: "proj/target/tool".to_string(),
            flags: strings(&["-O2", "-zmuldefs"]),
        })
    );
}

#[test]
fn an_entrypoint_that_stands_first_stays_first() {
    let proj = Project::new("proj", Config::new("demo".to_string()));
    let request = proj.plan_build(&gcc(), sources(), false, &Some("main".to_string())).unwrap();
    assert_eq!(request.files, sources());
    assert_eq!(request.flags, strings(&["-zmuldefs"]));
    assert_eq!(request.output, "proj/target/main");
}

#[test]
fn an_entrypoint_below_a_directory_of_the_sources() {
    let proj = Project::new("proj", Config::new("demo".to_string()));
    let request =
        proj.plan_build(&gcc(), sources(), true, &Some("sub/more".to_string())).unwrap();
    assert_eq!(request.files[0], "proj/src/sub/more.c");
    assert_eq!(request.files[3], "proj/src/main.c");
    assert_eq!(request.output, "proj/target/more");
}

#[test]
fn an_entrypoint_that_is_no_source_is_not_built() {
    let proj = Project::new("proj", Config::new("demo".to_string()));
    let listing = strings(&["proj/src/main.c", "proj/src/util.c"]);
    assert_eq!(
        proj.plan_build(&gcc(), listing, true, &Some("tool".to_string())),
        Err(Error::EntrypointNotFound { path: "proj/src/tool.c".to_string() })
    );
}

#[test]
fn an_entrypoint_that_names_no_source_is_not_built() {
    let proj = Project::new("proj", Config::new("demo".to_string()));
    assert_eq!(
        proj.plan_build(&gcc(), sources(), true, &Some("..".to_string())),
        Err(Error::EntrypointNotFound { path: "proj/src/...c".to_string() })
    );
}

#[test]
fn the_binary_is_named_by_the_package_or_the_entrypoint() {
    let proj = Project::new("proj", Config::new("demo".to_string()));
    assert_eq!(proj.build_out(None), "proj/target/demo");
    assert_eq!(proj.build_out(Some("proj/src/foo.c")), "proj/target/foo");
    assert_eq!(proj.build_out(Some("anywhere/else/foo.bar.c")), "proj/target/foo.bar");
}

#[test]
fn a_configured_binary_is_where_the_build_goes() {
    let mut config = Config::new("demo".to_string());
    config.package.bin = Some("out/x".to_string());
    let proj = Project::new("proj", config);
    assert_eq!(proj.build_out(None), "out/x");
    assert_eq!(proj.build_out(Some("proj/src/foo.c")), "out/x");
    assert_eq!(proj.plan_build(&gcc(), sources(), true, &None).unwrap().output, "out/x");
    assert_eq!(
        proj.plan_build(&gcc(), sources(), true, &Some("tool".to_string())).unwrap().output,
        "out/x"
    );
}

#[test]
fn the_source_of_an_entrypoint_has_the_extension_c() {
    let proj = Project::new("proj", Config::new("demo".to_string()));
    assert_eq!(proj.entry_file("tool"), "proj/src/tool.c");
    assert_eq!(proj.entry_file("tool.c"), "proj/src/tool.c.c");
    assert_eq!(proj.entry_file("foo.bar"), "proj/src/foo.bar.c");
    assert_eq!(proj.entry_file("sub/tool"), "proj/src/sub/tool.c");
    assert_eq!(proj.entry_file(""), "proj/src/.c");
}

#[test]
fn an_entrypoint_with_a_dot_in_its_name_is_built_from_its_own_source() {
    let proj = Project::new("proj", Config::new("demo".to_string()));
    let request = proj
        .plan_build(
            &gcc(),
            strings(&["proj/src/foo.c", "proj/src/main.c", "proj/src/foo.bar.c"]),
            true,
            &Some("foo.bar".to_string()),
        )
        .unwrap();
    assert_eq!(
        request.files,
        strings(&["proj/src/foo.bar.c", "proj/src/main.c", "proj/src/foo.c"])
    );
    assert_eq!(request.output, "proj/target/foo.bar");
}

#[test]
fn an_entrypoint_that_stands_first_leaves_the_sources_as_they_are() {
    let proj = Project::new("proj", Config::new("demo".to_string()));
    let found = strings(&["proj/src/foo.bar.c", "proj/src/foo.c"]);
    let request =
        proj.plan_build(&gcc(), found.clone(), false, &Some("foo.bar".to_string())).unwrap();
    assert_eq!(request.files, found);
    assert_eq!(request.output, "proj/target/foo.bar");
}

#[test]
fn an_entrypoint_with_a_dot_in_its_name_needs_its_own_source() {
    let proj = Project::new("proj", Config::new("demo".to_string()));
    assert_eq!(
        proj.plan_build(&gcc(), strings(&["proj/src/foo.c"]), true, &Some("foo.bar".to_string())),
        Err(Error::EntrypointNotFound { path: "proj/src/foo.bar.c".to_string() })
    );
    let alone = proj
        .plan_build(&gcc(), strings(&["proj/src/foo.bar.c"]), true, &Some("foo.bar".to_string()))
        .unwrap();
    assert_eq!(alone.files, strings(&["proj/src/foo.bar.c"]));
}

#[test]
fn a_build_of_a_project_that_is_not_on_disk_has_nothing_to_start_from() {
    let proj = Project::new("/cpkg-no-such-directory/proj", Config::new("demo".to_string()));
    assert_eq!(proj.build(&gcc(), &None), Err(Error::NoEntrypoint));
    assert_eq!(
        proj.build(&gcc(), &Some("tool".to_string())),
        Err(Error::EntrypointNotFound {
            path: "/cpkg-no-such-directory/proj/src/tool.c".to_string()
        })
    );
}

#[test]
fn a_build_needs_the_target_directory() {
    let proj = Project::new("proj", Config::new("demo".to_string()));
    assert_eq!(proj.build_dirs(), strings(&["proj/target"]));
}
