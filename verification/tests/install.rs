use cpkg::config::{Config, ConfigDependency};
use cpkg::error::Error;
use cpkg::install::{FileToWrite, InstallPlan, InstallStep};
use cpkg::project::Project;

fn strings(items: &[&str]) -> Vec<String> {
    items.iter().map(|s| s.to_string()).collect()
}

fn project_with(deps: &[(&str, ConfigDependency)]) -> Project<'static> {
    let mut config = Config::new("demo".to_string());
    for (name, dep) in deps {
        config.dependencies.insert(name.to_string(), dep.clone());
    }
    Project::new("proj", config)
}

fn libfoo() -> ConfigDependency {
    ConfigDependency::Path { path: "../libfoo".to_string() }
}

fn libbar() -> ConfigDependency {
    ConfigDependency::Git { git: "https://example.org/bar.git".to_string() }
}

#[test]
fn a_dependency_on_a_directory_is_linked() {
    let proj = project_with(&[("libfoo", libfoo())]);
    assert_eq!(
        proj.plan_install(false, false, false, &vec![false]),
        InstallPlan {
            dirs: strings(&["proj/target", "proj/target/vendor"]),
            flags_file: None,
            steps: Ok(vec![InstallStep::Link {
                from: "../libfoo".to_string(),
                to: "proj/target/vendor/libfoo".to_string(),
            }]),
        }
    );
}

#[test]
fn an_installed_dependency_is_left_alone() {
    let proj = project_with(&[("libfoo", libfoo())]);
    assert_eq!(
        proj.plan_install(false, false, false, &vec![true]),
        InstallPlan {
            dirs: strings(&["proj/target", "proj/target/vendor"]),
            flags_file: None,
            steps: Ok(Vec::new()),
        }
    );
}

#[test]
fn a_dependency_on_a_repository_is_cloned() {
    let proj = project_with(&[("libfoo", libfoo()), ("libbar", libbar())]);
    let plan = proj.plan_install(false, false, true, &vec![false, false]);
    assert_eq!(
        plan.steps,
        Ok(vec![
            InstallStep::Link {
                from: "../libfoo".to_string(),
                to: "proj/target/vendor/libfoo".to_string(),
            },
            InstallStep::Clone {
                url: "https://example.org/bar.git".to_string(),
                to: "proj/target/vendor/libbar".to_string(),
            },
        ])
    );
}

#[test]
fn only_what_is_missing_is_installed() {
    let proj = project_with(&[("libfoo", libfoo()), ("libbar", libbar())]);
    let plan = proj.plan_install(false, false, true, &vec![true, false]);
    assert_eq!(
        plan.steps,
        Ok(vec![InstallStep::Clone {
            url: "https://example.org/bar.git".to_string(),
            to: "proj/target/vendor/libbar".to_string(),
        }])
    );
}

#[test]
fn a_dependency_that_nothing_is_said_of_counts_as_missing() {
    let proj = project_with(&[("libfoo", libfoo())]);
    let plan = proj.plan_install(false, false, true, &Vec::new());
    assert_eq!(
        plan.steps,
        Ok(vec![InstallStep::Link {
            from: "../libfoo".to_string(),
            to: "proj/target/vendor/libfoo".to_string(),
        }])
    );
}

#[test]
fn a_repository_cannot_be_cloned_without_git() {
    let proj = project_with(&[("libfoo", libfoo()), ("libbar", libbar())]);
    let plan = proj.plan_install(false, false, false, &vec![false, false]);
    assert_eq!(plan.dirs, strings(&["proj/target", "proj/target/vendor"]));
    assert_eq!(plan.steps, Err(Error::DependencyMissingGit { name: "libbar".to_string() }));
}

#[test]
fn git_is_asked_for_even_where_the_repository_is_installed() {
    let proj = project_with(&[("libbar", libbar())]);
    let plan = proj.plan_install(false, false, false, &vec![true]);
    assert_eq!(plan.steps, Err(Error::DependencyMissingGit { name: "libbar".to_string() }));
}

#[test]
fn the_language_server_gets_its_flags_once() {
    let proj = project_with(&[]);
    assert_eq!(
        proj.plan_install(true, false, true, &Vec::new()).flags_file,
        Some(FileToWrite {
            path: "proj/compile_flags.txt".to_string(),
            contents: "-I./target/vendor".to_string(),
        })
    );
    assert_eq!(proj.plan_install(true, true, true, &Vec::new()).flags_file, None);
    assert_eq!(proj.plan_install(false, false, true, &Vec::new()).flags_file, None);
}

#[test]
fn a_project_without_dependencies_has_nothing_to_install() {
    let proj = project_with(&[]);
    assert_eq!(proj.plan_install(false, false, false, &Vec::new()).steps, Ok(Vec::new()));
}

#[test]
fn an_installation_of_a_project_that_is_not_on_disk_links_everything() {
    let mut config = Config::new("demo".to_string());
    config.dependencies.insert("libfoo".to_string(), libfoo());
    let proj = Project::new("/cpkg-no-such-directory/proj", config);
    let plan = proj.install_deps();
    assert_eq!(
        plan.dirs,
        strings(&[
            "/cpkg-no-such-directory/proj/target",
            "/cpkg-no-such-directory/proj/target/vendor"
        ])
    );
    assert_eq!(
        plan.steps,
        Ok(vec![InstallStep::Link {
            from: "../libfoo".to_string(),
            to: "/cpkg-no-such-directory/proj/target/vendor/libfoo".to_string(),
        }])
    );
}
