use cpkg::backend::{candidate_table, first_available, locate, order_of_trial, select, survey};
use cpkg::error::{BackendKind, Error};

fn table(names: &[&str]) -> Vec<String> {
    names.iter().map(|n| n.to_string()).collect()
}

#[test]
fn the_default_is_tried_first() {
    let abc = table(&["A", "B", "C"]);
    let b = "B".to_string();
    assert_eq!(
        order_of_trial(BackendKind::Compiler, &abc, Some(&b)),
        Ok(table(&["B", "A", "C"]))
    );
}

#[test]
fn without_a_default_the_table_is_tried_as_it_stands() {
    let abc = table(&["A", "B", "C"]);
    assert_eq!(order_of_trial(BackendKind::Compiler, &abc, None), Ok(table(&["A", "B", "C"])));
}

#[test]
fn the_others_keep_their_order_behind_the_default() {
    let abc = table(&["A", "B", "C"]);
    let c = "C".to_string();
    let a = "A".to_string();
    assert_eq!(
        order_of_trial(BackendKind::Compiler, &abc, Some(&c)),
        Ok(table(&["C", "A", "B"]))
    );
    assert_eq!(
        order_of_trial(BackendKind::Compiler, &abc, Some(&a)),
        Ok(table(&["A", "B", "C"]))
    );
}

#[test]
fn an_unknown_default_is_refused() {
    let abc = table(&["A", "B", "C"]);
    let d = "D".to_string();
    assert_eq!(
        order_of_trial(BackendKind::Formatter, &abc, Some(&d)),
        Err(Error::UnrecognizedDefault { kind: BackendKind::Formatter, name: "D".to_string() })
    );
}

#[test]
fn an_unknown_default_is_refused_whatever_is_installed() {
    // `sh` is installed wherever these tests run, and is not looked for.
    let shells = table(&["sh"]);
    let d = "no-such-tool".to_string();
    assert_eq!(
        locate(BackendKind::Compiler, &shells, Some(&d)),
        Err(Error::UnrecognizedDefault {
            kind: BackendKind::Compiler,
            name: "no-such-tool".to_string()
        })
    );
}

#[test]
fn the_first_installed_candidate_is_chosen() {
    let order = table(&["B", "A", "C"]);
    assert_eq!(
        first_available(BackendKind::Compiler, &order, &vec![false, true, true]),
        Ok("A".to_string())
    );
    assert_eq!(
        first_available(BackendKind::Compiler, &order, &vec![true, true, true]),
        Ok("B".to_string())
    );
    assert_eq!(
        first_available(BackendKind::Compiler, &order, &vec![false, false, true]),
        Ok("C".to_string())
    );
}

#[test]
fn with_nothing_installed_the_choice_fails() {
    let order = table(&["B", "A", "C"]);
    assert_eq!(
        first_available(BackendKind::Docgen, &order, &vec![false, false, false]),
        Err(Error::NoBackendAvailable { kind: BackendKind::Docgen })
    );
    assert_eq!(
        first_available(BackendKind::Docgen, &Vec::new(), &Vec::new()),
        Err(Error::NoBackendAvailable { kind: BackendKind::Docgen })
    );
    assert_eq!(
        first_available(BackendKind::Docgen, &order, &vec![false]),
        Err(Error::NoBackendAvailable { kind: BackendKind::Docgen })
    );
    assert_eq!(
        first_available(BackendKind::Docgen, &table(&["A"]), &vec![false, true]),
        Err(Error::NoBackendAvailable { kind: BackendKind::Docgen })
    );
}

#[test]
fn the_tables_hold_the_known_tools() {
    assert_eq!(candidate_table(BackendKind::Compiler), table(&["gcc", "clang", "cosmocc"]));
    assert_eq!(candidate_table(BackendKind::Formatter), table(&["clang-format", "uncrustify"]));
    assert_eq!(candidate_table(BackendKind::Docgen), table(&["doxygen", "cldoc"]));
}

#[test]
fn a_tool_that_is_not_installed_is_not_chosen() {
    let missing = table(&["cpkg-no-such-tool-a", "cpkg-no-such-tool-b"]);
    assert_eq!(
        locate(BackendKind::Formatter, &missing, None),
        Err(Error::NoBackendAvailable { kind: BackendKind::Formatter })
    );
}

#[test]
fn a_tool_that_is_installed_is_chosen() {
    let tools = table(&["cpkg-no-such-tool-a", "sh", "ls"]);
    assert_eq!(locate(BackendKind::Compiler, &tools, None), Ok("sh".to_string()));
    let ls = "ls".to_string();
    assert_eq!(locate(BackendKind::Compiler, &tools, Some(&ls)), Ok("ls".to_string()));
}

#[test]
fn a_choice_follows_the_answers_in_the_order_of_trial() {
    let abc = table(&["A", "B", "C"]);
    let b = "B".to_string();
    assert_eq!(
        select(BackendKind::Compiler, &abc, Some(&b), &vec![true, true, true]),
        Ok("B".to_string())
    );
    assert_eq!(
        select(BackendKind::Compiler, &abc, Some(&b), &vec![false, false, true]),
        Ok("C".to_string())
    );
    assert_eq!(
        select(BackendKind::Compiler, &abc, Some(&b), &vec![false, true]),
        Ok("A".to_string())
    );
    assert_eq!(
        select(BackendKind::Compiler, &abc, None, &vec![false, true, true]),
        Ok("B".to_string())
    );
    assert_eq!(
        select(BackendKind::Compiler, &abc, None, &vec![false, false, false]),
        Err(Error::NoBackendAvailable { kind: BackendKind::Compiler })
    );
    let d = "D".to_string();
    assert_eq!(
        select(BackendKind::Docgen, &abc, Some(&d), &vec![true, true, true]),
        Err(Error::UnrecognizedDefault { kind: BackendKind::Docgen, name: "D".to_string() })
    );
}

#[test]
fn the_machine_is_asked_up_to_the_first_tool_that_is_installed() {
    let tools = table(&["cpkg-no-such-tool-a", "sh", "ls"]);
    assert_eq!(survey(BackendKind::Compiler, &tools, None), Ok(vec![false, true]));
    let ls = "ls".to_string();
    assert_eq!(survey(BackendKind::Compiler, &tools, Some(&ls)), Ok(vec![true]));
    let missing = table(&["cpkg-no-such-tool-a", "cpkg-no-such-tool-b"]);
    assert_eq!(survey(BackendKind::Compiler, &missing, None), Ok(vec![false, false]));
    let d = "no-such-tool".to_string();
    assert_eq!(
        survey(BackendKind::Compiler, &tools, Some(&d)),
        Err(Error::UnrecognizedDefault {
            kind: BackendKind::Compiler,
            name: "no-such-tool".to_string()
        })
    );
}
