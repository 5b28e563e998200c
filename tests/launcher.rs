use spawn_editor::choose_editor;
use spawn_editor::join_command_line;
use spawn_editor::prepare_command;
use spawn_editor::resolve_editor;
use spawn_editor::shell_command;
use spawn_editor::shell_for;
use spawn_editor::SEError;

#[test]
fn joins_editor_and_arguments_in_order() {
    assert_eq!(join_command_line("E", &["a1", "a2", "a3"]), "E a1 a2 a3");
}

#[test]
fn editor_without_arguments_stands_alone() {
    assert_eq!(join_command_line("nano", &[]), "nano");
}

#[test]
fn arguments_are_not_escaped() {
    assert_eq!(
        join_command_line("vim -u NONE", &["my file.txt", "$HOME", "'q'"]),
        "vim -u NONE my file.txt $HOME 'q'"
    );
}

#[test]
fn empty_arguments_keep_their_spaces() {
    assert_eq!(join_command_line("ed", &["", "x"]), "ed  x");
}

#[test]
fn shell_on_windows_is_cmd() {
    assert_eq!(shell_for(true), ("cmd", "/C"));
}

#[test]
fn shell_elsewhere_is_sh() {
    assert_eq!(shell_for(false), ("sh", "-c"));
}

#[test]
fn shell_command_runs_the_joined_line() {
    let c = shell_command("nano", &["src/lib.rs"], false);
    assert_eq!(c.program, "sh");
    assert_eq!(c.args, vec!["-c".to_string(), "nano src/lib.rs".to_string()]);
    let w = shell_command("notepad", &["a.txt", "b.txt"], true);
    assert_eq!(w.program, "cmd");
    assert_eq!(w.args, vec!["/C".to_string(), "notepad a.txt b.txt".to_string()]);
}

#[test]
fn override_is_taken_verbatim() {
    let r = choose_editor(Some("emacs -nw"), Ok("vi".to_string()));
    assert_eq!(r.unwrap(), "emacs -nw");
    let r = choose_editor(Some("nano"), Err("bad value".to_string()));
    assert_eq!(r.unwrap(), "nano");
}

#[test]
fn missing_override_takes_looked_up_editor() {
    assert_eq!(choose_editor(None, Ok("vim".to_string())).unwrap(), "vim");
}

#[test]
fn empty_override_takes_looked_up_editor() {
    assert_eq!(choose_editor(Some(""), Ok("vi".to_string())).unwrap(), "vi");
}

#[test]
fn failed_lookup_is_a_var_error() {
    match choose_editor(None, Err("not unicode".to_string())) {
        Err(SEError::Var(m)) => assert_eq!(m, "not unicode"),
        other => panic!("unexpected {:?}", other),
    }
    assert!(matches!(
        choose_editor(Some(""), Err("x".to_string())),
        Err(SEError::Var(_))
    ));
}

#[test]
fn resolve_prefers_override() {
    assert_eq!(resolve_editor(Some("true")).unwrap(), "true");
}

#[test]
fn resolve_without_override_reads_environment_alike() {
    let a = resolve_editor(None);
    let b = resolve_editor(Some(""));
    match (a, b) {
        (Ok(x), Ok(y)) => {
            assert_eq!(x, y);
        }
        (Err(SEError::Var(x)), Err(SEError::Var(y))) => assert_eq!(x, y),
        other => panic!("lookups disagree: {:?}", other),
    }
}

#[test]
fn prepare_true_with_no_arguments() {
    let c = prepare_command(Some("true"), &[], false).unwrap();
    assert_eq!(c.program, "sh");
    assert_eq!(c.args, vec!["-c".to_string(), "true".to_string()]);
}

#[test]
fn prepare_false_with_no_arguments() {
    let c = prepare_command(Some("false"), &[], true).unwrap();
    assert_eq!(c.program, "cmd");
    assert_eq!(c.args, vec!["/C".to_string(), "false".to_string()]);
}

#[test]
fn prepare_twice_gives_the_same_command() {
    let a = prepare_command(Some("nano"), &["notes.md"], false).unwrap();
    let b = prepare_command(Some("nano"), &["notes.md"], false).unwrap();
    assert_eq!(a.program, b.program);
    assert_eq!(a.args, b.args);
}
