use pty_session::command::{assemble_command, scan_limit, select_args};
use portable_pty::CommandBuilder;

fn entries(items: &[Option<&str>]) -> Vec<Option<String>> {
    items.iter().map(|e| e.map(|s| s.to_string())).collect()
}

fn strings(items: &[&str]) -> Vec<String> {
    items.iter().map(|s| s.to_string()).collect()
}

fn argv_of(cmd: &CommandBuilder) -> Vec<String> {
    cmd.get_argv().iter().map(|a| a.to_str().unwrap().to_string()).collect()
}

#[test]
fn with_a_count_absent_entries_are_passed_over() {
    let argv = entries(&[Some("-c"), None, Some("exit 0"), None, Some("x")]);
    assert_eq!(select_args(&argv, Some(5)), strings(&["-c", "exit 0", "x"]));
}

#[test]
fn with_a_count_only_the_counted_entries_are_looked_at() {
    let argv = entries(&[Some("a"), None, Some("b"), Some("c")]);
    assert_eq!(select_args(&argv, Some(3)), strings(&["a", "b"]));
    assert_eq!(select_args(&argv, Some(1)), strings(&["a"]));
    assert_eq!(select_args(&argv, Some(0)), strings(&[]));
}

#[test]
fn a_count_beyond_the_entries_takes_them_all() {
    let argv = entries(&[Some("a"), Some("b")]);
    assert_eq!(select_args(&argv, Some(9)), strings(&["a", "b"]));
    assert_eq!(select_args(&argv, Some(usize::MAX)), strings(&["a", "b"]));
}

#[test]
fn without_a_count_the_first_absent_entry_ends_the_arguments() {
    let argv = entries(&[Some("a"), Some("b"), None, Some("c")]);
    assert_eq!(select_args(&argv, None), strings(&["a", "b"]));
}

#[test]
fn without_a_count_and_without_a_gap_every_entry_is_kept() {
    let argv = entries(&[Some("a"), Some(""), Some("c")]);
    assert_eq!(select_args(&argv, None), strings(&["a", "", "c"]));
}

#[test]
fn a_leading_absent_entry() {
    let argv = entries(&[None, Some("a")]);
    assert_eq!(select_args(&argv, None), strings(&[]));
    assert_eq!(select_args(&argv, Some(2)), strings(&["a"]));
}

#[test]
fn no_entries_give_no_arguments() {
    let argv = entries(&[]);
    assert_eq!(select_args(&argv, None), strings(&[]));
    assert_eq!(select_args(&argv, Some(0)), strings(&[]));
    assert_eq!(select_args(&argv, Some(4)), strings(&[]));
}

#[test]
fn only_absent_entries_give_no_arguments() {
    let argv = entries(&[None, None]);
    assert_eq!(select_args(&argv, Some(2)), strings(&[]));
    assert_eq!(select_args(&argv, None), strings(&[]));
}

#[test]
fn the_scan_limit() {
    let argv = entries(&[Some("a"), None, Some("b")]);
    assert_eq!(scan_limit(&argv, None), 1);
    assert_eq!(scan_limit(&argv, Some(2)), 2);
    assert_eq!(scan_limit(&argv, Some(3)), 3);
    assert_eq!(scan_limit(&argv, Some(4)), 3);
    assert_eq!(scan_limit(&entries(&[]), None), 0);
    assert_eq!(scan_limit(&entries(&[Some("a")]), None), 1);
}

#[test]
fn the_command_line_starts_with_the_program() {
    let cmd = assemble_command("sh", &entries(&[]), None);
    assert_eq!(argv_of(&cmd), strings(&["sh"]));
}

#[test]
fn the_command_line_holds_the_selected_arguments_in_order() {
    let argv = entries(&[Some("-c"), None, Some("exit 0")]);
    let counted = assemble_command("sh", &argv, Some(3));
    assert_eq!(argv_of(&counted), strings(&["sh", "-c", "exit 0"]));
    let uncounted = assemble_command("sh", &argv, None);
    assert_eq!(argv_of(&uncounted), strings(&["sh", "-c"]));
}

#[test]
fn an_empty_program_is_passed_through() {
    let cmd = assemble_command("", &entries(&[Some("x")]), Some(1));
    assert_eq!(argv_of(&cmd), strings(&["", "x"]));
}
