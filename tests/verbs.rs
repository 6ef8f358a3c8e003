use broot_verbs::builtin::{builtin_verbs, external, internal, internal_bang, Capabilities};
use broot_verbs::dispatch::{invoke_key, invoke_shortcut, invoke_text, resolve, Request};
use broot_verbs::error::VerbError;
use broot_verbs::internal::Internal;
use broot_verbs::keys::{alt_enter, chord, plain, KeyCode, CONTROL};
use broot_verbs::path::resolve_path;
use broot_verbs::pattern::{match_segments, parse_pattern, ArgKind, Segment};
use broot_verbs::registry::Registry;
use broot_verbs::selection::{Selection, SelectionFilter, SelectionType};
use broot_verbs::substitute::quote_exec;
use broot_verbs::verb::{
    ExternalExecution, ExternalExecutionMode, InternalExecution, Verb, VerbDeclaration,
    VerbDescription, VerbExecution,
};

fn all_caps() -> Capabilities {
    Capabilities { unix: true, clipboard: true }
}

fn chars(s: &str) -> Vec<char> {
    s.chars().collect()
}

fn text(v: &[char]) -> String {
    v.iter().collect()
}

fn registry_with(user: Vec<Verb>) -> Registry {
    Registry::new(builtin_verbs(all_caps()), user)
}

fn file_sel(other: Option<&str>) -> Selection {
    Selection::new("/a/b/c.txt", SelectionType::File, "/a/b", other)
}

fn dir_sel() -> Selection {
    Selection::new("/a/b", SelectionType::Directory, "/a", None)
}

fn external_command(r: Option<Result<Request, VerbError>>) -> (String, ExternalExecutionMode) {
    match r {
        Some(Ok(Request::External(x))) => (x.command_string(), x.mode),
        other => panic!("expected an external request, got {:?}", other),
    }
}

fn invocation_of(reg: &Registry, i: usize) -> String {
    text(reg.verb(i).invocation.as_ref().unwrap())
}

fn user_internal(name: &str, action: Internal) -> Verb {
    Verb::new(
        Some(name),
        VerbExecution::Internal(InternalExecution::from_internal_bang(action, false)),
        VerbDescription::from_text("user verb"),
    )
    .unwrap()
}

#[test]
fn builtin_table_is_complete() {
    assert_eq!(builtin_verbs(all_caps()).len(), 57);
    assert_eq!(builtin_verbs(Capabilities { unix: false, clipboard: false }).len(), 51);
    assert_eq!(builtin_verbs(Capabilities { unix: true, clipboard: false }).len(), 55);
}

#[test]
fn copy_resolves_relative_path_from_parent() {
    let reg = registry_with(vec![]);
    let (cmd, mode) = external_command(invoke_text(&reg, "copy ../d.txt", &file_sel(None)));
    assert_eq!(cmd, "cp -r /a/b/c.txt /a/d.txt");
    assert_eq!(mode, ExternalExecutionMode::StayInApp);
}

#[test]
fn later_shortcut_wins() {
    let first = user_internal("first", Internal::Help).with_shortcut("q").unwrap();
    let second = user_internal("second", Internal::Refresh).with_shortcut("q").unwrap();
    let reg = registry_with(vec![first, second]);
    let i = reg.by_shortcut("q").unwrap();
    assert_eq!(i, reg.len() - 1);
    assert_eq!(invocation_of(&reg, i), "second");
}

#[test]
fn builtin_shortcut_reaches_quit() {
    let reg = registry_with(vec![]);
    let i = reg.by_shortcut("q").unwrap();
    assert_eq!(invocation_of(&reg, i), "quit");
    assert!(reg.by_shortcut("nothing").is_none());
    assert!(reg.by_shortcut("Q").is_none());
}

#[test]
fn other_panel_needed() {
    let reg = registry_with(vec![]);
    match invoke_shortcut(&reg, "cpp", &file_sel(None)) {
        Some(Err(e)) => assert_eq!(e, VerbError::NoOtherPanel),
        other => panic!("unexpected {:?}", other),
    }
    let (cmd, _) = external_command(invoke_shortcut(&reg, "cpp", &file_sel(Some("/x/y"))));
    assert_eq!(cmd, "cp -r /a/b/c.txt /x/y");
}

#[test]
fn unreachable_verb_is_invalid() {
    let r = Verb::declare(
        None,
        VerbExecution::Internal(InternalExecution::from_internal_bang(Internal::Quit, false)),
        VerbDescription::from_text("nothing reaches me"),
        vec![],
        vec![],
        SelectionFilter::Any,
    );
    assert_eq!(r.unwrap_err(), VerbError::InvalidVerb);
    let r = Verb::new(
        None,
        VerbExecution::External(ExternalExecution::new("ls", ExternalExecutionMode::StayInApp)),
        VerbDescription::from_code("ls"),
    );
    assert_eq!(r.unwrap_err(), VerbError::InvalidVerb);
}

#[test]
fn declared_verb_with_key_only_is_valid() {
    let v = Verb::declare(
        None,
        VerbExecution::Internal(InternalExecution::from_internal_bang(Internal::Quit, false)),
        VerbDescription::from_text("quit"),
        vec![chord(KeyCode::Char('x'), CONTROL)],
        vec![],
        SelectionFilter::Any,
    )
    .unwrap();
    assert_eq!(v.keys.len(), 1);
    assert!(v.invocation.is_none());
}

#[test]
fn key_last_writer_wins() {
    let ctrl_q = chord(KeyCode::Char('q'), CONTROL);
    let reg = registry_with(vec![]);
    let i = reg.by_key(ctrl_q, SelectionType::File).unwrap();
    assert_eq!(invocation_of(&reg, i), "quit");
    let user = user_internal("my_quit", Internal::Back).with_key(ctrl_q).unwrap();
    let reg = registry_with(vec![user]);
    let j = reg.by_key(ctrl_q, SelectionType::File).unwrap();
    assert_eq!(j, reg.len() - 1);
    assert_eq!(invocation_of(&reg, j), "my_quit");
    assert!(reg.by_key(chord(KeyCode::Char('z'), CONTROL), SelectionType::File).is_none());
}

#[test]
fn alt_enter_goes_to_the_later_verb() {
    let reg = registry_with(vec![]);
    let i = reg.by_key(alt_enter(), SelectionType::Directory).unwrap();
    assert_eq!(invocation_of(&reg, i), "open_leave");
}

#[test]
fn file_only_verb_absent_for_directories() {
    let only_files = external("shred", "shred {file}", ExternalExecutionMode::StayInApp)
        .unwrap()
        .with_stype(SelectionType::File)
        .with_control_key('k')
        .unwrap();
    let reg = registry_with(vec![only_files]);
    let key = chord(KeyCode::Char('k'), CONTROL);
    assert!(reg.by_key(key, SelectionType::Directory).is_none());
    assert!(reg.by_key(key, SelectionType::File).is_some());
    assert!(reg.by_invocation_prefix("shred", SelectionType::Directory).is_empty());
    assert_eq!(reg.by_invocation_prefix("shred", SelectionType::File).len(), 1);
}

#[test]
fn directory_only_verb_absent_for_files() {
    let only_dirs = external("tidy", "tidy {directory}", ExternalExecutionMode::StayInApp)
        .unwrap()
        .with_stype(SelectionType::Directory);
    let reg = registry_with(vec![only_dirs]);
    assert!(reg.by_invocation_prefix("tidy", SelectionType::File).is_empty());
    let (cmd, _) = external_command(invoke_text(&reg, "tidy", &dir_sel()));
    assert_eq!(cmd, "tidy /a/b");
}

#[test]
fn chmod_depends_on_selection_type() {
    let reg = registry_with(vec![]);
    let (cmd, _) = external_command(invoke_text(&reg, "chmod 755", &file_sel(None)));
    assert_eq!(cmd, "chmod 755 /a/b/c.txt");
    let (cmd, _) = external_command(invoke_text(&reg, "chmod 755", &dir_sel()));
    assert_eq!(cmd, "chmod -R 755 /a/b");
}

#[test]
fn resolution_is_repeatable() {
    let reg = registry_with(vec![]);
    let a = external_command(invoke_text(&reg, "move ../e f.txt", &file_sel(None)));
    let b = external_command(invoke_text(&reg, "move ../e f.txt", &file_sel(None)));
    assert_eq!(a, b);
    assert_eq!(a.0, "mv /a/b/c.txt '/a/e f.txt'");
}

#[test]
fn cd_leaves_to_parent_shell() {
    let reg = registry_with(vec![]);
    let (cmd, mode) = external_command(invoke_text(&reg, "cd", &dir_sel()));
    assert_eq!(cmd, "cd /a/b");
    assert_eq!(mode, ExternalExecutionMode::LeaveToParentShell);
    assert!(invoke_text(&reg, "cd", &file_sel(None)).is_none());
}

#[test]
fn mkdir_resolves_from_selected_directory() {
    let reg = registry_with(vec![]);
    let (cmd, _) = external_command(invoke_text(&reg, "mkdir x/./y", &dir_sel()));
    assert_eq!(cmd, "mkdir -p /a/b/x/y");
    let (cmd, _) = external_command(invoke_text(&reg, "mkdir /tmp/z", &file_sel(None)));
    assert_eq!(cmd, "mkdir -p /tmp/z");
}

#[test]
fn shortcut_without_argument_is_missing_argument() {
    let reg = registry_with(vec![]);
    match invoke_shortcut(&reg, "md", &dir_sel()) {
        Some(Err(e)) => assert_eq!(e, VerbError::MissingArgument),
        other => panic!("unexpected {:?}", other),
    }
}

#[test]
fn internal_requests_carry_bang() {
    let reg = registry_with(vec![]);
    match invoke_key(&reg, plain(KeyCode::Enter), &file_sel(None)) {
        Some(Ok(Request::Internal(q))) => {
            assert_eq!(q.internal, Internal::OpenStay);
            assert!(!q.bang);
            assert!(q.argument.is_none());
        }
        other => panic!("unexpected {:?}", other),
    }
    match invoke_key(&reg, chord(KeyCode::Char('p'), CONTROL), &file_sel(None)) {
        Some(Ok(Request::Internal(q))) => {
            assert_eq!(q.internal, Internal::StartEndPanel);
            assert!(q.bang);
        }
        other => panic!("unexpected {:?}", other),
    }
    assert!(invoke_key(&reg, plain(KeyCode::F(9)), &file_sel(None)).is_none());
}

#[test]
fn duplicate_bindings_are_refused() {
    let v = internal(Internal::Help).with_control_key('h').unwrap();
    assert_eq!(v.with_control_key('h').unwrap_err(), VerbError::DuplicateBinding);
    let v = internal(Internal::Help).with_shortcut("hh").unwrap();
    assert_eq!(v.with_shortcut("hh").unwrap_err(), VerbError::DuplicateBinding);
    let r = Verb::declare(
        Some("twice"),
        VerbExecution::Internal(InternalExecution::from_internal_bang(Internal::Help, false)),
        VerbDescription::from_text("help"),
        vec![plain(KeyCode::F(2)), plain(KeyCode::F(2))],
        vec![],
        SelectionFilter::Any,
    );
    assert_eq!(r.unwrap_err(), VerbError::DuplicateBinding);
    let r = Verb::declare(
        Some("twice"),
        VerbExecution::Internal(InternalExecution::from_internal_bang(Internal::Help, false)),
        VerbDescription::from_text("help"),
        vec![],
        vec!["a".to_string(), "a".to_string()],
        SelectionFilter::Any,
    );
    assert_eq!(r.unwrap_err(), VerbError::DuplicateBinding);
}

#[test]
fn shortcut_with_space_is_invalid() {
    let v = internal(Internal::Help);
    assert_eq!(v.with_shortcut("a b").unwrap_err(), VerbError::InvalidVerb);
    let v = internal(Internal::Help);
    assert_eq!(v.with_shortcut("").unwrap_err(), VerbError::InvalidVerb);
}

#[test]
fn malformed_patterns_are_invalid() {
    for p in ["open {a", "open a}", "x {a:bogus}", "x {a} {a}", "x {}", "x {a{b}}"] {
        let r = external(p, "echo", ExternalExecutionMode::StayInApp);
        assert_eq!(r.unwrap_err(), VerbError::InvalidVerb, "pattern {}", p);
    }
    let v = external("ok {a}", "echo {a", ExternalExecutionMode::StayInApp).unwrap();
    assert_eq!(v.command.len(), 1);
}

#[test]
fn pattern_segments() {
    let segs = parse_pattern(&chars("copy {newpath:path-from-parent} x")).unwrap();
    assert_eq!(segs.len(), 3);
    match &segs[0] {
        Segment::Literal(l) => assert_eq!(text(l), "copy "),
        other => panic!("unexpected {:?}", other),
    }
    match &segs[1] {
        Segment::Placeholder(n, k) => {
            assert_eq!(text(n), "newpath");
            assert_eq!(*k, ArgKind::PathFromParent);
        }
        other => panic!("unexpected {:?}", other),
    }
    let segs = parse_pattern(&chars("{a:none}{b:other-panel-directory}")).unwrap();
    match (&segs[0], &segs[1]) {
        (Segment::Placeholder(_, k1), Segment::Placeholder(_, k2)) => {
            assert_eq!(*k1, ArgKind::Plain);
            assert_eq!(*k2, ArgKind::OtherPanelDirectory);
        }
        other => panic!("unexpected {:?}", other),
    }
    assert_eq!(parse_pattern(&chars("")).unwrap().len(), 0);
}

#[test]
fn last_placeholder_takes_the_rest() {
    let segs = parse_pattern(&chars("x {a} {b}")).unwrap();
    let b = match_segments(&segs, &chars("x one two three")).unwrap();
    assert_eq!(b.len(), 2);
    assert_eq!(text(&b[0].name), "a");
    assert_eq!(text(&b[0].value), "one");
    assert_eq!(text(&b[1].name), "b");
    assert_eq!(text(&b[1].value), "two three");
    assert!(match_segments(&segs, &chars("x one")).is_none());
    assert!(match_segments(&segs, &chars("y one two")).is_none());
    assert!(match_segments(&segs, &chars("X one two")).is_none());
}

#[test]
fn specific_pattern_ranks_first() {
    let loose = external("c{x}", "echo loose {x}", ExternalExecutionMode::StayInApp).unwrap();
    let reg = registry_with(vec![loose]);
    let cands = reg.by_invocation_prefix("copy a", SelectionType::File);
    assert_eq!(cands.len(), 2);
    assert_eq!(invocation_of(&reg, cands[0]), "copy {newpath:path-from-parent}");
    assert_eq!(invocation_of(&reg, cands[1]), "c{x}");
}

#[test]
fn equal_specificity_later_wins() {
    let a = external("say {x}", "echo a {x}", ExternalExecutionMode::StayInApp).unwrap();
    let b = external("say {y:none}", "echo b {y}", ExternalExecutionMode::StayInApp).unwrap();
    let reg = registry_with(vec![a, b]);
    let (cmd, _) = external_command(invoke_text(&reg, "say hi", &file_sel(None)));
    assert_eq!(cmd, "echo b hi");
}

#[test]
fn user_verb_replaces_builtin_with_same_invocation() {
    let mine = external("rm", "trash {file}", ExternalExecutionMode::StayInApp).unwrap();
    let reg = registry_with(vec![mine]);
    let cands = reg.by_invocation_prefix("rm", SelectionType::File);
    assert_eq!(cands.len(), 1);
    let (cmd, _) = external_command(invoke_text(&reg, "rm", &file_sel(None)));
    assert_eq!(cmd, "trash /a/b/c.txt");
    let quit = user_internal("quit", Internal::Back);
    let reg = registry_with(vec![quit]);
    assert!(reg.by_key(chord(KeyCode::Char('c'), CONTROL), SelectionType::File).is_none());
    assert!(reg.by_shortcut("q").is_none());
}

#[test]
fn quoting_keeps_one_argument() {
    assert_eq!(text(&quote_exec(&chars("/a/b.txt"))), "/a/b.txt");
    assert_eq!(text(&quote_exec(&chars("a b"))), "'a b'");
    assert_eq!(text(&quote_exec(&chars("it's"))), "'it'\\''s'");
    assert_eq!(text(&quote_exec(&chars(""))), "''");
    assert_eq!(text(&quote_exec(&chars("$(rm)"))), "'$(rm)'");
}

#[test]
fn paths_are_normalized() {
    assert_eq!(text(&resolve_path(&chars("/a/b"), &chars("../d.txt"))), "/a/d.txt");
    assert_eq!(text(&resolve_path(&chars("/a/b"), &chars("/x//y/./z"))), "/x/y/z");
    assert_eq!(text(&resolve_path(&chars("/a"), &chars("../../.."))), "/");
    assert_eq!(text(&resolve_path(&chars("/a"), &chars("c/"))), "/a/c");
}

#[test]
fn internal_verb_argument_is_passed_on() {
    let focus = Verb::new(
        Some("goto {path}"),
        VerbExecution::Internal(InternalExecution::from_internal_bang(Internal::Focus, false)),
        VerbDescription::from_text("focus a path"),
    )
    .unwrap();
    let reg = registry_with(vec![focus]);
    match invoke_text(&reg, "goto /etc", &file_sel(None)) {
        Some(Ok(Request::Internal(q))) => {
            assert_eq!(q.internal, Internal::Focus);
            assert_eq!(text(q.argument.as_ref().unwrap()), "/etc");
        }
        other => panic!("unexpected {:?}", other),
    }
}

#[test]
fn resolve_reports_missing_argument() {
    let v = external("show", "cat {page}", ExternalExecutionMode::StayInApp).unwrap();
    match resolve(&v, &file_sel(None), &vec![]) {
        Err(e) => assert_eq!(e, VerbError::MissingArgument),
        Ok(r) => panic!("unexpected {:?}", r),
    }
}

#[test]
fn description_of_builtin_cd() {
    let verbs = builtin_verbs(all_caps());
    let cd = &verbs[1];
    assert_eq!(text(&cd.description.text), "change directory and quit");
    assert_eq!(cd.selection_filter, SelectionFilter::DirectoryOnly);
    assert!(!cd.description.code);
    let rm = verbs.iter().find(|v| v.invocation.as_ref().map(|i| text(i)) == Some("rm".to_string())).unwrap();
    assert_eq!(text(&rm.description.text), "rm -rf {file}");
    assert!(rm.description.code);
}

#[test]
fn typed_action_name_reaches_action() {
    let reg = registry_with(vec![]);
    match invoke_text(&reg, "quit", &file_sel(None)) {
        Some(Ok(Request::Internal(q))) => {
            assert_eq!(q.internal, Internal::Quit);
            assert!(!q.bang);
        }
        other => panic!("unexpected {:?}", other),
    }
    assert_eq!(Internal::StartEndPanel.name(), "start_end_panel");
    let v = internal_bang(Internal::StartEndPanel);
    assert_eq!(text(v.invocation.as_ref().unwrap()), "start_end_panel");
    assert_eq!(text(&v.description.text), Internal::StartEndPanel.description());
}

#[test]
fn shell_braces_in_template_stay_literal() {
    let v = external("purge", "find {file} -exec rm {} ;", ExternalExecutionMode::StayInApp).unwrap();
    let reg = registry_with(vec![v]);
    let (cmd, _) = external_command(invoke_text(&reg, "purge", &file_sel(None)));
    assert_eq!(cmd, "find /a/b/c.txt -exec rm {} ;");
    let v = external("odd", "echo {a:bogus} } {{file}", ExternalExecutionMode::StayInApp).unwrap();
    let reg = registry_with(vec![v]);
    let (cmd, _) = external_command(invoke_text(&reg, "odd", &file_sel(None)));
    assert_eq!(cmd, "echo {a:bogus} } {/a/b/c.txt");
}

#[test]
fn declarations_that_fail_are_reported_and_skipped() {
    let good = VerbDeclaration {
        invocation: Some("hello".to_string()),
        execution: VerbExecution::External(ExternalExecution::new("echo hello", ExternalExecutionMode::StayInApp)),
        description: VerbDescription::from_code("echo hello"),
        keys: vec![],
        shortcuts: vec!["hi".to_string()],
        selection_filter: SelectionFilter::Any,
    };
    let unreachable = VerbDeclaration {
        invocation: None,
        execution: VerbExecution::Internal(InternalExecution::from_internal_bang(Internal::Quit, false)),
        description: VerbDescription::from_text("nothing"),
        keys: vec![],
        shortcuts: vec![],
        selection_filter: SelectionFilter::Any,
    };
    let doubled = VerbDeclaration {
        invocation: Some("twice".to_string()),
        execution: VerbExecution::Internal(InternalExecution::from_internal_bang(Internal::Help, false)),
        description: VerbDescription::from_text("help"),
        keys: vec![plain(KeyCode::F(3)), plain(KeyCode::F(3))],
        shortcuts: vec![],
        selection_filter: SelectionFilter::Any,
    };
    let (reg, errors) = Registry::from_declarations(builtin_verbs(all_caps()), vec![unreachable, good, doubled]);
    assert_eq!(errors, vec![VerbError::InvalidVerb, VerbError::DuplicateBinding]);
    assert_eq!(reg.len(), 58);
    assert_eq!(invocation_of(&reg, 57), "hello");
    assert_eq!(reg.by_shortcut("hi"), Some(57));
}

#[test]
fn builtin_keys_reach_their_verbs() {
    let reg = registry_with(vec![]);
    let cases = [
        (plain(KeyCode::F(1)), "help"),
        (plain(KeyCode::F(5)), "refresh"),
        (plain(KeyCode::Enter), "open_stay"),
        (plain(KeyCode::Tab), "next_match"),
        (chord(KeyCode::Char('w'), CONTROL), "close_panel_cancel"),
        (chord(KeyCode::Char('s'), CONTROL), "total_search"),
        (chord(KeyCode::Left, CONTROL), "panel_left"),
        (plain(KeyCode::Down), "line_down"),
    ];
    for (k, name) in cases {
        let i = reg.by_key(k, SelectionType::File).unwrap();
        assert_eq!(invocation_of(&reg, i), name);
    }
    assert_eq!(invocation_of(&reg, reg.by_shortcut("cpp").unwrap()), "copy_to_panel");
    assert_eq!(invocation_of(&reg, reg.by_shortcut("mvp").unwrap()), "move_to_panel");
    assert!(reg.by_shortcut("c").is_none());
}
