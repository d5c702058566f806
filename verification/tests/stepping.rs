use shell_core::shell::{Effect, Event, ShellState};

fn line(text: &str, path_var: Option<&str>) -> Event {
    Event::Line { text: text.to_string(), path_var: path_var.map(|p| p.to_string()) }
}

#[test]
fn exit_with_numeric_argument() {
    let out = ShellState::initial(None).step(line("exit 42", None));
    assert!(matches!(out.effect, Effect::Exit(42)));
    assert!(out.output.is_none());
}

#[test]
fn exit_without_argument_defaults_to_one() {
    let out = ShellState::initial(None).step(line("exit", None));
    assert!(matches!(out.effect, Effect::Exit(1)));
}

#[test]
fn exit_with_unparsable_argument_defaults_to_one() {
    let out = ShellState::initial(None).step(line("exit abc", None));
    assert!(matches!(out.effect, Effect::Exit(1)));
}

#[test]
fn exit_takes_only_the_first_token() {
    let out = ShellState::initial(None).step(line("exit 7 99", None));
    assert!(matches!(out.effect, Effect::Exit(7)));
}

#[test]
fn end_of_input_exits_cleanly() {
    let out = ShellState::initial(None).step(Event::EndOfInput);
    assert!(matches!(out.effect, Effect::Exit(0)));
    assert!(out.output.is_none());
}

#[test]
fn echo_writes_arguments_and_newline() {
    let out = ShellState::initial(None).step(line("echo hello world", None));
    assert_eq!(out.output.as_deref(), Some("hello world\n"));
    assert!(matches!(out.effect, Effect::Done(0)));
}

#[test]
fn echo_keeps_inner_spacing_verbatim() {
    let out = ShellState::initial(None).step(line("echo  spaced   out", None));
    assert_eq!(out.output.as_deref(), Some("spaced   out\n"));
}

#[test]
fn echo_without_arguments_writes_bare_newline() {
    let out = ShellState::initial(None).step(line("echo", None));
    assert_eq!(out.output.as_deref(), Some("\n"));
}

#[test]
fn pwd_prints_inherited_directory_in_fresh_session() {
    let out = ShellState::initial(Some("/start".to_string())).step(line("pwd", None));
    assert_eq!(out.output.as_deref(), Some("/start\n"));
    assert!(matches!(out.effect, Effect::Done(0)));
}

#[test]
fn pwd_prints_empty_when_unset() {
    let out = ShellState::initial(None).step(line("pwd", None));
    assert_eq!(out.output.as_deref(), Some("\n"));
}

#[test]
fn pwd_twice_is_identical() {
    let first = ShellState::initial(Some("/somewhere".to_string())).step(line("pwd", None));
    let second = first.state.step(line("pwd", None));
    assert_eq!(first.output, second.output);
}

#[test]
fn cd_success_updates_pwd() {
    let out = ShellState::initial(Some("/start".to_string())).step(line("cd /tmp", None));
    let p = match out.effect {
        Effect::QueryCanonical(p) => p,
        _ => panic!("expected a canonicalize query"),
    };
    assert_eq!(p, "/tmp");
    assert!(out.output.is_none());
    let out = out.state.step(Event::Canonical(Some("/tmp".to_string())));
    match &out.effect {
        Effect::ChangeDir(q) => assert_eq!(q, "/tmp"),
        _ => panic!("expected a directory change"),
    }
    let out = out.state.step(line("pwd", None));
    assert_eq!(out.output.as_deref(), Some("/tmp\n"));
}

#[test]
fn cd_failure_reports_and_preserves_pwd() {
    let out = ShellState::initial(Some("/keep".to_string()))
        .step(line("cd /definitely/not/a/real/path", None));
    let out = out.state.step(Event::Canonical(None));
    assert_eq!(
        out.output.as_deref(),
        Some("/definitely/not/a/real/path: No such file or directory\n")
    );
    assert!(matches!(out.effect, Effect::Done(0)));
    let out = out.state.step(line("pwd", None));
    assert_eq!(out.output.as_deref(), Some("/keep\n"));
}

#[test]
fn cd_with_tilde_or_nothing_asks_for_home() {
    let out = ShellState::initial(None).step(line("cd ~", None));
    assert!(matches!(out.effect, Effect::QueryHome));
    let out = out.state.step(Event::HomeDir(Some("/home/me".to_string())));
    assert!(matches!(out.effect, Effect::ChangeDir(_)));
    let out = out.state.step(line("pwd", None));
    assert_eq!(out.output.as_deref(), Some("/home/me\n"));

    let out = ShellState::initial(None).step(line("cd", None));
    assert!(matches!(out.effect, Effect::QueryHome));
    let out = out.state.step(Event::HomeDir(None));
    assert_eq!(out.output.as_deref(), Some("no home directory found\n"));
    assert!(matches!(out.effect, Effect::Done(0)));
}

#[test]
fn type_reports_builtins() {
    let out = ShellState::initial(None).step(line("type echo", None));
    assert_eq!(out.output.as_deref(), Some("echo is a shell builtin\n"));
    assert!(matches!(out.effect, Effect::Done(0)));
}

#[test]
fn type_reports_missing_commands() {
    let out = ShellState::initial(None).step(line("type nonexistent_cmd_xyz", Some("/a")));
    match &out.effect {
        Effect::QueryExists(p) => assert_eq!(p, "/a/nonexistent_cmd_xyz"),
        _ => panic!("expected an existence query"),
    }
    let out = out.state.step(Event::Exists(false));
    assert_eq!(out.output.as_deref(), Some("nonexistent_cmd_xyz not found\n"));
    assert!(matches!(out.effect, Effect::Done(1)));
}

#[test]
fn type_reports_missing_commands_without_path() {
    let out = ShellState::initial(None).step(line("type nonexistent_cmd_xyz", None));
    assert_eq!(out.output.as_deref(), Some("nonexistent_cmd_xyz not found\n"));
    assert!(matches!(out.effect, Effect::Done(1)));
}

#[test]
fn type_resolves_an_existing_command() {
    let out = ShellState::initial(None).step(line("type ls", Some("/a:/b")));
    match &out.effect {
        Effect::QueryExists(p) => assert_eq!(p, "/a/ls"),
        _ => panic!("expected an existence query"),
    }
    let out = out.state.step(Event::Exists(false));
    match &out.effect {
        Effect::QueryExists(p) => assert_eq!(p, "/b/ls"),
        _ => panic!("expected an existence query"),
    }
    let out = out.state.step(Event::Exists(true));
    assert_eq!(out.output.as_deref(), Some("ls is /b/ls\n"));
    assert!(matches!(out.effect, Effect::Done(1)));
}

#[test]
fn path_order_first_entry_wins() {
    let out = ShellState::initial(None).step(line("type cmd", Some("/dirA:/dirB")));
    match &out.effect {
        Effect::QueryExists(p) => assert_eq!(p, "/dirA/cmd"),
        _ => panic!("expected an existence query"),
    }
    let out = out.state.step(Event::Exists(true));
    assert_eq!(out.output.as_deref(), Some("cmd is /dirA/cmd\n"));
}

#[test]
fn unknown_command_reports_and_loop_continues() {
    let out = ShellState::initial(None).step(line("foobarbaz", Some("/x")));
    match &out.effect {
        Effect::QueryExists(p) => assert_eq!(p, "/x/foobarbaz"),
        _ => panic!("expected an existence query"),
    }
    let out = out.state.step(Event::Exists(false));
    assert_eq!(out.output.as_deref(), Some("foobarbaz: command not found\n"));
    assert!(matches!(out.effect, Effect::Done(1)));
    let next = line("echo still alive", None);
    assert!(out.state.accepts_event(&next));
    let out = out.state.step(next);
    assert_eq!(out.output.as_deref(), Some("still alive\n"));
}

#[test]
fn path_without_real_entries_is_not_searched() {
    let out = ShellState::initial(None).step(line("prog", Some("")));
    assert_eq!(out.output.as_deref(), Some("prog: command not found\n"));
    assert!(matches!(out.effect, Effect::Done(1)));
    let out = ShellState::initial(None).step(line("type ls", Some("::")));
    assert_eq!(out.output.as_deref(), Some("ls not found\n"));
    assert!(matches!(out.effect, Effect::Done(1)));
}

#[test]
fn empty_path_entries_are_skipped_in_search() {
    let out = ShellState::initial(None).step(line("cmd", Some(":/bin:")));
    match &out.effect {
        Effect::QueryExists(p) => assert_eq!(p, "/bin/cmd"),
        _ => panic!("expected an existence query"),
    }
    let out = out.state.step(Event::Exists(false));
    assert_eq!(out.output.as_deref(), Some("cmd: command not found\n"));
    assert!(matches!(out.effect, Effect::Done(1)));
}

#[test]
fn unknown_command_without_path_reports_directly() {
    let out = ShellState::initial(None).step(line("foobarbaz", None));
    assert_eq!(out.output.as_deref(), Some("foobarbaz: command not found\n"));
    assert!(matches!(out.effect, Effect::Done(1)));
}

#[test]
fn empty_line_resolves_to_not_found() {
    let out = ShellState::initial(None).step(line("", Some("/bin")));
    assert_eq!(out.output.as_deref(), Some(": command not found\n"));
    assert!(matches!(out.effect, Effect::Done(1)));
    let out = out.state.step(line("   \t ", Some("/bin")));
    assert_eq!(out.output.as_deref(), Some(": command not found\n"));
}

#[test]
fn external_command_runs_with_one_opaque_argument() {
    let out = ShellState::initial(None).step(line("prog hello world", Some("/bin")));
    let out = out.state.step(Event::Exists(true));
    match &out.effect {
        Effect::Spawn { program, arg } => {
            assert_eq!(program, "/bin/prog");
            assert_eq!(arg.as_deref(), Some("hello world"));
        }
        _ => panic!("expected a spawn"),
    }
    let out = out.state.step(Event::ChildStatus(Some(7)));
    assert!(matches!(out.effect, Effect::Done(7)));
}

#[test]
fn external_command_without_arguments_spawns_bare() {
    let out = ShellState::initial(None).step(line("prog", Some("/bin")));
    let out = out.state.step(Event::Exists(true));
    match &out.effect {
        Effect::Spawn { program, arg } => {
            assert_eq!(program, "/bin/prog");
            assert!(arg.is_none());
        }
        _ => panic!("expected a spawn"),
    }
}

#[test]
fn failed_spawn_yields_failure_status() {
    let out = ShellState::initial(None).step(line("prog", Some("/bin")));
    let out = out.state.step(Event::Exists(true));
    let out = out.state.step(Event::ChildStatus(None));
    assert!(matches!(out.effect, Effect::Done(1)));
}

#[test]
fn accepts_event_follows_protocol() {
    let st = ShellState::initial(None);
    assert!(st.accepts_event(&Event::EndOfInput));
    assert!(!st.accepts_event(&Event::Exists(true)));
    assert!(st.is_well_formed());
    let out = st.step(line("cd /tmp", None));
    assert!(out.state.accepts_event(&Event::Canonical(None)));
    assert!(!out.state.accepts_event(&Event::EndOfInput));
    assert!(out.state.is_well_formed());
}
