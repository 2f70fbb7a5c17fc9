use tmussh::{
    attach_command, classify_list_sessions_output, list_sessions_command, new_session_command,
    parse_session_list, validate_new_session_name,
};
#[test]
fn parses_session_list() {
    assert_eq!(
        parse_session_list("work\nops\r\n\nmisc.tools\n"),
        vec!["work", "ops", "misc.tools"]
    );
}

#[test]
fn classifies_no_tmux_server_as_empty() {
    let sessions =
        classify_list_sessions_output(false, "", "no server running on /tmp/tmux-1000/default")
            .unwrap();

    assert!(sessions.is_empty());
}

#[test]
fn surfaces_missing_tmux_as_error() {
    let error = classify_list_sessions_output(false, "", "sh: 1: tmux: not found")
        .unwrap_err()
        .message();

    assert!(error.contains("tmux: not found"));
}

#[test]
fn surfaces_ssh_failures_as_errors() {
    let error = classify_list_sessions_output(
        false,
        "",
        "ssh: Could not resolve hostname example.invalid",
    )
    .unwrap_err()
    .message();

    assert!(error.contains("Could not resolve hostname"));
}

#[test]
fn validates_new_session_names() {
    assert!(validate_new_session_name("work_2026.06-prod").is_ok());
    assert!(validate_new_session_name("").is_err());
    assert!(validate_new_session_name("work session").is_err());
    assert!(validate_new_session_name("prod;rm").is_err());
}

#[test]
fn builds_remote_commands_with_shell_quoting() {
    assert_eq!(
        attach_command("work", Some("/custom/bin/tmux")),
        r#"/bin/sh -lc 'tmussh_tmux='\''/custom/bin/tmux'\''; if [ ! -x "$tmussh_tmux" ]; then printf '\''%s\n'\'' "tmussh: tmux is not executable at $tmussh_tmux"; exit 127; fi; exec "$tmussh_tmux" -u attach-session -t '\''work'\'''"#
    );
    assert_eq!(
        attach_command("ops'prod", Some("/custom/bin/tmux")),
        r#"/bin/sh -lc 'tmussh_tmux='\''/custom/bin/tmux'\''; if [ ! -x "$tmussh_tmux" ]; then printf '\''%s\n'\'' "tmussh: tmux is not executable at $tmussh_tmux"; exit 127; fi; exec "$tmussh_tmux" -u attach-session -t '\''ops'\''\'\'''\''prod'\'''"#
    );
    assert_eq!(
        new_session_command("new-work", Some("/custom/bin/tmux")),
        r#"/bin/sh -lc 'tmussh_tmux='\''/custom/bin/tmux'\''; if [ ! -x "$tmussh_tmux" ]; then printf '\''%s\n'\'' "tmussh: tmux is not executable at $tmussh_tmux"; exit 127; fi; exec "$tmussh_tmux" -u new-session -A -s '\''new-work'\'''"#
    );
}

#[test]
fn list_command_searches_common_tmux_locations() {
    let command = list_sessions_command(None);

    assert!(command.starts_with("/bin/sh -lc "));
    assert!(command.contains("command -v tmux"));
    assert!(command.contains("/opt/homebrew/bin/tmux"));
    assert!(command.contains("/usr/local/bin/tmux"));
    assert!(command.contains("/run/current-system/sw/bin/tmux"));
    assert!(command.contains("$HOME/.nix-profile/bin/tmux"));
    assert_eq!(
        list_sessions_command(Some("/custom/bin/tmux")),
        r#"/bin/sh -lc 'tmussh_tmux='\''/custom/bin/tmux'\''; if [ ! -x "$tmussh_tmux" ]; then printf '\''%s\n'\'' "tmussh: tmux is not executable at $tmussh_tmux"; exit 127; fi; exec "$tmussh_tmux" -u list-sessions -F '\''#S'\'' 2>&1'"#
    );
}
