use tmussh::naming::{BAD_NAME_CHARS, EMPTY_NAME};
use tmussh::text::{ascii_lower_char, is_white_space_char};
use tmussh::ui::{NEW_SESSION_TITLE, PICKER_HELP};
use tmussh::{
    action_command, attach_command, attach_command_with_term, new_session_command_with_term,
    no_sessions_title, remote_tmux_command_with_term, tmux_candidate_word, DEFAULT_REMOTE_TERM, centered_rect, classify_list_sessions_output,
    is_no_tmux_server_error, name_prompt_lines, new_session_command, parse_session_list,
    picker_step, remote_tmux_command, shell_quote, tmux_candidate_list, tmux_candidates,
    tmux_lookup_script, validate_new_session_name, Key, ListSessionsError, NamePrompt,
    PickerStep, PromptStep, Rect, TmuxAction,
};

/// Reads a word made of single-quoted runs and backslash escapes the way a
/// POSIX shell does.
fn read_shell_word(word: &str) -> Option<String> {
    let mut out = String::new();
    let mut quoted = false;
    let mut chars = word.chars();
    while let Some(c) = chars.next() {
        if quoted {
            if c == '\'' {
                quoted = false;
            } else {
                out.push(c);
            }
        } else if c == '\'' {
            quoted = true;
        } else if c == '\\' {
            match chars.next() {
                Some(n) if n != '\n' => out.push(n),
                _ => return None,
            }
        } else {
            return None;
        }
    }
    if quoted {
        None
    } else {
        Some(out)
    }
}

fn key(ch: char) -> Key {
    Key::Char { ch, control: false }
}

#[test]
fn shell_quote_wraps_and_escapes() {
    assert_eq!(shell_quote(""), "''");
    assert_eq!(shell_quote("work"), "'work'");
    assert_eq!(shell_quote("a'b"), r#"'a'\''b'"#);
    assert_eq!(shell_quote("''"), r#"''\'''\'''"#);
}

#[test]
fn shell_quote_reads_back() {
    for value in ["", "plain", "ops'prod", "a b\tc", "$HOME `x` \"q\"", "back\\slash", "'", "new\nline", "ünï ☃"] {
        assert_eq!(read_shell_word(&shell_quote(value)), Some(value.to_string()));
    }
}

#[test]
fn remote_command_reads_back_as_script() {
    let command = remote_tmux_command(Some("/bin/echo"), "hello 'x'");
    let word = command.strip_prefix("/bin/sh -lc ").unwrap();
    let script = read_shell_word(word).unwrap();
    assert_eq!(
        script,
        format!("{}exec \"$tmussh_tmux\" -u hello 'x'", tmux_lookup_script(Some("/bin/echo")))
    );
}

#[test]
fn session_argument_reads_back() {
    let command = attach_command("ops'prod", None);
    let script = read_shell_word(command.strip_prefix("/bin/sh -lc ").unwrap()).unwrap();
    let last = script.rsplit(" -t ").next().unwrap();
    assert_eq!(read_shell_word(last), Some("ops'prod".to_string()));
}

#[test]
fn valid_name_is_quoted_plainly() {
    assert!(validate_new_session_name("work_1.a-b").is_ok());
    assert_eq!(shell_quote("work_1.a-b"), "'work_1.a-b'");
}

#[test]
fn candidate_list_quotes_every_path() {
    assert_eq!(tmux_candidates().len(), 9);
    assert_eq!(
        tmux_candidate_list(),
        "'/opt/homebrew/bin/tmux' '/usr/local/bin/tmux' '/usr/bin/tmux' '/bin/tmux' '/snap/bin/tmux' '/run/current-system/sw/bin/tmux' \"$HOME/.nix-profile/bin/tmux\" \"$HOME/.local/bin/tmux\" \"$HOME/bin/tmux\""
    );
}

#[test]
fn lookup_script_searches_when_no_path_is_given() {
    assert_eq!(
        tmux_lookup_script(None),
        format!(
            "tmussh_tmux=$(command -v tmux 2>/dev/null || true); if [ -z \"$tmussh_tmux\" ]; then for tmussh_candidate in {}; do if [ -x \"$tmussh_candidate\" ]; then tmussh_tmux=$tmussh_candidate; break; fi; done; fi; if [ -z \"$tmussh_tmux\" ]; then printf '%s\\n' \"tmussh: tmux not found on remote host; install tmux or run tmussh --tmux-path /path/to/tmux\"; exit 127; fi; ",
            tmux_candidate_list()
        )
    );
}

#[test]
fn lookup_script_checks_the_given_path() {
    assert_eq!(
        tmux_lookup_script(Some("/x y/tmux")),
        "tmussh_tmux='/x y/tmux'; if [ ! -x \"$tmussh_tmux\" ]; then printf '%s\\n' \"tmussh: tmux is not executable at $tmussh_tmux\"; exit 127; fi; "
    );
}

#[test]
fn remote_command_wraps_the_script() {
    assert_eq!(
        remote_tmux_command(Some("t"), "ls"),
        r#"/bin/sh -lc 'tmussh_tmux='\''t'\''; if [ ! -x "$tmussh_tmux" ]; then printf '\''%s\n'\'' "tmussh: tmux is not executable at $tmussh_tmux"; exit 127; fi; exec "$tmussh_tmux" -u ls'"#
    );
}

#[test]
fn action_command_follows_the_action() {
    assert_eq!(action_command(&TmuxAction::Quit, None, DEFAULT_REMOTE_TERM), None);
    assert_eq!(
        action_command(&TmuxAction::Attach("w".to_string()), Some("/t"), "xterm-ghostty"),
        Some(attach_command_with_term("w", Some("/t"), "xterm-ghostty"))
    );
    assert_eq!(
        action_command(&TmuxAction::New("w".to_string()), None, DEFAULT_REMOTE_TERM),
        Some(new_session_command_with_term("w", None, "xterm-256color"))
    );
    assert_ne!(attach_command("w", None), new_session_command("w", None));
}

#[test]
fn commands_export_the_remote_term() {
    assert_eq!(DEFAULT_REMOTE_TERM, "xterm-256color");
    assert_eq!(
        attach_command_with_term("work", Some("/t"), "xterm-256color"),
        r#"/bin/sh -lc 'tmussh_tmux='\''/t'\''; if [ ! -x "$tmussh_tmux" ]; then printf '\''%s\n'\'' "tmussh: tmux is not executable at $tmussh_tmux"; exit 127; fi; export TERM='\''xterm-256color'\''; exec "$tmussh_tmux" -u attach-session -t '\''work'\'''"#
    );
    assert_eq!(
        new_session_command_with_term("n", None, "xterm-ghostty"),
        remote_tmux_command_with_term(None, "xterm-ghostty", "new-session -A -s 'n'")
    );
    let command = remote_tmux_command_with_term(None, "it's", "ls");
    let script = read_shell_word(command.strip_prefix("/bin/sh -lc ").unwrap()).unwrap();
    let term_word = script
        .split("export TERM=")
        .nth(1)
        .unwrap()
        .split("; exec")
        .next()
        .unwrap();
    assert_eq!(read_shell_word(term_word), Some("it's".to_string()));
    assert!(script.ends_with("exec \"$tmussh_tmux\" -u ls"));
}

#[test]
fn candidate_words_let_the_shell_expand_home() {
    assert_eq!(tmux_candidate_word("/usr/bin/tmux"), "'/usr/bin/tmux'");
    assert_eq!(tmux_candidate_word("$HOME/bin/tmux"), "\"$HOME/bin/tmux\"");
    assert_eq!(tmux_candidate_word("$HOMER/x"), "'$HOMER/x'");
    assert_eq!(tmux_candidate_word(""), "''");
}

#[test]
fn picker_texts() {
    assert_eq!(no_sessions_title("u@h"), "No tmux sessions found on u@h");
    assert_eq!(NEW_SESSION_TITLE, "New tmux session");
    assert_eq!(PICKER_HELP, "Up/Down or j/k move | Enter attach | n new | Esc or q quit");
}

#[test]
fn parse_session_list_trims_and_skips_blank_lines() {
    assert_eq!(parse_session_list(""), Vec::<String>::new());
    assert_eq!(parse_session_list("\n\n  \n\t\n"), Vec::<String>::new());
    assert_eq!(parse_session_list("  a b  \n\u{3000}c\u{a0}\nlast"), vec!["a b", "c", "last"]);
    assert_eq!(parse_session_list("x\r\ny\r"), vec!["x", "y"]);
}

#[test]
fn listing_reads_back() {
    let names = vec!["work", "ops", "misc.tools", "with space"];
    let mut listing = String::new();
    for n in &names {
        listing.push_str(n);
        listing.push('\n');
    }
    assert_eq!(parse_session_list(&listing), names);
}

#[test]
fn no_server_messages_ignore_case() {
    assert!(is_no_tmux_server_error("No Server Running on /tmp/x"));
    assert!(is_no_tmux_server_error("error: FAILED TO CONNECT TO SERVER"));
    assert!(is_no_tmux_server_error("no sessions"));
    assert!(!is_no_tmux_server_error("no session"));
    assert!(!is_no_tmux_server_error(""));
    assert!(!is_no_tmux_server_error("sh: tmux: not found"));
}

#[test]
fn classify_success_reads_the_names() {
    let sessions = classify_list_sessions_output(true, "a\n b \n", "no server running").ok().unwrap();
    assert_eq!(sessions, vec!["a", "b"]);
}

#[test]
fn classify_no_server_on_stdout() {
    let sessions = classify_list_sessions_output(false, "No sessions", "").ok().unwrap();
    assert!(sessions.is_empty());
}

#[test]
fn classify_failure_without_output() {
    let error: ListSessionsError = classify_list_sessions_output(false, " ", "\n").err().unwrap();
    assert_eq!(error.detail, "");
    assert_eq!(error.message(), "failed to list tmux sessions on the remote host");
}

#[test]
fn classify_failure_keeps_trimmed_output() {
    let error = classify_list_sessions_output(false, "out", "  boom \n").err().unwrap();
    assert_eq!(error.detail, "out\n  boom");
    assert_eq!(
        error.message(),
        "failed to list tmux sessions on the remote host: out\n  boom"
    );
}

#[test]
fn validation_messages() {
    assert_eq!(validate_new_session_name(""), Err(EMPTY_NAME));
    assert_eq!(
        validate_new_session_name("a/b"),
        Err("Use only letters, numbers, underscores, periods, and hyphens")
    );
    assert_eq!(validate_new_session_name("é"), Err(BAD_NAME_CHARS));
    assert_eq!(validate_new_session_name("Session name cannot be empty"), Err(BAD_NAME_CHARS));
    assert_eq!(validate_new_session_name("AZaz09_.-"), Ok(()));
}

#[test]
fn picker_keys() {
    let ctrl_c = Key::Char { ch: 'c', control: true };
    assert_eq!(picker_step(1, 3, ctrl_c), PickerStep::Quit);
    assert_eq!(picker_step(1, 3, key('q')), PickerStep::Quit);
    assert_eq!(picker_step(1, 3, Key::Esc), PickerStep::Quit);
    assert_eq!(picker_step(1, 3, key('n')), PickerStep::PromptNew);
    assert_eq!(picker_step(1, 3, Key::Up), PickerStep::Select(0));
    assert_eq!(picker_step(0, 3, key('k')), PickerStep::Select(0));
    assert_eq!(picker_step(1, 3, Key::Down), PickerStep::Select(2));
    assert_eq!(picker_step(3, 3, key('j')), PickerStep::Select(3));
    assert_eq!(picker_step(2, 3, Key::Enter), PickerStep::Attach(2));
    assert_eq!(picker_step(3, 3, Key::Enter), PickerStep::PromptNew);
    assert_eq!(picker_step(1, 3, key('c')), PickerStep::Stay);
    assert_eq!(picker_step(1, 3, Key::Backspace), PickerStep::Stay);
    assert_eq!(picker_step(0, 0, Key::Enter), PickerStep::PromptNew);
}

#[test]
fn name_prompt_typing() {
    let mut prompt = NamePrompt::new();
    assert!(matches!(prompt.handle_key(Key::Enter), PromptStep::Continue));
    assert_eq!(prompt.error, Some(EMPTY_NAME));
    assert!(matches!(prompt.handle_key(key('a')), PromptStep::Continue));
    assert_eq!(prompt.error, None);
    assert!(matches!(prompt.handle_key(key(' ')), PromptStep::Continue));
    assert!(matches!(prompt.handle_key(Key::Enter), PromptStep::Continue));
    assert_eq!(prompt.error, Some(BAD_NAME_CHARS));
    assert!(matches!(prompt.handle_key(Key::Backspace), PromptStep::Continue));
    assert_eq!(prompt.input, "a");
    assert_eq!(prompt.error, None);
    assert!(matches!(prompt.handle_key(Key::Up), PromptStep::Continue));
    assert!(matches!(prompt.handle_key(key('c')), PromptStep::Continue));
    assert_eq!(prompt.input, "ac");
    match prompt.handle_key(Key::Enter) {
        PromptStep::Submit(name) => assert_eq!(name, "ac"),
        _ => panic!("expected a submitted name"),
    }
}

#[test]
fn name_prompt_cancels() {
    let mut prompt = NamePrompt::new();
    assert!(matches!(prompt.handle_key(Key::Esc), PromptStep::Cancel));
    assert!(matches!(
        prompt.handle_key(Key::Char { ch: 'c', control: true }),
        PromptStep::Cancel
    ));
    assert!(matches!(prompt.handle_key(Key::Backspace), PromptStep::Continue));
    assert_eq!(prompt.input, "");
}

#[test]
fn name_prompt_lines_show_hint_or_error() {
    assert_eq!(
        name_prompt_lines("", None),
        vec![
            "Session name",
            " ",
            "",
            "Letters, numbers, underscores, periods, hyphens",
            "",
            "Enter create | Esc cancel"
        ]
    );
    assert_eq!(name_prompt_lines("w", Some(EMPTY_NAME))[1], "w");
    assert_eq!(name_prompt_lines("w", Some(EMPTY_NAME))[3], EMPTY_NAME);
}

#[test]
fn centered_rect_in_large_and_small_areas() {
    let area = Rect { x: 0, y: 0, width: 100, height: 50 };
    assert_eq!(centered_rect(area, 64, 9), Rect { x: 18, y: 20, width: 64, height: 9 });
    let small = Rect { x: 3, y: 4, width: 10, height: 5 };
    assert_eq!(centered_rect(small, 64, 9), small);
    let narrow = Rect { x: 1, y: 1, width: 30, height: 8 };
    assert_eq!(centered_rect(narrow, 64, 9), Rect { x: 1, y: 1, width: 30, height: 8 });
    let odd = Rect { x: 0, y: 0, width: 65, height: 10 };
    assert_eq!(centered_rect(odd, 64, 9), Rect { x: 0, y: 0, width: 64, height: 9 });
}

#[test]
fn character_helpers() {
    assert_eq!(ascii_lower_char('Q'), 'q');
    assert_eq!(ascii_lower_char('q'), 'q');
    assert_eq!(ascii_lower_char('Ä'), 'Ä');
    assert!(is_white_space_char('\u{2003}'));
    assert!(is_white_space_char('\u{85}'));
    for c in ['a', '\u{200b}', '_', '\u{feff}'] {
        assert_eq!(is_white_space_char(c), c.is_whitespace());
    }
    for c in [' ', '\t', '\n', '\r', '\u{b}', '\u{c}', '\u{a0}', '\u{1680}', '\u{2000}', '\u{200a}', '\u{2028}', '\u{2029}', '\u{202f}', '\u{205f}', '\u{3000}'] {
        assert!(is_white_space_char(c));
        assert!(c.is_whitespace());
    }
}

#[test]
fn empty_listing_opens_the_prompt_at_once() {
    assert_eq!(tmussh::start_screen(0), tmussh::Screen::NamePrompt);
    assert_eq!(tmussh::start_screen(1), tmussh::Screen::Picker);
    assert_eq!(tmussh::start_screen(7), tmussh::Screen::Picker);
}

#[test]
fn prompt_results_lead_to_actions() {
    assert_eq!(
        tmussh::action_after_start_prompt(Some("w".to_string())),
        TmuxAction::New("w".to_string())
    );
    assert_eq!(tmussh::action_after_start_prompt(None), TmuxAction::Quit);
    assert_eq!(
        tmussh::action_after_picker_prompt(Some("w".to_string())),
        Some(TmuxAction::New("w".to_string()))
    );
    assert_eq!(tmussh::action_after_picker_prompt(None), None);
}

#[test]
fn attach_takes_the_selected_session() {
    let sessions = vec!["a".to_string(), "b".to_string()];
    assert_eq!(tmussh::attach_selected(&sessions, 1), TmuxAction::Attach("b".to_string()));
    assert_eq!(tmussh::attach_selected(&sessions, 0), TmuxAction::Attach("a".to_string()));
}
