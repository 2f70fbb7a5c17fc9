# tmussh

`tmussh user@host` lists the tmux sessions of a remote host over `ssh`, lets
the user pick one (or name a new one) in a terminal interface, and attaches to
it with `ssh -t`.

- `src/` is the library, verified with Verus:
  - `text.rs`: white space, trimming, ASCII lower case, substring search;
  - `quote.rs`: single-quoting for a POSIX shell, with a model of how the
    shell reads the quoted word back and the proof that it reads back the value;
  - `command.rs`: the `/bin/sh -lc` commands that find tmux (the given path,
    `command -v`, then common locations, `$HOME` ones expanded by the remote
    shell) and run it with `TERM` exported (`xterm-256color` unless
    `--remote-term` names another);
  - `sessions.rs`: reading `tmux list-sessions` output and its failures;
  - `naming.rs`: the rule for new session names;
  - `ui.rs`: what each key press does in the picker and the name prompt, the
    prompt's text and its place on the screen.
- `app/main.rs` is the program: arguments, `ssh`, and drawing with ratatui.
- `tests/` runs the library on concrete values.
