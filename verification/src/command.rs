//! The commands run on the remote host over ssh: a `/bin/sh -lc` wrapper
//! around a script that finds tmux and then runs it with the given arguments.
use vstd::prelude::*;
use crate::quote::{read_word, shell_quote, shell_quoted, lemma_shell_quoted_reads_back};
use crate::text::{chars_of, occurs_at, occurs_at_exec, push_char};

verus! {

/// What the user chose to do on the remote host.
#[derive(Debug, Clone, PartialEq, Eq)]
pub enum TmuxAction {
    /// Attach to the named existing session.
    Attach(String),
    /// Create the named session, or attach to it if it exists.
    New(String),
    /// Do nothing.
    Quit,
}

/// The remote shell that runs the script, as a login shell.
pub const SH_LOGIN_COMMAND: &'static str = "/bin/sh -lc ";

/// Start of the script when the tmux path is given.
pub const GIVEN_PATH_HEAD: &'static str = "tmussh_tmux=";

/// End of the script's lookup part when the tmux path is given.
pub const GIVEN_PATH_TAIL: &'static str = "; if [ ! -x \"$tmussh_tmux\" ]; then printf '%s\\n' \"tmussh: tmux is not executable at $tmussh_tmux\"; exit 127; fi; ";

/// Start of the script when tmux is searched for.
pub const SEARCH_HEAD: &'static str = "tmussh_tmux=$(command -v tmux 2>/dev/null || true); if [ -z \"$tmussh_tmux\" ]; then for tmussh_candidate in ";

/// End of the script's lookup part when tmux is searched for.
pub const SEARCH_TAIL: &'static str = "; do if [ -x \"$tmussh_candidate\" ]; then tmussh_tmux=$tmussh_candidate; break; fi; done; fi; if [ -z \"$tmussh_tmux\" ]; then printf '%s\\n' \"tmussh: tmux not found on remote host; install tmux or run tmussh --tmux-path /path/to/tmux\"; exit 127; fi; ";

/// What runs the tmux that was found, in UTF-8 mode, before its arguments.
pub const EXEC_TMUX: &'static str = "exec \"$tmussh_tmux\" -u ";

/// The terminal type that remote tmux sees unless the user names another,
/// one that hosts without newer terminal definitions know.
pub const DEFAULT_REMOTE_TERM: &'static str = "xterm-256color";

/// What sets and exports `TERM` for tmux, before its quoted value.
pub const TERM_EXPORT: &'static str = "export TERM=";

/// What ends the `TERM` setting.
pub const TERM_END: &'static str = "; ";

/// tmux arguments that attach to a session, before its quoted name.
pub const ATTACH_ARGS: &'static str = "attach-session -t ";

/// tmux arguments that create or attach to a session, before its quoted name.
pub const NEW_SESSION_ARGS: &'static str = "new-session -A -s ";

/// tmux arguments that list the session names, one per line.
pub const LIST_SESSIONS_ARGS: &'static str = "list-sessions -F '#S' 2>&1";

/// The places where tmux is looked for when `command -v` finds none.
pub open spec fn tmux_candidate_paths() -> Seq<Seq<char>> {
    seq![
        "/opt/homebrew/bin/tmux"@,
        "/usr/local/bin/tmux"@,
        "/usr/bin/tmux"@,
        "/bin/tmux"@,
        "/snap/bin/tmux"@,
        "/run/current-system/sw/bin/tmux"@,
        "$HOME/.nix-profile/bin/tmux"@,
        "$HOME/.local/bin/tmux"@,
        "$HOME/bin/tmux"@,
    ]
}

/// The words `ws` joined by single spaces.
pub open spec fn join_words(ws: Seq<Seq<char>>) -> Seq<char>
    decreases ws.len(),
{
    if ws.len() == 0 {
        seq![]
    } else if ws.len() == 1 {
        ws[0]
    } else {
        join_words(ws.drop_last()) + seq![' '] + ws.last()
    }
}

/// The start of a candidate path that lies under the remote user's home.
pub open spec fn home_prefix() -> Seq<char> {
    seq!['$', 'H', 'O', 'M', 'E', '/']
}

/// How a candidate path is written in the list: a path that starts with
/// `$HOME/` stands in double quotes, so that the remote shell expands `HOME`;
/// any other path is single-quoted and taken literally.
pub open spec fn candidate_word(p: Seq<char>) -> Seq<char> {
    if occurs_at(p, home_prefix(), 0) {
        seq!['"'] + p + seq!['"']
    } else {
        shell_quoted(p)
    }
}

/// The candidate paths, each written as `candidate_word` says, joined by
/// spaces.
pub open spec fn candidate_list() -> Seq<char> {
    join_words(tmux_candidate_paths().map_values(|p: Seq<char>| candidate_word(p)))
}

/// A character taken literally inside double quotes.
pub open spec fn is_double_quote_plain(c: char) -> bool {
    c != '"' && c != '\\' && c != '$' && c != '`'
}

/// The value that a POSIX shell gives to a double-quoted word that starts with
/// `$HOME/` and holds no other character that is special inside double
/// quotes: the value of `HOME` followed by the rest of the path. `None` for
/// any other word.
pub open spec fn read_home_word(s: Seq<char>, home: Seq<char>) -> Option<Seq<char>> {
    if s.len() >= 8 && s[0] == '"' && s.last() == '"' && s.subrange(1, 7) == home_prefix() && (
    forall|i: int| 7 <= i < s.len() - 1 ==> is_double_quote_plain(#[trigger] s[i])) {
        Some(home + s.subrange(6, s.len() - 1))
    } else {
        None
    }
}

/// The value that a POSIX shell gives to one word of the candidate list,
/// where `home` is the value of `HOME`: a double-quoted `$HOME` path as
/// `read_home_word` says, any other word as `read_word` says.
pub open spec fn read_list_word(s: Seq<char>, home: Seq<char>) -> Option<Seq<char>> {
    if s.len() > 0 && s[0] == '"' {
        read_home_word(s, home)
    } else {
        read_word(s, false)
    }
}

/// The path that the shell looks at for a candidate: `$HOME` replaced by
/// `home` in a path under the home directory, any other path as it is.
pub open spec fn expanded_path(p: Seq<char>, home: Seq<char>) -> Seq<char> {
    if occurs_at(p, home_prefix(), 0) {
        home + p.skip(5)
    } else {
        p
    }
}

/// The view of an optional string.
pub open spec fn opt_view(o: Option<&str>) -> Option<Seq<char>> {
    match o {
        Some(s) => Some(s@),
        None => None,
    }
}

/// The part of the script that sets `tmussh_tmux` to the tmux to run, or
/// prints why none can run and exits with status 127.
pub open spec fn lookup_script(tmux_path: Option<Seq<char>>) -> Seq<char> {
    match tmux_path {
        Some(p) => GIVEN_PATH_HEAD@ + shell_quoted(p) + GIVEN_PATH_TAIL@,
        None => SEARCH_HEAD@ + candidate_list() + SEARCH_TAIL@,
    }
}

/// The whole script: find tmux, then run it with `tmux_args`.
pub open spec fn remote_script(tmux_path: Option<Seq<char>>, tmux_args: Seq<char>) -> Seq<char> {
    lookup_script(tmux_path) + EXEC_TMUX@ + tmux_args
}

/// The command line handed to ssh: the script, quoted, run by `/bin/sh -lc`.
pub open spec fn remote_command(tmux_path: Option<Seq<char>>, tmux_args: Seq<char>) -> Seq<char> {
    SH_LOGIN_COMMAND@ + shell_quoted(remote_script(tmux_path, tmux_args))
}

/// The script with `TERM` set to `remote_term` for tmux: find tmux, export
/// `TERM`, then run tmux with `tmux_args`.
pub open spec fn remote_script_with_term(
    tmux_path: Option<Seq<char>>,
    remote_term: Seq<char>,
    tmux_args: Seq<char>,
) -> Seq<char> {
    lookup_script(tmux_path) + TERM_EXPORT@ + shell_quoted(remote_term) + TERM_END@ + EXEC_TMUX@
        + tmux_args
}

/// The command line handed to ssh that runs tmux with `TERM` set to
/// `remote_term`.
pub open spec fn remote_command_with_term(
    tmux_path: Option<Seq<char>>,
    remote_term: Seq<char>,
    tmux_args: Seq<char>,
) -> Seq<char> {
    SH_LOGIN_COMMAND@ + shell_quoted(remote_script_with_term(tmux_path, remote_term, tmux_args))
}

/// The command that attaches to `session` with tmux seeing `TERM` as
/// `remote_term`.
pub open spec fn attach_command_with_term_text(
    session: Seq<char>,
    tmux_path: Option<Seq<char>>,
    remote_term: Seq<char>,
) -> Seq<char> {
    remote_command_with_term(tmux_path, remote_term, ATTACH_ARGS@ + shell_quoted(session))
}

/// The command that creates `session`, or attaches to it, with tmux seeing
/// `TERM` as `remote_term`.
pub open spec fn new_session_command_with_term_text(
    session: Seq<char>,
    tmux_path: Option<Seq<char>>,
    remote_term: Seq<char>,
) -> Seq<char> {
    remote_command_with_term(tmux_path, remote_term, NEW_SESSION_ARGS@ + shell_quoted(session))
}

/// The command that attaches to `session`.
pub open spec fn attach_command_text(session: Seq<char>, tmux_path: Option<Seq<char>>) -> Seq<
    char,
> {
    remote_command(tmux_path, ATTACH_ARGS@ + shell_quoted(session))
}

/// The command that creates `session`, or attaches to it if it exists.
pub open spec fn new_session_command_text(
    session: Seq<char>,
    tmux_path: Option<Seq<char>>,
) -> Seq<char> {
    remote_command(tmux_path, NEW_SESSION_ARGS@ + shell_quoted(session))
}

/// The command that lists the session names.
pub open spec fn list_sessions_command_text(tmux_path: Option<Seq<char>>) -> Seq<char> {
    remote_command(tmux_path, LIST_SESSIONS_ARGS@)
}

/// The command that carries out `action` with tmux seeing `TERM` as
/// `remote_term`; none for `Quit`.
pub open spec fn action_command_text(
    action: TmuxAction,
    tmux_path: Option<Seq<char>>,
    remote_term: Seq<char>,
) -> Option<Seq<char>> {
    match action {
        TmuxAction::Attach(s) => Some(attach_command_with_term_text(s@, tmux_path, remote_term)),
        TmuxAction::New(s) => Some(new_session_command_with_term_text(s@, tmux_path, remote_term)),
        TmuxAction::Quit => None,
    }
}

/// The places where tmux is looked for, in order.
pub fn tmux_candidates() -> (res: Vec<&'static str>)
    ensures
        res@.map_values(|s: &str| s@) == tmux_candidate_paths(),
{
    let v = vec![
        "/opt/homebrew/bin/tmux",
        "/usr/local/bin/tmux",
        "/usr/bin/tmux",
        "/bin/tmux",
        "/snap/bin/tmux",
        "/run/current-system/sw/bin/tmux",
        "$HOME/.nix-profile/bin/tmux",
        "$HOME/.local/bin/tmux",
        "$HOME/bin/tmux",
    ];
    proof {
        assert(v@.map_values(|s: &str| s@) =~= tmux_candidate_paths());
    }
    v
}

/// How the candidate path `path` is written in the list: in double quotes
/// when it starts with `$HOME/`, single-quoted otherwise.
pub fn tmux_candidate_word(path: &str) -> (res: String)
    ensures
        res@ == candidate_word(path@),
{
    let chars = chars_of(path);
    let prefix = vec!['$', 'H', 'O', 'M', 'E', '/'];
    proof {
        assert(prefix@ =~= home_prefix());
    }
    if occurs_at_exec(&chars, &prefix, 0) {
        let mut out = String::new();
        push_char(&mut out, '"');
        out.append(path);
        push_char(&mut out, '"');
        proof {
            assert(out@ =~= seq!['"'] + path@ + seq!['"']);
        }
        out
    } else {
        shell_quote(path)
    }
}

/// The candidate paths, each written as `tmux_candidate_word` does, joined
/// by spaces.
pub fn tmux_candidate_list() -> (res: String)
    ensures
        res@ == candidate_list(),
{
    let candidates = tmux_candidates();
    let ghost quoted = tmux_candidate_paths().map_values(|p: Seq<char>| candidate_word(p));
    let mut out = String::new();
    let n = candidates.len();
    for i in 0..n
        invariant
            n == candidates@.len(),
            candidates@.map_values(|s: &str| s@) == tmux_candidate_paths(),
            quoted == tmux_candidate_paths().map_values(|p: Seq<char>| candidate_word(p)),
            out@ == join_words(quoted.take(i as int)),
    {
        let ghost before = out@;
        if i > 0 {
            push_char(&mut out, ' ');
        }
        let q = tmux_candidate_word(candidates[i]);
        out.append(q.as_str());
        proof {
            assert(candidates@[i as int]@ == tmux_candidate_paths()[i as int]);
            assert(q@ == quoted[i as int]);
            let t = quoted.take(i + 1);
            assert(t.drop_last() =~= quoted.take(i as int));
            assert(t.last() == quoted[i as int]);
            if i == 0 {
                assert(out@ =~= t[0]);
            } else {
                assert(out@ =~= before + seq![' '] + q@);
            }
        }
    }
    proof {
        assert(quoted.take(n as int) =~= quoted);
    }
    out
}

/// The part of the script that finds the tmux to run: the given path, which
/// must be executable, or else `command -v tmux` and then the candidate paths.
pub fn tmux_lookup_script(tmux_path: Option<&str>) -> (res: String)
    ensures
        res@ == lookup_script(opt_view(tmux_path)),
{
    match tmux_path {
        Some(path) => {
            let mut out = GIVEN_PATH_HEAD.to_owned();
            let q = shell_quote(path);
            out.append(q.as_str());
            out.append(GIVEN_PATH_TAIL);
            out
        },
        None => {
            let mut out = SEARCH_HEAD.to_owned();
            let list = tmux_candidate_list();
            out.append(list.as_str());
            out.append(SEARCH_TAIL);
            out
        },
    }
}

/// The command line that runs tmux with `tmux_args` on the remote host.
pub fn remote_tmux_command(tmux_path: Option<&str>, tmux_args: &str) -> (res: String)
    ensures
        res@ == remote_command(opt_view(tmux_path), tmux_args@),
{
    let mut script = tmux_lookup_script(tmux_path);
    script.append(EXEC_TMUX);
    script.append(tmux_args);
    let mut out = SH_LOGIN_COMMAND.to_owned();
    let q = shell_quote(script.as_str());
    out.append(q.as_str());
    out
}

/// The command line that runs tmux with `tmux_args` on the remote host,
/// with `TERM` exported as `remote_term` for tmux.
pub fn remote_tmux_command_with_term(
    tmux_path: Option<&str>,
    remote_term: &str,
    tmux_args: &str,
) -> (res: String)
    ensures
        res@ == remote_command_with_term(opt_view(tmux_path), remote_term@, tmux_args@),
{
    let mut script = tmux_lookup_script(tmux_path);
    script.append(TERM_EXPORT);
    let term = shell_quote(remote_term);
    script.append(term.as_str());
    script.append(TERM_END);
    script.append(EXEC_TMUX);
    script.append(tmux_args);
    let mut out = SH_LOGIN_COMMAND.to_owned();
    let q = shell_quote(script.as_str());
    out.append(q.as_str());
    out
}

/// The command line that attaches to `session`, with tmux seeing `TERM` as
/// `remote_term`.
pub fn attach_command_with_term(session: &str, tmux_path: Option<&str>, remote_term: &str) -> (res:
    String)
    ensures
        res@ == attach_command_with_term_text(session@, opt_view(tmux_path), remote_term@),
{
    let mut args = ATTACH_ARGS.to_owned();
    let q = shell_quote(session);
    args.append(q.as_str());
    remote_tmux_command_with_term(tmux_path, remote_term, args.as_str())
}

/// The command line that creates `session`, or attaches to it if it exists,
/// with tmux seeing `TERM` as `remote_term`.
pub fn new_session_command_with_term(
    session: &str,
    tmux_path: Option<&str>,
    remote_term: &str,
) -> (res: String)
    ensures
        res@ == new_session_command_with_term_text(session@, opt_view(tmux_path), remote_term@),
{
    let mut args = NEW_SESSION_ARGS.to_owned();
    let q = shell_quote(session);
    args.append(q.as_str());
    remote_tmux_command_with_term(tmux_path, remote_term, args.as_str())
}

/// The command line that attaches to `session`.
pub fn attach_command(session: &str, tmux_path: Option<&str>) -> (res: String)
    ensures
        res@ == attach_command_text(session@, opt_view(tmux_path)),
{
    let mut args = ATTACH_ARGS.to_owned();
    let q = shell_quote(session);
    args.append(q.as_str());
    remote_tmux_command(tmux_path, args.as_str())
}

/// The command line that creates `session`, or attaches to it if it exists.
pub fn new_session_command(session: &str, tmux_path: Option<&str>) -> (res: String)
    ensures
        res@ == new_session_command_text(session@, opt_view(tmux_path)),
{
    let mut args = NEW_SESSION_ARGS.to_owned();
    let q = shell_quote(session);
    args.append(q.as_str());
    remote_tmux_command(tmux_path, args.as_str())
}

/// The command line that lists the session names, one per line, with
/// tmux's error output joined to its standard output.
pub fn list_sessions_command(tmux_path: Option<&str>) -> (res: String)
    ensures
        res@ == list_sessions_command_text(opt_view(tmux_path)),
{
    remote_tmux_command(tmux_path, LIST_SESSIONS_ARGS)
}

/// The command line that carries out `action` with tmux seeing `TERM` as
/// `remote_term`, or `None` for `Quit`, which runs nothing.
pub fn action_command(action: &TmuxAction, tmux_path: Option<&str>, remote_term: &str) -> (res:
    Option<String>)
    ensures
        match res {
            Some(c) => action_command_text(*action, opt_view(tmux_path), remote_term@) == Some(
                c@,
            ),
            None => action_command_text(*action, opt_view(tmux_path), remote_term@) is None,
        },
{
    match action {
        TmuxAction::Attach(session) => Some(
            attach_command_with_term(session.as_str(), tmux_path, remote_term),
        ),
        TmuxAction::New(session) => Some(
            new_session_command_with_term(session.as_str(), tmux_path, remote_term),
        ),
        TmuxAction::Quit => None,
    }
}

/// The remote shell reads the single word after `/bin/sh -lc ` back as the
/// whole script, so `tmux_args` reach tmux as written.
pub proof fn lemma_remote_command_reads_back(tmux_path: Option<Seq<char>>, tmux_args: Seq<char>)
    ensures
        remote_command(tmux_path, tmux_args).subrange(0, SH_LOGIN_COMMAND@.len() as int)
            == SH_LOGIN_COMMAND@,
        read_word(
            remote_command(tmux_path, tmux_args).subrange(
                SH_LOGIN_COMMAND@.len() as int,
                remote_command(tmux_path, tmux_args).len() as int,
            ),
            false,
        ) == Some(remote_script(tmux_path, tmux_args)),
{
    let c = remote_command(tmux_path, tmux_args);
    let q = shell_quoted(remote_script(tmux_path, tmux_args));
    assert(c.subrange(0, SH_LOGIN_COMMAND@.len() as int) =~= SH_LOGIN_COMMAND@);
    assert(c.subrange(SH_LOGIN_COMMAND@.len() as int, c.len() as int) =~= q);
    lemma_shell_quoted_reads_back(remote_script(tmux_path, tmux_args));
}

/// The session name ends the script of an attach or new-session command as
/// one quoted word, which the shell running the script reads back as the name.
pub proof fn lemma_session_argument_reads_back(session: Seq<char>, tmux_path: Option<Seq<char>>)
    ensures
        remote_script(tmux_path, ATTACH_ARGS@ + shell_quoted(session)) == lookup_script(tmux_path)
            + EXEC_TMUX@ + ATTACH_ARGS@ + shell_quoted(session),
        remote_script(tmux_path, NEW_SESSION_ARGS@ + shell_quoted(session)) == lookup_script(
            tmux_path,
        ) + EXEC_TMUX@ + NEW_SESSION_ARGS@ + shell_quoted(session),
        read_word(shell_quoted(session), false) == Some(session),
{
    lemma_shell_quoted_reads_back(session);
    assert(remote_script(tmux_path, ATTACH_ARGS@ + shell_quoted(session)) =~= lookup_script(
        tmux_path,
    ) + EXEC_TMUX@ + ATTACH_ARGS@ + shell_quoted(session));
    assert(remote_script(tmux_path, NEW_SESSION_ARGS@ + shell_quoted(session)) =~= lookup_script(
        tmux_path,
    ) + EXEC_TMUX@ + NEW_SESSION_ARGS@ + shell_quoted(session));
}

/// The remote shell reads the word after `/bin/sh -lc ` back as the whole
/// script, in which the value exported as `TERM` reads back as `remote_term`:
/// remote tmux sees exactly the terminal type it was given.
pub proof fn lemma_remote_term_reads_back(
    tmux_path: Option<Seq<char>>,
    remote_term: Seq<char>,
    tmux_args: Seq<char>,
)
    ensures
        remote_command_with_term(tmux_path, remote_term, tmux_args).subrange(
            0,
            SH_LOGIN_COMMAND@.len() as int,
        ) == SH_LOGIN_COMMAND@,
        read_word(
            remote_command_with_term(tmux_path, remote_term, tmux_args).subrange(
                SH_LOGIN_COMMAND@.len() as int,
                remote_command_with_term(tmux_path, remote_term, tmux_args).len() as int,
            ),
            false,
        ) == Some(remote_script_with_term(tmux_path, remote_term, tmux_args)),
        remote_script_with_term(tmux_path, remote_term, tmux_args) == lookup_script(tmux_path)
            + TERM_EXPORT@ + shell_quoted(remote_term) + TERM_END@ + EXEC_TMUX@ + tmux_args,
        read_word(shell_quoted(remote_term), false) == Some(remote_term),
{
    let c = remote_command_with_term(tmux_path, remote_term, tmux_args);
    let script = remote_script_with_term(tmux_path, remote_term, tmux_args);
    assert(c.subrange(0, SH_LOGIN_COMMAND@.len() as int) =~= SH_LOGIN_COMMAND@);
    assert(c.subrange(SH_LOGIN_COMMAND@.len() as int, c.len() as int) =~= shell_quoted(script));
    lemma_shell_quoted_reads_back(script);
    lemma_shell_quoted_reads_back(remote_term);
}

/// Every word of the candidate list reads, in the remote shell, as the path
/// that it names: absolute paths literally, paths under the home directory
/// with `$HOME` replaced by the value of `HOME`.
pub proof fn lemma_candidate_word_reads_as_path(p: Seq<char>, home: Seq<char>)
    requires
        occurs_at(p, home_prefix(), 0) ==> forall|i: int|
            6 <= i < p.len() ==> is_double_quote_plain(#[trigger] p[i]),
    ensures
        read_list_word(candidate_word(p), home) == Some(expanded_path(p, home)),
{
    let w = candidate_word(p);
    if occurs_at(p, home_prefix(), 0) {
        assert(w.subrange(1, 7) =~= p.subrange(0, 6));
        assert forall|i: int| 7 <= i < w.len() - 1 implies is_double_quote_plain(#[trigger] w[i]) by {
            assert(w[i] == p[i - 1]);
        }
        assert(w.subrange(6, w.len() - 1) =~= p.skip(5));
    } else {
        lemma_shell_quoted_reads_back(p);
    }
}

/// The remote shell searches every candidate directory, including the Nix
/// profile and the user-local ones under the value `home` of `HOME`: each
/// word of the candidate list reads as its path, `$HOME` expanded.
pub proof fn lemma_candidates_read_as_paths(home: Seq<char>)
    ensures
        forall|k: int|
            0 <= k < tmux_candidate_paths().len() ==> read_list_word(
                #[trigger] candidate_word(tmux_candidate_paths()[k]),
                home,
            ) == Some(expanded_path(tmux_candidate_paths()[k], home)),
{
    reveal_strlit("/opt/homebrew/bin/tmux");
    reveal_strlit("/usr/local/bin/tmux");
    reveal_strlit("/usr/bin/tmux");
    reveal_strlit("/bin/tmux");
    reveal_strlit("/snap/bin/tmux");
    reveal_strlit("/run/current-system/sw/bin/tmux");
    reveal_strlit("$HOME/.nix-profile/bin/tmux");
    reveal_strlit("$HOME/.local/bin/tmux");
    reveal_strlit("$HOME/bin/tmux");
    let paths = tmux_candidate_paths();
    assert forall|k: int| 0 <= k < paths.len() implies read_list_word(
        #[trigger] candidate_word(paths[k]),
        home,
    ) == Some(expanded_path(paths[k], home)) by {
        let p = paths[k];
        if occurs_at(p, home_prefix(), 0) {
            assert(p[0] == '$');
            assert(k >= 6);
            assert forall|i: int| 6 <= i < p.len() implies is_double_quote_plain(#[trigger] p[i]) by {
            }
        }
        lemma_candidate_word_reads_as_path(p, home);
    }
}

/// The text of a command line after `/bin/sh -lc `, read back by the remote
/// shell as one word.
pub open spec fn script_read_from(command: Seq<char>) -> Option<Seq<char>> {
    if command.len() >= 12 && command.subrange(0, 12) == "/bin/sh -lc "@ {
        read_word(command.skip(12), false)
    } else {
        None
    }
}

/// A command line of `remote_command_with_term` is `/bin/sh -lc ` and its
/// script, quoted so that it reads back.
proof fn lemma_term_command_reads(
    tmux_path: Option<Seq<char>>,
    remote_term: Seq<char>,
    tmux_args: Seq<char>,
)
    ensures
        script_read_from(remote_command_with_term(tmux_path, remote_term, tmux_args)) == Some(
            lookup_script(tmux_path) + "export TERM="@ + shell_quoted(remote_term) + "; "@
                + "exec \"$tmussh_tmux\" -u "@ + tmux_args,
        ),
{
    reveal_strlit("/bin/sh -lc ");
    assert(SH_LOGIN_COMMAND@ == "/bin/sh -lc "@);
    assert(TERM_EXPORT@ == "export TERM="@);
    assert(TERM_END@ == "; "@);
    assert(EXEC_TMUX@ == "exec \"$tmussh_tmux\" -u "@);
    let c = remote_command_with_term(tmux_path, remote_term, tmux_args);
    let script = remote_script_with_term(tmux_path, remote_term, tmux_args);
    assert(c.subrange(0, 12) =~= "/bin/sh -lc "@);
    assert(c.skip(12) =~= shell_quoted(script));
    lemma_shell_quoted_reads_back(script);
    assert(script =~= lookup_script(tmux_path) + "export TERM="@ + shell_quoted(remote_term)
        + "; "@ + "exec \"$tmussh_tmux\" -u "@ + tmux_args);
}

/// A command line of `remote_command` is `/bin/sh -lc ` and its script,
/// quoted so that it reads back.
proof fn lemma_command_reads(tmux_path: Option<Seq<char>>, tmux_args: Seq<char>)
    ensures
        script_read_from(remote_command(tmux_path, tmux_args)) == Some(
            lookup_script(tmux_path) + "exec \"$tmussh_tmux\" -u "@ + tmux_args,
        ),
{
    reveal_strlit("/bin/sh -lc ");
    assert(SH_LOGIN_COMMAND@ == "/bin/sh -lc "@);
    assert(EXEC_TMUX@ == "exec \"$tmussh_tmux\" -u "@);
    let c = remote_command(tmux_path, tmux_args);
    let script = remote_script(tmux_path, tmux_args);
    assert(c.subrange(0, 12) =~= "/bin/sh -lc "@);
    assert(c.skip(12) =~= shell_quoted(script));
    lemma_shell_quoted_reads_back(script);
}

/// The lookup part of every script: with a tmux path given, it sets
/// `tmussh_tmux` to that path, quoted so that it reads back, and checks that
/// it can run; without one, it searches.
pub proof fn law_lookup_script(tmux_path: Option<Seq<char>>)
    ensures
        tmux_path matches Some(p) ==> (lookup_script(tmux_path) == "tmussh_tmux="@ + shell_quoted(
            p,
        ) + GIVEN_PATH_TAIL@ && read_word(shell_quoted(p), false) == Some(p)),
        tmux_path is None ==> lookup_script(tmux_path) == SEARCH_HEAD@ + candidate_list()
            + SEARCH_TAIL@,
{
    assert(GIVEN_PATH_HEAD@ == "tmussh_tmux="@);
    if let Some(p) = tmux_path {
        lemma_shell_quoted_reads_back(p);
    }
}

/// The listing command: for every tmux path, the remote shell reads the
/// word after `/bin/sh -lc ` as the lookup for that path followed by
/// `exec "$tmussh_tmux" -u list-sessions -F '#S' 2>&1`, so tmux prints only
/// the session names, one per line.
pub proof fn law_list_sessions_command(tmux_path: Option<Seq<char>>)
    ensures
        script_read_from(list_sessions_command_text(tmux_path)) == Some(
            lookup_script(tmux_path) + "exec \"$tmussh_tmux\" -u "@
                + "list-sessions -F '#S' 2>&1"@,
        ),
{
    assert(LIST_SESSIONS_ARGS@ == "list-sessions -F '#S' 2>&1"@);
    lemma_command_reads(tmux_path, LIST_SESSIONS_ARGS@);
}

/// The attach and new-session commands: for every session, tmux path and
/// terminal type, the remote shell reads the word after `/bin/sh -lc ` as the
/// lookup for that path, `TERM` exported as that terminal type, then tmux run
/// with `attach-session -t` or `new-session -A -s` and the quoted session
/// name, which reads back as the name.
pub proof fn law_session_commands(
    session: Seq<char>,
    tmux_path: Option<Seq<char>>,
    remote_term: Seq<char>,
)
    ensures
        script_read_from(attach_command_with_term_text(session, tmux_path, remote_term)) == Some(
            lookup_script(tmux_path) + "export TERM="@ + shell_quoted(remote_term) + "; "@
                + "exec \"$tmussh_tmux\" -u "@ + "attach-session -t "@ + shell_quoted(session),
        ),
        script_read_from(new_session_command_with_term_text(session, tmux_path, remote_term))
            == Some(
            lookup_script(tmux_path) + "export TERM="@ + shell_quoted(remote_term) + "; "@
                + "exec \"$tmussh_tmux\" -u "@ + "new-session -A -s "@ + shell_quoted(session),
        ),
        script_read_from(attach_command_text(session, tmux_path)) == Some(
            lookup_script(tmux_path) + "exec \"$tmussh_tmux\" -u "@ + "attach-session -t "@
                + shell_quoted(session),
        ),
        script_read_from(new_session_command_text(session, tmux_path)) == Some(
            lookup_script(tmux_path) + "exec \"$tmussh_tmux\" -u "@ + "new-session -A -s "@
                + shell_quoted(session),
        ),
        read_word(shell_quoted(session), false) == Some(session),
        read_word(shell_quoted(remote_term), false) == Some(remote_term),
{
    assert(ATTACH_ARGS@ == "attach-session -t "@);
    assert(NEW_SESSION_ARGS@ == "new-session -A -s "@);
    let a = ATTACH_ARGS@ + shell_quoted(session);
    let n = NEW_SESSION_ARGS@ + shell_quoted(session);
    lemma_term_command_reads(tmux_path, remote_term, a);
    lemma_term_command_reads(tmux_path, remote_term, n);
    lemma_command_reads(tmux_path, a);
    lemma_command_reads(tmux_path, n);
    let pre_t = lookup_script(tmux_path) + "export TERM="@ + shell_quoted(remote_term) + "; "@
        + "exec \"$tmussh_tmux\" -u "@;
    assert(pre_t + a =~= pre_t + "attach-session -t "@ + shell_quoted(session));
    assert(pre_t + n =~= pre_t + "new-session -A -s "@ + shell_quoted(session));
    let pre = lookup_script(tmux_path) + "exec \"$tmussh_tmux\" -u "@;
    assert(pre + a =~= pre + "attach-session -t "@ + shell_quoted(session));
    assert(pre + n =~= pre + "new-session -A -s "@ + shell_quoted(session));
    lemma_shell_quoted_reads_back(session);
    lemma_shell_quoted_reads_back(remote_term);
}

/// The command of each action: attaching or creating a session runs the
/// script of `law_session_commands` for that very session, the given tmux
/// path and the given terminal type; quitting runs nothing.
pub proof fn law_action_command(action: TmuxAction, tmux_path: Option<Seq<char>>, remote_term: Seq<char>)
    ensures
        action matches TmuxAction::Attach(s) ==> (action_command_text(
            action,
            tmux_path,
            remote_term,
        ) matches Some(c) && script_read_from(c) == Some(
            lookup_script(tmux_path) + "export TERM="@ + shell_quoted(remote_term) + "; "@
                + "exec \"$tmussh_tmux\" -u "@ + "attach-session -t "@ + shell_quoted(s@),
        )),
        action matches TmuxAction::New(s) ==> (action_command_text(
            action,
            tmux_path,
            remote_term,
        ) matches Some(c) && script_read_from(c) == Some(
            lookup_script(tmux_path) + "export TERM="@ + shell_quoted(remote_term) + "; "@
                + "exec \"$tmussh_tmux\" -u "@ + "new-session -A -s "@ + shell_quoted(s@),
        )),
        action is Quit ==> action_command_text(action, tmux_path, remote_term) is None,
{
    match action {
        TmuxAction::Attach(s) => law_session_commands(s@, tmux_path, remote_term),
        TmuxAction::New(s) => law_session_commands(s@, tmux_path, remote_term),
        TmuxAction::Quit => {},
    }
}

} // verus!
