//! Reading what `tmux list-sessions` printed on the remote host: the session
//! names, the "no server" case, and the error for every other failure.
use vstd::prelude::*;
use crate::text::{
    occurs_at,
    ascii_lower, ascii_lower_seq, chars_of, contains_seq, is_white_space, lemma_trim_is_trimmed,
    lemma_trim_keeps_trimmed, lower_chars_of, push_char, contains_chars, trim, trim_bounds,
    trimmed,
};

verus! {

/// The first words of every failure to list the sessions.
pub const LIST_FAILED: &'static str = "failed to list tmux sessions on the remote host";

/// What joins the first words of a failure to its detail.
pub const DETAIL_SEPARATOR: &'static str = ": ";

/// tmux says this when no server runs.
pub const NO_SERVER_RUNNING: &'static str = "no server running";

/// tmux says this when it cannot reach its server.
pub const FAILED_TO_CONNECT: &'static str = "failed to connect to server";

/// tmux says this when the server holds no session.
pub const NO_SESSIONS: &'static str = "no sessions";

/// The lines of `s`, split at each `'\n'`; the text after the last `'\n'` is
/// the last line, empty when `s` ends with `'\n'`.
pub open spec fn split_lines(s: Seq<char>) -> Seq<Seq<char>>
    decreases s.len(),
{
    if s.len() == 0 {
        seq![seq![]]
    } else {
        let prev = split_lines(s.drop_last());
        if s.last() == '\n' {
            prev.push(seq![])
        } else {
            prev.update(prev.len() - 1, prev.last().push(s.last()))
        }
    }
}

/// The trimmed lines that are not empty, in order.
pub open spec fn session_lines(lines: Seq<Seq<char>>) -> Seq<Seq<char>>
    decreases lines.len(),
{
    if lines.len() == 0 {
        seq![]
    } else {
        let earlier = session_lines(lines.drop_last());
        let t = trim(lines.last());
        if t.len() > 0 {
            earlier.push(t)
        } else {
            earlier
        }
    }
}

/// The session names that the listing `stdout` holds: its lines, trimmed,
/// without the blank ones.
pub open spec fn session_names(stdout: Seq<char>) -> Seq<Seq<char>> {
    session_lines(split_lines(stdout))
}

/// The views of a sequence of strings.
pub open spec fn strings_view(v: Seq<String>) -> Seq<Seq<char>> {
    v.map_values(|s: String| s@)
}

/// Whether a message, ignoring ASCII case, tells that no tmux server runs or
/// that it holds no session.
pub open spec fn no_server_message(message: Seq<char>) -> bool {
    let m = ascii_lower_seq(message);
    ||| contains_seq(m, NO_SERVER_RUNNING@)
    ||| contains_seq(m, FAILED_TO_CONNECT@)
    ||| contains_seq(m, NO_SESSIONS@)
}

/// Standard output and error output of the listing, joined by a newline.
pub open spec fn combined_output(stdout: Seq<char>, stderr: Seq<char>) -> Seq<char> {
    stdout + seq!['\n'] + stderr
}

/// The outcome of a listing: the session names, or the detail of the failure.
pub open spec fn listing_outcome(success: bool, stdout: Seq<char>, stderr: Seq<char>) -> Result<
    Seq<Seq<char>>,
    Seq<char>,
> {
    if success {
        Ok(session_names(stdout))
    } else if no_server_message(combined_output(stdout, stderr)) {
        Ok(seq![])
    } else {
        Err(trim(combined_output(stdout, stderr)))
    }
}

/// The message of a failed listing with the given detail.
pub open spec fn failure_message(detail: Seq<char>) -> Seq<char> {
    if detail.len() == 0 {
        LIST_FAILED@
    } else {
        LIST_FAILED@ + DETAIL_SEPARATOR@ + detail
    }
}

/// A name as `tmux list-sessions` can print it: not empty, on one line, with
/// no white space at either end.
pub open spec fn is_listed_name(n: Seq<char>) -> bool {
    &&& n.len() > 0
    &&& !is_white_space(n[0])
    &&& !is_white_space(n.last())
    &&& forall|i: int| 0 <= i < n.len() ==> n[i] != '\n'
}

/// The names, each followed by a newline, as tmux prints them.
pub open spec fn listing_of(names: Seq<Seq<char>>) -> Seq<char>
    decreases names.len(),
{
    if names.len() == 0 {
        seq![]
    } else {
        listing_of(names.drop_last()) + names.last() + seq!['\n']
    }
}

/// Listing the sessions failed for another reason than a missing server.
#[derive(Debug)]
pub struct ListSessionsError {
    /// The trimmed output of the failed listing; empty when there was none.
    pub detail: String,
}

impl ListSessionsError {
    /// The message that tells the user that the listing failed, with the
    /// detail after a colon when there is one.
    pub fn message(&self) -> (res: String)
        ensures
            res@ == failure_message(self.detail@),
    {
        let mut out = LIST_FAILED.to_owned();
        if !self.detail.as_str().is_empty() {
            out.append(DETAIL_SEPARATOR);
            out.append(self.detail.as_str());
        }
        out
    }
}

/// Every listing splits into at least one line.
proof fn lemma_split_lines_len(s: Seq<char>)
    ensures
        split_lines(s).len() >= 1,
    decreases s.len(),
{
    if s.len() > 0 {
        lemma_split_lines_len(s.drop_last());
    }
}

/// The session names of a listing, one string per non-blank line, trimmed.
pub fn parse_session_list(stdout: &str) -> (res: Vec<String>)
    ensures
        strings_view(res@) == session_names(stdout@),
{
    let mut out: Vec<String> = Vec::new();
    let mut cur: Vec<char> = Vec::new();
    let ghost mut done: Seq<Seq<char>> = seq![];
    proof {
        assert(stdout@.take(0) =~= Seq::<char>::empty());
        assert(split_lines(Seq::<char>::empty()) =~= done.push(cur@));
        assert(strings_view(out@) =~= session_lines(done));
    }
    for c in it: stdout.chars()
        invariant
            it.seq() == stdout@,
            split_lines(it.seq().take(it.index() as int)) == done.push(cur@),
            strings_view(out@) == session_lines(done),
    {
        let ghost prefix = it.seq().take(it.index() + 1);
        proof {
            assert(prefix.drop_last() =~= it.seq().take(it.index() as int));
            assert(prefix.last() == c);
        }
        if c == '\n' {
            let t = trimmed(&cur);
            let ghost old_out = out@;
            if !t.as_str().is_empty() {
                out.push(t);
                proof {
                    assert(strings_view(out@) =~= strings_view(old_out).push(trim(cur@)));
                }
            }
            proof {
                assert(done.push(cur@).drop_last() =~= done);
                done = done.push(cur@);
            }
            cur = Vec::new();
            proof {
                assert(split_lines(prefix) =~= done.push(cur@));
            }
        } else {
            cur.push(c);
            proof {
                lemma_split_lines_len(prefix.drop_last());
                assert(split_lines(prefix) =~= done.push(cur@));
            }
        }
    }
    let t = trimmed(&cur);
    let ghost old_out = out@;
    if !t.as_str().is_empty() {
        out.push(t);
        proof {
            assert(strings_view(out@) =~= strings_view(old_out).push(trim(cur@)));
        }
    }
    proof {
        assert(stdout@.take(stdout@.len() as int) =~= stdout@);
        assert(done.push(cur@).drop_last() =~= done);
    }
    out
}

/// Whether `message`, ignoring ASCII case, says that no tmux server runs,
/// that tmux cannot reach it, or that it holds no session.
pub fn is_no_tmux_server_error(message: &str) -> (res: bool)
    ensures
        res == no_server_message(message@),
        res == says_no_server(message@),
{
    proof {
        law_no_server_phrases(message@);
    }
    let lower = lower_chars_of(message);
    let running = chars_of(NO_SERVER_RUNNING);
    if contains_chars(&lower, &running) {
        return true;
    }
    let connect = chars_of(FAILED_TO_CONNECT);
    if contains_chars(&lower, &connect) {
        return true;
    }
    let sessions = chars_of(NO_SESSIONS);
    contains_chars(&lower, &sessions)
}

/// The session names when the listing succeeded; no names when it failed
/// because no server runs or none holds a session; otherwise the error, whose
/// detail is the trimmed output, standard and error output joined by a
/// newline.
pub fn classify_list_sessions_output(success: bool, stdout: &str, stderr: &str) -> (res: Result<
    Vec<String>,
    ListSessionsError,
>)
    ensures
        match res {
            Ok(v) => listing_outcome(success, stdout@, stderr@) == Ok::<
                Seq<Seq<char>>,
                Seq<char>,
            >(strings_view(v@)),
            Err(e) => listing_outcome(success, stdout@, stderr@) == Err::<
                Seq<Seq<char>>,
                Seq<char>,
            >(e.detail@),
        },
{
    if success {
        return Ok(parse_session_list(stdout));
    }
    let mut combined = stdout.to_owned();
    push_char(&mut combined, '\n');
    combined.append(stderr);
    proof {
        assert(combined@ =~= combined_output(stdout@, stderr@));
    }
    if is_no_tmux_server_error(combined.as_str()) {
        let empty: Vec<String> = Vec::new();
        proof {
            assert(strings_view(empty@) =~= Seq::<Seq<char>>::empty());
        }
        return Ok(empty);
    }
    let chars = chars_of(combined.as_str());
    let detail = trimmed(&chars);
    Err(ListSessionsError { detail })
}

/// Every session name read from any listing is non-empty, on one line and
/// trimmed.
pub proof fn lemma_session_names_are_listed_names(stdout: Seq<char>)
    ensures
        forall|i: int|
            0 <= i < session_names(stdout).len() ==> is_listed_name(
                #[trigger] session_names(stdout)[i],
            ),
{
    lemma_split_lines_single_line(stdout);
    lemma_session_lines_listed(split_lines(stdout));
}

/// No line of a split holds a newline.
proof fn lemma_split_lines_single_line(s: Seq<char>)
    ensures
        forall|k: int, j: int|
            0 <= k < split_lines(s).len() && 0 <= j < split_lines(s)[k].len() ==> #[trigger] split_lines(
                s,
            )[k][j] != '\n',
    decreases s.len(),
{
    if s.len() > 0 {
        lemma_split_lines_single_line(s.drop_last());
        lemma_split_lines_len(s.drop_last());
        let prev = split_lines(s.drop_last());
        if s.last() != '\n' {
            let cur = split_lines(s);
            assert forall|k: int, j: int|
                0 <= k < cur.len() && 0 <= j < cur[k].len() implies #[trigger] cur[k][j]
                != '\n' by {
                if k == prev.len() - 1 {
                    if j < prev.last().len() {
                        assert(cur[k][j] == prev[k][j]);
                    }
                } else {
                    assert(cur[k] == prev[k]);
                }
            }
        }
    }
}

/// The trimmed, non-blank lines of lines without newlines are listed names.
proof fn lemma_session_lines_listed(lines: Seq<Seq<char>>)
    requires
        forall|k: int, j: int|
            0 <= k < lines.len() && 0 <= j < lines[k].len() ==> #[trigger] lines[k][j] != '\n',
    ensures
        forall|i: int|
            0 <= i < session_lines(lines).len() ==> is_listed_name(
                #[trigger] session_lines(lines)[i],
            ),
    decreases lines.len(),
{
    if lines.len() > 0 {
        let rest = lines.drop_last();
        assert forall|k: int, j: int|
            0 <= k < rest.len() && 0 <= j < rest[k].len() implies #[trigger] rest[k][j]
            != '\n' by {
            assert(rest[k] == lines[k]);
        }
        lemma_session_lines_listed(rest);
        let line = lines.last();
        let t = trim(line);
        lemma_trim_is_trimmed(line);
        let (a, b) = trim_bounds(line);
        assert forall|j: int| 0 <= j < t.len() implies t[j] != '\n' by {
            assert(t[j] == line[a + j]);
            assert(lines[lines.len() - 1][a + j] != '\n');
        }
        let earlier = session_lines(rest);
        assert forall|i: int|
            0 <= i < session_lines(lines).len() implies is_listed_name(
                #[trigger] session_lines(lines)[i],
            ) by {
            if i < earlier.len() {
                assert(session_lines(lines)[i] == earlier[i]);
            } else {
                assert(session_lines(lines)[i] == t);
            }
        }
    }
}

/// A line without newlines appended to a text extends its last line.
proof fn lemma_split_lines_append(p: Seq<char>, x: Seq<char>)
    requires
        forall|i: int| 0 <= i < x.len() ==> x[i] != '\n',
    ensures
        split_lines(p).len() >= 1,
        split_lines(p + x) == split_lines(p).update(
            split_lines(p).len() - 1,
            split_lines(p).last() + x,
        ),
    decreases x.len(),
{
    lemma_split_lines_len(p);
    if x.len() == 0 {
        assert(p + x =~= p);
        assert(split_lines(p).last() + x =~= split_lines(p).last());
        assert(split_lines(p).update(split_lines(p).len() - 1, split_lines(p).last())
            =~= split_lines(p));
    } else {
        let y = x.drop_last();
        lemma_split_lines_append(p, y);
        assert((p + x).drop_last() =~= p + y);
        assert((p + x).last() == x.last());
        let sp = split_lines(p);
        assert((sp.last() + y).push(x.last()) =~= sp.last() + x);
        assert(split_lines(p + x) =~= sp.update(sp.len() - 1, sp.last() + x));
    }
}

/// A listing of names splits into the names and a last empty line.
proof fn lemma_split_listing(names: Seq<Seq<char>>)
    requires
        forall|k: int| 0 <= k < names.len() ==> is_listed_name(#[trigger] names[k]),
    ensures
        split_lines(listing_of(names)) == names.push(seq![]),
    decreases names.len(),
{
    if names.len() == 0 {
        assert(split_lines(Seq::<char>::empty()) =~= names.push(seq![]));
    } else {
        let rest = names.drop_last();
        assert forall|k: int| 0 <= k < rest.len() implies is_listed_name(#[trigger] rest[k]) by {
            assert(rest[k] == names[k]);
        }
        lemma_split_listing(rest);
        let j = listing_of(rest);
        let last = names.last();
        assert(is_listed_name(names[names.len() - 1]));
        lemma_split_lines_append(j, last);
        let s = listing_of(names);
        assert(s.drop_last() =~= j + last);
        assert(s.last() == '\n');
        assert(Seq::<char>::empty() + last =~= last);
        assert(rest.push(seq![]).update(rest.len() as int, last) =~= names);
    }
}

/// Lines that are listed names are kept as they are.
proof fn lemma_session_lines_of_names(names: Seq<Seq<char>>)
    requires
        forall|k: int| 0 <= k < names.len() ==> is_listed_name(#[trigger] names[k]),
    ensures
        session_lines(names) == names,
    decreases names.len(),
{
    if names.len() > 0 {
        let rest = names.drop_last();
        assert forall|k: int| 0 <= k < rest.len() implies is_listed_name(#[trigger] rest[k]) by {
            assert(rest[k] == names[k]);
        }
        lemma_session_lines_of_names(rest);
        assert(is_listed_name(names[names.len() - 1]));
        lemma_trim_keeps_trimmed(names.last());
        assert(rest.push(names.last()) =~= names);
    }
}

/// Reading the listing that tmux prints for some session names gives back
/// exactly those names, in order.
pub proof fn lemma_listing_reads_back(names: Seq<Seq<char>>)
    requires
        forall|k: int| 0 <= k < names.len() ==> is_listed_name(#[trigger] names[k]),
    ensures
        session_names(listing_of(names)) == names,
{
    lemma_split_listing(names);
    lemma_session_lines_of_names(names);
    let e: Seq<char> = seq![];
    assert(trim(e) =~= e);
    assert(names.push(e).drop_last() =~= names);
}

/// Lower-casing a message first does not change whether it tells of a
/// missing server: the test ignores ASCII case.
pub proof fn lemma_no_server_ignores_case(message: Seq<char>)
    ensures
        no_server_message(ascii_lower_seq(message)) == no_server_message(message),
{
    assert(ascii_lower_seq(ascii_lower_seq(message)) =~= ascii_lower_seq(message)) by {
        assert forall|i: int| 0 <= i < message.len() implies ascii_lower(ascii_lower(message[i]))
            == ascii_lower(message[i]) by {
            let c = message[i];
            if 'A' <= c && c <= 'Z' {
                assert(((c as u32) + 32) as char >= 'a');
            }
        }
    }
}

/// `m` with each ASCII upper-case letter `'A'..='Z'` replaced by the letter
/// 32 code points further, its lower-case form; written out, character by
/// character.
pub open spec fn lowered_ascii(m: Seq<char>) -> Seq<char> {
    Seq::new(
        m.len(),
        |i: int|
            if 'A' <= m[i] && m[i] <= 'Z' {
                ((m[i] as u32) + 32) as char
            } else {
                m[i]
            },
    )
}

/// `m`, ignoring ASCII case, holds one of the literal phrases "no server
/// running", "failed to connect to server" or "no sessions".
pub open spec fn says_no_server(m: Seq<char>) -> bool {
    let l = lowered_ascii(m);
    ||| exists|i: int|
        0 <= i && i + 17 <= l.len() && #[trigger] l.subrange(i, i + 17) == "no server running"@
    ||| exists|i: int|
        0 <= i && i + 27 <= l.len() && #[trigger] l.subrange(i, i + 27)
            == "failed to connect to server"@
    ||| exists|i: int| 0 <= i && i + 11 <= l.len() && #[trigger] l.subrange(i, i + 11) == "no sessions"@
}

/// `needle`, of length `n`, stands in `hay` exactly when some window of
/// `hay` of length `n` equals it.
proof fn lemma_contains_window(hay: Seq<char>, needle: Seq<char>, n: int)
    requires
        needle.len() == n,
    ensures
        contains_seq(hay, needle) <==> exists|i: int|
            0 <= i && i + n <= hay.len() && #[trigger] hay.subrange(i, i + n) == needle,
{
    if contains_seq(hay, needle) {
        let i = choose|i: int| #[trigger] occurs_at(hay, needle, i);
        assert(hay.subrange(i, i + n) == needle);
    }
    if exists|i: int| 0 <= i && i + n <= hay.len() && #[trigger] hay.subrange(i, i + n) == needle {
        let i = choose|i: int|
            0 <= i && i + n <= hay.len() && #[trigger] hay.subrange(i, i + n) == needle;
        assert(occurs_at(hay, needle, i));
    }
}

/// The "no server" test: a message tells that no tmux server runs exactly
/// when, ignoring ASCII case, it holds "no server running", "failed to
/// connect to server" or "no sessions"; any other message, such as an ssh
/// failure, does not.
pub proof fn law_no_server_phrases(message: Seq<char>)
    ensures
        no_server_message(message) <==> says_no_server(message),
{
    reveal_strlit("no server running");
    reveal_strlit("failed to connect to server");
    reveal_strlit("no sessions");
    let l = ascii_lower_seq(message);
    assert(l =~= lowered_ascii(message));
    assert(NO_SERVER_RUNNING@ == "no server running"@);
    assert(FAILED_TO_CONNECT@ == "failed to connect to server"@);
    assert(NO_SESSIONS@ == "no sessions"@);
    lemma_contains_window(l, NO_SERVER_RUNNING@, 17);
    lemma_contains_window(l, FAILED_TO_CONNECT@, 27);
    lemma_contains_window(l, NO_SESSIONS@, 11);
}

/// A successful listing gives the session names read from standard output.
/// A failed listing gives no sessions exactly when its output, standard and
/// error output joined by a newline, tells that no tmux server runs; any
/// other failure is an error whose detail is that joined output, trimmed.
pub proof fn law_listing_outcomes(stdout: Seq<char>, stderr: Seq<char>)
    ensures
        listing_outcome(true, stdout, stderr) == Ok::<Seq<Seq<char>>, Seq<char>>(
            session_names(stdout),
        ),
        says_no_server(stdout + seq!['\n'] + stderr) ==> listing_outcome(false, stdout, stderr)
            == Ok::<Seq<Seq<char>>, Seq<char>>(Seq::empty()),
        !says_no_server(stdout + seq!['\n'] + stderr) ==> listing_outcome(false, stdout, stderr)
            == Err::<Seq<Seq<char>>, Seq<char>>(trim(stdout + seq!['\n'] + stderr)),
{
    law_no_server_phrases(stdout + seq!['\n'] + stderr);
}

} // verus!
