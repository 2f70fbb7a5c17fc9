//! Single-quoting of values for a POSIX shell, and a model of how the shell
//! reads such a word back.
use vstd::prelude::*;
use crate::text::push_char;

verus! {

/// What stands in the quoted text for one character of the value: a single
/// quote closes the quoted run, is written escaped, and a new run opens.
pub open spec fn quoted_char(c: char) -> Seq<char> {
    if c == '\'' {
        seq!['\'', '\\', '\'', '\'']
    } else {
        seq![c]
    }
}

/// The text between the outer quotes for the value `s`.
pub open spec fn quote_body(s: Seq<char>) -> Seq<char>
    decreases s.len(),
{
    if s.len() == 0 {
        seq![]
    } else {
        quote_body(s.drop_last()) + quoted_char(s.last())
    }
}

/// `s` as one single-quoted shell word.
pub open spec fn shell_quoted(s: Seq<char>) -> Seq<char> {
    seq!['\''] + quote_body(s) + seq!['\'']
}

/// `prefix` put in front of the word read, if one was read.
pub open spec fn prefixed(prefix: Seq<char>, word: Option<Seq<char>>) -> Option<Seq<char>> {
    match word {
        Some(w) => Some(prefix + w),
        None => None,
    }
}

/// The value that a POSIX shell gives to the word `s`, where `s` is made of
/// single-quoted runs and backslash-escaped characters only; `quoted` says
/// whether reading starts inside a quoted run. `None` where `s` is not such a
/// word: an unterminated quoted run, a trailing backslash, a line continuation
/// or any other unquoted character.
pub open spec fn read_word(s: Seq<char>, quoted: bool) -> Option<Seq<char>>
    decreases s.len(),
{
    if s.len() == 0 {
        if quoted {
            None
        } else {
            Some(seq![])
        }
    } else if quoted {
        if s[0] == '\'' {
            read_word(s.drop_first(), false)
        } else {
            prefixed(seq![s[0]], read_word(s.drop_first(), true))
        }
    } else if s[0] == '\'' {
        read_word(s.drop_first(), true)
    } else if s[0] == '\\' && s.len() >= 2 && s[1] != '\n' {
        prefixed(seq![s[1]], read_word(s.skip(2), false))
    } else {
        None
    }
}

/// Wraps `value` in single quotes for a POSIX shell, writing each single
/// quote of the value as `'\''`.
pub fn shell_quote(value: &str) -> (res: String)
    ensures
        res@ == shell_quoted(value@),
{
    let mut out = String::new();
    push_char(&mut out, '\'');
    proof {
        assert(out@ =~= seq!['\''] + quote_body(value@.take(0)));
    }
    for c in it: value.chars()
        invariant
            it.seq() == value@,
            out@ == seq!['\''] + quote_body(it.seq().take(it.index() as int)),
    {
        let ghost before = out@;
        if c == '\'' {
            push_char(&mut out, '\'');
            push_char(&mut out, '\\');
            push_char(&mut out, '\'');
            push_char(&mut out, '\'');
        } else {
            push_char(&mut out, c);
        }
        proof {
            let prefix = it.seq().take(it.index() + 1);
            assert(prefix.drop_last() =~= it.seq().take(it.index() as int));
            assert(prefix.last() == c);
            assert(out@ =~= before + quoted_char(c));
        }
    }
    push_char(&mut out, '\'');
    proof {
        assert(value@.take(value@.len() as int) =~= value@);
    }
    out
}

/// Reading a quoted body inside a quoted run gives the value back, followed
/// by whatever the rest of the text reads as.
pub proof fn lemma_read_quote_body(v: Seq<char>, rest: Seq<char>)
    ensures
        read_word(quote_body(v) + rest, true) == prefixed(v, read_word(rest, true)),
    decreases v.len(),
{
    if v.len() == 0 {
        assert(quote_body(v) + rest =~= rest);
        match read_word(rest, true) {
            Some(w) => {
                assert(v + w =~= w);
            },
            None => {},
        }
    } else {
        let u = v.drop_last();
        let c = v.last();
        let tail = quoted_char(c) + rest;
        assert(quote_body(v) + rest =~= quote_body(u) + tail);
        lemma_read_quote_body(u, tail);
        if c == '\'' {
            let s1 = tail.drop_first();
            assert(s1 =~= seq!['\\', '\'', '\''] + rest);
            assert(s1.skip(2) =~= seq!['\''] + rest);
            assert((seq!['\''] + rest).drop_first() =~= rest);
            assert(read_word(tail, true) == read_word(s1, false));
            assert(read_word(s1, false) == prefixed(seq!['\''], read_word(s1.skip(2), false)));
            assert(read_word(s1.skip(2), false) == read_word(rest, true));
        } else {
            assert(tail.drop_first() =~= rest);
        }
        assert(read_word(tail, true) == prefixed(seq![c], read_word(rest, true)));
        match read_word(rest, true) {
            Some(w) => {
                assert(u + (seq![c] + w) =~= v + w);
            },
            None => {},
        }
    }
}

/// A POSIX shell reads the output of `shell_quote` as exactly one word whose
/// value is the value that was quoted.
pub proof fn lemma_shell_quoted_reads_back(v: Seq<char>)
    ensures
        read_word(shell_quoted(v), false) == Some(v),
{
    let q = shell_quoted(v);
    assert(q.drop_first() =~= quote_body(v) + seq!['\'']);
    lemma_read_quote_body(v, seq!['\'']);
    let close: Seq<char> = seq!['\''];
    assert(close.drop_first() =~= Seq::<char>::empty());
    assert(read_word(close.drop_first(), false) == Some(Seq::<char>::empty()));
    assert(read_word(close, true) == Some(Seq::<char>::empty()));
    assert(v + Seq::<char>::empty() =~= v);
}

/// Quoting leaves a value untouched between the outer quotes when it holds no
/// single quote.
pub proof fn lemma_quote_body_without_quotes(v: Seq<char>)
    requires
        forall|i: int| 0 <= i < v.len() ==> v[i] != '\'',
    ensures
        quote_body(v) == v,
    decreases v.len(),
{
    if v.len() > 0 {
        lemma_quote_body_without_quotes(v.drop_last());
        assert(v.drop_last().push(v.last()) =~= v);
    }
}

} // verus!
