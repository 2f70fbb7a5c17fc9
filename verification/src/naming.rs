//! The rule for names of new sessions.
use vstd::prelude::*;
use crate::quote::{shell_quoted, lemma_quote_body_without_quotes};
use crate::sessions::{is_listed_name, lemma_listing_reads_back, listing_of, session_names};

verus! {

/// Refusal of an empty session name.
pub const EMPTY_NAME: &'static str = "Session name cannot be empty";

/// Refusal of a session name with a character outside the allowed ones.
pub const BAD_NAME_CHARS: &'static str = "Use only letters, numbers, underscores, periods, and hyphens";

/// The characters that a new session name may hold: ASCII letters and
/// digits, underscores, periods and hyphens.
pub open spec fn is_name_char(c: char) -> bool {
    ||| ('a' <= c && c <= 'z')
    ||| ('A' <= c && c <= 'Z')
    ||| ('0' <= c && c <= '9')
    ||| c == '_'
    ||| c == '.'
    ||| c == '-'
}

/// Whether `name` may name a new session: not empty, and only name
/// characters.
pub open spec fn is_valid_name(name: Seq<char>) -> bool {
    name.len() > 0 && forall|i: int| 0 <= i < name.len() ==> is_name_char(#[trigger] name[i])
}

/// The verdict on a new session name: accepted, or refused with the message
/// that says why.
pub open spec fn name_verdict(name: Seq<char>) -> Result<(), Seq<char>> {
    if name.len() == 0 {
        Err(EMPTY_NAME@)
    } else if is_valid_name(name) {
        Ok(())
    } else {
        Err(BAD_NAME_CHARS@)
    }
}

/// Whether `c` is a name character.
pub fn is_name_char_exec(c: char) -> (res: bool)
    ensures
        res == is_name_char(c),
{
    ('a' <= c && c <= 'z') || ('A' <= c && c <= 'Z') || ('0' <= c && c <= '9') || c == '_' || c
        == '.' || c == '-'
}

/// Accepts a new session name made of letters, digits, underscores, periods
/// and hyphens; refuses an empty one, or one with any other character, with
/// a message for the user.
pub fn validate_new_session_name(name: &str) -> (res: Result<(), &'static str>)
    ensures
        match res {
            Ok(()) => name_verdict(name@) == Ok::<(), Seq<char>>(()),
            Err(msg) => name_verdict(name@) == Err::<(), Seq<char>>(msg@),
        },
        res is Ok <==> accepted_by_ranges(name@),
        name@.len() == 0 ==> (res matches Err(msg) && msg@ == "Session name cannot be empty"@),
        name@.len() > 0 && !accepted_by_ranges(name@) ==> (res matches Err(msg) && msg@
            == "Use only letters, numbers, underscores, periods, and hyphens"@),
{
    proof {
        law_name_rule(name@);
    }
    if name.is_empty() {
        return Err(EMPTY_NAME);
    }
    for c in it: name.chars()
        invariant
            it.seq() == name@,
            name@.len() > 0,
            forall|i: int| 0 <= i < it.index() ==> is_name_char(#[trigger] name@[i]),
    {
        if !is_name_char_exec(c) {
            proof {
                assert(name@[it.index() as int] == c);
            }
            return Err(BAD_NAME_CHARS);
        }
    }
    Ok(())
}

/// A name is non-empty and every character is an ASCII lower-case letter, an
/// ASCII upper-case letter, an ASCII digit, `_`, `.` or `-`; written with the
/// character ranges themselves.
pub open spec fn accepted_by_ranges(name: Seq<char>) -> bool {
    &&& name.len() > 0
    &&& forall|i: int|
        0 <= i < name.len() ==> {
            let c = #[trigger] name[i];
            ||| ('a' <= c && c <= 'z')
            ||| ('A' <= c && c <= 'Z')
            ||| ('0' <= c && c <= '9')
            ||| c == '_'
            ||| c == '.'
            ||| c == '-'
        }
}

/// The name rule: a name is accepted exactly when it is non-empty and made of
/// ASCII letters, ASCII digits, underscores, periods and hyphens; an empty
/// name is refused with "Session name cannot be empty", any other refused
/// name with "Use only letters, numbers, underscores, periods, and hyphens".
pub proof fn law_name_rule(name: Seq<char>)
    ensures
        (name_verdict(name) == Ok::<(), Seq<char>>(())) <==> accepted_by_ranges(name),
        name.len() == 0 ==> name_verdict(name) == Err::<(), Seq<char>>(
            "Session name cannot be empty"@,
        ),
        name.len() > 0 && !accepted_by_ranges(name) ==> name_verdict(name) == Err::<
            (),
            Seq<char>,
        >("Use only letters, numbers, underscores, periods, and hyphens"@),
{
    if is_valid_name(name) {
        assert forall|i: int| 0 <= i < name.len() implies {
            let c = #[trigger] name[i];
            ||| ('a' <= c && c <= 'z')
            ||| ('A' <= c && c <= 'Z')
            ||| ('0' <= c && c <= '9')
            ||| c == '_'
            ||| c == '.'
            ||| c == '-'
        } by {
            assert(is_name_char(name[i]));
        }
    }
    if accepted_by_ranges(name) {
        assert forall|i: int| 0 <= i < name.len() implies is_name_char(#[trigger] name[i]) by {
            let c = name[i];
        }
    }
}

/// An accepted name needs no escaping: quoted, it is the name between two
/// single quotes.
pub proof fn lemma_valid_name_quotes_plainly(name: Seq<char>)
    requires
        is_valid_name(name),
    ensures
        shell_quoted(name) == seq!['\''] + name + seq!['\''],
{
    assert forall|i: int| 0 <= i < name.len() implies name[i] != '\'' by {
        assert(is_name_char(name[i]));
    }
    lemma_quote_body_without_quotes(name);
}

/// A session created under an accepted name is listed by tmux under that
/// same name: it is one line with no white space at either end.
pub proof fn lemma_valid_name_is_listed_name(name: Seq<char>)
    requires
        is_valid_name(name),
    ensures
        is_listed_name(name),
{
    assert(is_name_char(name[0]));
    assert(is_name_char(name[name.len() - 1]));
    assert forall|i: int| 0 <= i < name.len() implies name[i] != '\n' by {
        assert(is_name_char(name[i]));
    }
}

/// Sessions created under accepted names come back, under those names and in
/// order, from reading tmux's listing of them.
pub proof fn lemma_valid_names_read_back_from_listing(names: Seq<Seq<char>>)
    requires
        forall|k: int| 0 <= k < names.len() ==> is_valid_name(#[trigger] names[k]),
    ensures
        session_names(listing_of(names)) == names,
{
    assert forall|k: int| 0 <= k < names.len() implies is_listed_name(#[trigger] names[k]) by {
        lemma_valid_name_is_listed_name(names[k]);
    }
    lemma_listing_reads_back(names);
}

} // verus!
