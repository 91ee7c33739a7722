//! The command parser.
//!
//! Inbound text is classified into the closed command set {`Help`,
//! `Start`} or a parse failure.  A command is a leading `/` followed by a
//! command name; matching against the name is ASCII case-insensitive and
//! exact — no partial matches, no arguments.

use vstd::prelude::*;
use vstd::string::StrSliceExecFns;

verus! {

/// The closed set of recognized commands.
#[derive(Clone, Copy, PartialEq, Eq, Structural, Debug)]
pub enum Command {
    Help,
    Start,
}

/// The failure of `parse`: the text names no recognized command.
#[derive(Clone, Copy, PartialEq, Eq, Structural, Debug)]
pub struct ParseError;

/// ASCII lowering of one character: `'A'`..`'Z'` map to `'a'`..`'z'`,
/// everything else is unchanged.
pub open spec fn lower_char(c: char) -> char {
    if 65 <= c as u32 && c as u32 <= 90 {
        ((c as u8 + 32) as u8) as char
    } else {
        c
    }
}

/// ASCII lowering of a character sequence.
pub open spec fn lower_seq(s: Seq<char>) -> Seq<char> {
    s.map_values(|c: char| lower_char(c))
}

/// The name of the `Help` command.
pub open spec fn help_name() -> Seq<char> {
    seq!['h', 'e', 'l', 'p']
}

/// The name of the `Start` command.
pub open spec fn start_name() -> Seq<char> {
    seq!['s', 't', 'a', 'r', 't']
}

/// What `parse` returns: a leading `/` followed (case-insensitively) by a
/// command name yields the command; everything else fails.
pub open spec fn spec_parse(s: Seq<char>) -> Result<Command, ParseError> {
    if s.len() >= 1 && s[0] == '/' {
        let body = lower_seq(s.subrange(1, s.len() as int));
        if body == help_name() {
            Ok(Command::Help)
        } else if body == start_name() {
            Ok(Command::Start)
        } else {
            Err(ParseError)
        }
    } else {
        Err(ParseError)
    }
}

/// Lowering is idempotent on one character, and maps no character onto
/// the command prefix `'/'` that was not it already.
proof fn lemma_lower_char(c: char)
    ensures
        lower_char(lower_char(c)) == lower_char(c),
        (lower_char(c) == '/') == (c == '/'),
{
}

/// Parsing is total and exclusive: every text yields exactly one of the
/// three outcomes `Help`, `Start` or `ParseError`.
pub proof fn lemma_parse_total(s: Seq<char>)
    ensures
        spec_parse(s) == Ok::<Command, ParseError>(Command::Help) || spec_parse(s) == Ok::<
            Command,
            ParseError,
        >(Command::Start) || spec_parse(s) == Err::<Command, ParseError>(ParseError),
{
}

/// Parsing is ASCII case-insensitive: lowering the text first changes
/// the outcome in no way.  With `parse` returning exactly `spec_parse`
/// of its input, this also says that `parse` is a total function of the
/// text: the same text always yields the same single outcome.
pub proof fn lemma_parse_case_insensitive(s: Seq<char>)
    ensures
        spec_parse(lower_seq(s)) == spec_parse(s),
{
    let ls = lower_seq(s);
    assert(ls.len() == s.len());
    if s.len() >= 1 && s[0] == '/' {
        lemma_lower_char(s[0]);
        assert(ls[0] == '/');
        let t = s.subrange(1, s.len() as int);
        let lt = ls.subrange(1, ls.len() as int);
        assert(lt =~= lower_seq(t));
        assert(lower_seq(lt) =~= lower_seq(t)) by {
            assert forall|i: int| 0 <= i < lt.len() implies lower_seq(lt)[i] == lower_seq(t)[i] by {
                lemma_lower_char(t[i]);
            }
        }
    } else if s.len() >= 1 {
        lemma_lower_char(s[0]);
        assert(ls[0] != '/');
    }
}

/// ASCII lowering of one character.
fn lower(c: char) -> (r: char)
    ensures
        r == lower_char(c),
{
    let u = c as u32;
    if 65 <= u && u <= 90 {
        (c as u8 + 32) as char
    } else {
        c
    }
}

/// Whether the text after its first character is, lowered, exactly `name`.
fn tail_matches(text: &str, name: &str) -> (r: bool)
    requires
        text@.len() >= 1,
    ensures
        r == (lower_seq(text@.subrange(1, text@.len() as int)) == name@),
{
    let n = text.unicode_len();
    let m = name.unicode_len();
    if m != n - 1 {
        proof {
            assert(lower_seq(text@.subrange(1, text@.len() as int)).len() != name@.len());
        }
        return false;
    }
    let mut i: usize = 0;
    while i < m
        invariant
            n == text@.len(),
            m == name@.len(),
            m == n - 1,
            n >= 1,
            i <= m,
            forall|j: int| 0 <= j < i ==> lower_char(text@[j + 1]) == name@[j],
        decreases m - i,
    {
        let c = lower(text.get_char(i + 1));
        let e = name.get_char(i);
        if c != e {
            proof {
                let body = lower_seq(text@.subrange(1, text@.len() as int));
                assert(body[i as int] == lower_char(text@[i + 1]));
                assert(body != name@);
            }
            return false;
        }
        i += 1;
    }
    proof {
        assert(lower_seq(text@.subrange(1, text@.len() as int)) =~= name@);
    }
    true
}

/// Classify inbound text as a command or a parse failure.
pub fn parse(text: &str) -> (r: Result<Command, ParseError>)
    ensures
        r == spec_parse(text@),
{
    proof {
        reveal_strlit("help");
        reveal_strlit("start");
        assert("help"@ =~= help_name());
        assert("start"@ =~= start_name());
    }
    let n = text.unicode_len();
    if n == 0 {
        return Err(ParseError);
    }
    if text.get_char(0) != '/' {
        return Err(ParseError);
    }
    if tail_matches(text, "help") {
        Ok(Command::Help)
    } else if tail_matches(text, "start") {
        Ok(Command::Start)
    } else {
        Err(ParseError)
    }
}

} // verus!
