//! The requests of the front end, as it writes them on one line.
//!
//! A line is cut at every blank. Its first field is the command word, the
//! others are arguments; two blanks in a row hold an empty argument between
//! them.

use vstd::prelude::*;

verus! {

/// A request, with its text as a `String`.
#[derive(Debug, PartialEq, Eq)]
pub enum Command {
    /// `c`: continue.
    Continue,
    /// `b <address>`: set a breakpoint. The argument is kept as written.
    Break(String),
    /// `b` with no argument, or with more than one.
    BreakUsage,
    /// Any other command word, kept as written.
    Unknown(String),
}

/// A request, with its text as a sequence of characters.
pub enum ParsedCommand {
    Continue,
    Break(Seq<char>),
    BreakUsage,
    Unknown(Seq<char>),
}

impl View for Command {
    type V = ParsedCommand;

    open spec fn view(&self) -> ParsedCommand {
        match self {
            Command::Continue => ParsedCommand::Continue,
            Command::Break(address) => ParsedCommand::Break(address@),
            Command::BreakUsage => ParsedCommand::BreakUsage,
            Command::Unknown(word) => ParsedCommand::Unknown(word@),
        }
    }
}

/// How many characters stand before the first blank of `text`: all of them
/// where it has none.
pub open spec fn word_len(text: Seq<char>) -> nat
    decreases text.len(),
{
    if text.len() == 0 || text[0] == ' ' {
        0
    } else {
        1 + word_len(text.drop_first())
    }
}

/// The request that a line writes.
///
/// - The line `c` is `Continue`. It takes no argument: `c` followed by a
///   blank is an unknown command.
/// - The word `b` with exactly one argument is `Break` of that argument;
///   with none or with several it is `BreakUsage`.
/// - Any other first field is `Unknown`.
pub open spec fn spec_parse_command(line: Seq<char>) -> ParsedCommand {
    let n = word_len(line) as int;
    let word = line.subrange(0, n);
    let rest = line.subrange(n + 1, line.len() as int);
    if line.len() == 1 && line[0] == 'c' {
        ParsedCommand::Continue
    } else if n == 1 && line[0] == 'b' {
        if n < line.len() && word_len(rest) == rest.len() {
            ParsedCommand::Break(rest)
        } else {
            ParsedCommand::BreakUsage
        }
    } else {
        ParsedCommand::Unknown(word)
    }
}

/// A position that has no blank before it and a blank, or the end, at it is
/// where the first word ends.
proof fn lemma_word_len(text: Seq<char>, n: int)
    requires
        0 <= n <= text.len(),
        forall|k: int| 0 <= k < n ==> text[k] != ' ',
        n == text.len() || text[n] == ' ',
    ensures
        word_len(text) == n,
    decreases n,
{
    if n > 0 {
        let tail = text.drop_first();
        assert forall|k: int| 0 <= k < n - 1 implies tail[k] != ' ' by {
            assert(tail[k] == text[k + 1]);
        }
        lemma_word_len(tail, n - 1);
    }
}

/// The position of the first blank at or after `from`, or the length of the
/// line where no blank follows.
fn next_blank(line: &str, from: usize, len: usize) -> (end: usize)
    requires
        from <= len,
        len == line@.len(),
    ensures
        from <= end <= len,
        forall|k: int| from <= k < end ==> line@[k] != ' ',
        end == len || line@[end as int] == ' ',
{
    let mut end = from;
    while end < len
        invariant
            from <= end <= len,
            len == line@.len(),
            forall|k: int| from <= k < end ==> line@[k] != ' ',
        decreases len - end,
    {
        if line.get_char(end) == ' ' {
            return end;
        }
        end = end + 1;
    }
    end
}

/// Reads one line as a request.
pub fn parse_command(line: &str) -> (command: Command)
    ensures
        command@ == spec_parse_command(line@),
{
    let len = line.unicode_len();
    let n = next_blank(line, 0, len);
    proof {
        lemma_word_len(line@, n as int);
    }
    if len == 1 && line.get_char(0) == 'c' {
        return Command::Continue;
    }
    if n == 1 && line.get_char(0) == 'b' {
        if n == len {
            return Command::BreakUsage;
        }
        let end = next_blank(line, n + 1, len);
        let ghost rest = line@.subrange(n + 1, len as int);
        proof {
            if end == len {
                assert forall|k: int| 0 <= k < rest.len() implies rest[k] != ' ' by {
                    assert(rest[k] == line@[k + n + 1]);
                }
                lemma_word_len(rest, rest.len() as int);
            } else {
                assert forall|k: int| 0 <= k < end - (n + 1) implies rest[k] != ' ' by {
                    assert(rest[k] == line@[k + n + 1]);
                }
                assert(rest[end - (n + 1)] == line@[end as int]);
                lemma_word_len(rest, end - (n + 1));
            }
        }
        if end == len {
            return Command::Break(line.substring_char(n + 1, len).to_owned());
        }
        return Command::BreakUsage;
    }
    Command::Unknown(line.substring_char(0, n).to_owned())
}

} // verus!
