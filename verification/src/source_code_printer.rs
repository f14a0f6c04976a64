//! The listing of the source around a line: which lines are shown, and how
//! each is written.
//!
//! Lines are numbered from 1. The listing shows the current line, up to
//! `LINE_RANGE` lines before it and up to `LINE_RANGE` lines after it, each
//! behind its number, and marks the current one with an arrow.

use vstd::prelude::*;

verus! {

/// How many lines are shown before the current line, and how many after.
pub const LINE_RANGE: usize = 5;

/// The first line of the listing around `current_line`.
pub open spec fn first_shown(current_line: nat) -> nat {
    if current_line > LINE_RANGE {
        (current_line - LINE_RANGE) as nat
    } else {
        1
    }
}

/// The last line of the listing around `current_line`.
pub open spec fn last_shown(current_line: nat) -> nat {
    (current_line + LINE_RANGE) as nat
}

/// The character of one decimal digit.
pub open spec fn digit_char(digit: nat) -> char {
    (0x30 + digit) as char
}

/// A number as it is written in base 10, without sign or padding.
pub open spec fn decimal(n: nat) -> Seq<char>
    decreases n,
{
    if n < 10 {
        seq![digit_char(n)]
    } else {
        decimal(n / 10).push(digit_char(n % 10))
    }
}

/// What stands before the number: an arrow on the current line, blanks of
/// the same width on the others.
pub open spec fn marker(current: bool) -> Seq<char> {
    if current {
        seq!['-', '>', ' ']
    } else {
        seq![' ', ' ', ' ']
    }
}

/// One line of the listing as it is written: the marker, the number, a
/// colon and a blank, the text, and a line feed.
pub open spec fn rendered(number: nat, text: Seq<char>, current: bool) -> Seq<char> {
    marker(current) + decimal(number) + seq![':', ' '] + text + seq!['\n']
}

/// What the listing does with one line of the file, with its text as a
/// `String`.
#[derive(Debug, PartialEq, Eq)]
pub enum Listed {
    /// The line comes before the listing: it is passed over.
    Before,
    /// The line is in the listing, written so.
    Shown(String),
    /// The line comes after the listing: the listing is complete.
    After,
}

/// What the listing does with one line of the file, with its text as a
/// sequence of characters.
pub enum ListedLine {
    Before,
    Shown(Seq<char>),
    After,
}

impl View for Listed {
    type V = ListedLine;

    open spec fn view(&self) -> ListedLine {
        match self {
            Listed::Before => ListedLine::Before,
            Listed::Shown(line) => ListedLine::Shown(line@),
            Listed::After => ListedLine::After,
        }
    }
}

/// What the listing around `current_line` does with line `number`, whose
/// text is `text`.
pub open spec fn spec_list_line(number: nat, text: Seq<char>, current_line: nat) -> ListedLine {
    if number < first_shown(current_line) {
        ListedLine::Before
    } else if number > last_shown(current_line) {
        ListedLine::After
    } else {
        ListedLine::Shown(rendered(number, text, number == current_line))
    }
}

/// The text of one decimal digit.
fn digit_text(digit: usize) -> (text: &'static str)
    requires
        digit < 10,
    ensures
        text@ == seq![digit_char(digit as nat)],
{
    proof {
        reveal_strlit("0");
        reveal_strlit("1");
        reveal_strlit("2");
        reveal_strlit("3");
        reveal_strlit("4");
        reveal_strlit("5");
        reveal_strlit("6");
        reveal_strlit("7");
        reveal_strlit("8");
        reveal_strlit("9");
    }
    let text = match digit {
        0 => "0",
        1 => "1",
        2 => "2",
        3 => "3",
        4 => "4",
        5 => "5",
        6 => "6",
        7 => "7",
        8 => "8",
        _ => "9",
    };
    assert(text@ =~= seq![digit_char(digit as nat)]);
    text
}

/// Writes a number in base 10.
pub fn to_decimal(n: usize) -> (text: String)
    ensures
        text@ == decimal(n as nat),
    decreases n,
{
    if n < 10 {
        digit_text(n).to_owned()
    } else {
        let mut text = to_decimal(n / 10);
        text.append(digit_text(n % 10));
        assert(text@ =~= decimal((n / 10) as nat).push(digit_char((n % 10) as nat)));
        text
    }
}

/// What the listing around `current_line` does with line `number` of the
/// file, whose text is `text`.
///
/// A reader hands over the lines in order, from 1 on, writes out those that
/// are `Shown` and stops at the first that is `After`.
pub fn list_line(number: usize, text: &str, current_line: usize) -> (listed: Listed)
    ensures
        listed@ == spec_list_line(number as nat, text@, current_line as nat),
{
    if number < current_line {
        if current_line - number > LINE_RANGE || number < 1 {
            return Listed::Before;
        }
    } else if number - current_line > LINE_RANGE {
        return Listed::After;
    } else if number < 1 {
        return Listed::Before;
    }
    proof {
        reveal_strlit("-> ");
        reveal_strlit("   ");
        reveal_strlit(": ");
        reveal_strlit("\n");
    }
    let mut line = if number == current_line {
        "-> ".to_owned()
    } else {
        "   ".to_owned()
    };
    assert(line@ =~= marker(number == current_line));
    let digits = to_decimal(number);
    line.append(digits.as_str());
    line.append(": ");
    line.append(text);
    line.append("\n");
    assert(line@ =~= rendered(number as nat, text@, number == current_line));
    Listed::Shown(line)
}

} // verus!
