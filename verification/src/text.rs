//! The text of a trace: what it is, and the functions that write it.

use vstd::prelude::*;
use vstd::string::StringExecFns;

verus! {

/// The character of a decimal digit.
pub open spec fn digit(d: nat) -> char
    recommends
        d < 10,
{
    ('0' as nat + d) as char
}

/// The decimal numeral of `n`, without sign or padding.
pub open spec fn decimal(n: nat) -> Seq<char>
    decreases n,
{
    if n < 10 {
        seq![digit(n)]
    } else {
        decimal(n / 10).push(digit(n % 10))
    }
}

/// The index of a trace line: its numeral, right-aligned in two columns.
pub open spec fn index_label(i: nat) -> Seq<char> {
    if i < 10 {
        seq![' '] + decimal(i)
    } else {
        decimal(i)
    }
}

/// One line of a trace: the label, a colon, a space, the message.
pub open spec fn trace_line(i: nat, message: Seq<char>) -> Seq<char> {
    index_label(i) + seq![':', ' '] + message
}

/// The lines of a trace, one for each layer, in the order of the layers.
pub open spec fn trace_lines(layers: Seq<Seq<char>>) -> Seq<Seq<char>> {
    Seq::new(layers.len(), |i: int| trace_line(i as nat, layers[i]))
}

/// The lines separated by single newlines, with none at the end.
pub open spec fn join_lines(lines: Seq<Seq<char>>) -> Seq<char>
    decreases lines.len(),
{
    if lines.len() == 0 {
        Seq::empty()
    } else if lines.len() == 1 {
        lines[0]
    } else {
        join_lines(lines.drop_last()) + seq!['\n'] + lines.last()
    }
}

/// The whole trace of a chain of layers.
pub open spec fn trace_text(layers: Seq<Seq<char>>) -> Seq<char> {
    join_lines(trace_lines(layers))
}

/// Whether `text` holds no newline.
pub open spec fn single_line(text: Seq<char>) -> bool {
    forall|i: int| 0 <= i < text.len() ==> text[i] != '\n'
}

/// The lines of `text`: what stands between its newlines, before the first
/// and behind the last. A text without a newline is one line.
pub open spec fn split_lines(text: Seq<char>) -> Seq<Seq<char>>
    decreases text.len(),
{
    if text.len() == 0 {
        seq![Seq::empty()]
    } else if text.last() == '\n' {
        split_lines(text.drop_last()).push(Seq::empty())
    } else {
        let before = split_lines(text.drop_last());
        before.drop_last().push(before.last().push(text.last()))
    }
}

/// The texts held by a vector of strings.
pub open spec fn texts(lines: Seq<String>) -> Seq<Seq<char>> {
    Seq::new(lines.len(), |i: int| lines[i]@)
}

/// The one-character text of a decimal digit.
fn digit_text(d: u64) -> (text: &'static str)
    requires
        d < 10,
    ensures
        text@ == seq![digit(d as nat)],
{
    proof {
        reveal_strlit("0");
        reveal_strlit("1");
        reveal_strlit("2");
        reveal_strlit("3");
        reveal_strlit("4");
        reveal_strlit("5");
        reveal_strlit("6");
        reveal_strlit("7");
        reveal_strlit("8");
        reveal_strlit("9");
    }
    if d == 0 {
        "0"
    } else if d == 1 {
        "1"
    } else if d == 2 {
        "2"
    } else if d == 3 {
        "3"
    } else if d == 4 {
        "4"
    } else if d == 5 {
        "5"
    } else if d == 6 {
        "6"
    } else if d == 7 {
        "7"
    } else if d == 8 {
        "8"
    } else {
        "9"
    }
}

/// Writes `n` in decimal.
pub fn decimal_string(n: u64) -> (text: String)
    ensures
        text@ == decimal(n as nat),
    decreases n,
{
    if n < 10 {
        String::from_str(digit_text(n))
    } else {
        let mut text = decimal_string(n / 10);
        text.append(digit_text(n % 10));
        text
    }
}

/// Writes one line of a trace.
pub fn trace_line_string(i: usize, message: &str) -> (line: String)
    ensures
        line@ == trace_line(i as nat, message@),
{
    proof {
        reveal_strlit(" ");
        reveal_strlit(": ");
    }
    let mut line = String::from_str(if i < 10 { " " } else { "" });
    proof {
        reveal_strlit("");
    }
    let numeral = decimal_string(i as u64);
    line.append(numeral.as_str());
    line.append(": ");
    line.append(message);
    line
}

/// Joins the lines with single newlines.
pub fn join_line_strings(lines: &Vec<String>) -> (text: String)
    ensures
        text@ == join_lines(texts(lines@)),
{
    let mut text = String::new();
    let mut i: usize = 0;
    while i < lines.len()
        invariant
            i <= lines.len(),
            text@ == join_lines(texts(lines@).take(i as int)),
        decreases lines.len() - i,
    {
        proof {
            reveal_strlit("\n");
            let done = texts(lines@).take(i as int);
            let next = texts(lines@).take(i + 1);
            assert(next.drop_last() == done);
            assert(next.last() == lines@[i as int]@);
        }
        if i > 0 {
            text.append("\n");
        }
        text.append(lines[i].as_str());
        i += 1;
    }
    proof {
        assert(texts(lines@).take(i as int) == texts(lines@));
    }
    text
}

} // verus!
