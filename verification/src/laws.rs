//! What holds of every chain and every trace.

use crate::chain::{attach, display_text, leaf, linked};
use crate::location::{informed, Location};
use crate::text::{
    decimal, index_label, join_lines, single_line, split_lines, trace_line, trace_lines,
    trace_text,
};
use vstd::prelude::*;

verus! {

/// A text always has at least one line.
pub proof fn lemma_split_lines_nonempty(text: Seq<char>)
    ensures
        split_lines(text).len() >= 1,
    decreases text.len(),
{
    if text.len() > 0 {
        lemma_split_lines_nonempty(text.drop_last());
    }
}

/// Text without a newline, put behind another text, lengthens that text's
/// last line and adds none.
pub proof fn lemma_split_lines_append(text: Seq<char>, tail: Seq<char>)
    requires
        single_line(tail),
    ensures
        split_lines(text).len() >= 1,
        split_lines(text + tail) == split_lines(text).drop_last().push(
            split_lines(text).last() + tail,
        ),
    decreases tail.len(),
{
    lemma_split_lines_nonempty(text);
    let lines = split_lines(text);
    if tail.len() == 0 {
        assert(text + tail == text);
        assert(lines.last() + tail == lines.last());
        assert(lines.drop_last().push(lines.last()) == lines);
    } else {
        let whole = text + tail;
        let shorter = text + tail.drop_last();
        assert(whole.drop_last() == shorter);
        assert(whole.last() == tail.last());
        assert(tail.last() == tail[tail.len() - 1]);
        assert(single_line(tail.drop_last()));
        lemma_split_lines_append(text, tail.drop_last());
        let before = split_lines(shorter);
        assert(before.drop_last() == lines.drop_last());
        assert(before.last().push(tail.last()) == lines.last() + tail) by {
            assert(tail.drop_last().push(tail.last()) == tail);
            assert(before.last() == lines.last() + tail.drop_last());
        }
    }
}

/// Lines without newlines, joined and split again, are the same lines.
pub proof fn lemma_split_join(lines: Seq<Seq<char>>)
    requires
        lines.len() >= 1,
        forall|i: int| 0 <= i < lines.len() ==> single_line(#[trigger] lines[i]),
    ensures
        split_lines(join_lines(lines)) == lines,
    decreases lines.len(),
{
    let none = Seq::<char>::empty();
    if lines.len() == 1 {
        lemma_split_lines_append(none, lines[0]);
        assert(none + lines[0] == lines[0]);
        assert(split_lines(none) == seq![none]);
        assert(seq![none].drop_last().push(none + lines[0]) == lines);
    } else {
        let front = lines.drop_last();
        let joined = join_lines(front);
        lemma_split_join(front);
        let broken = joined + seq!['\n'];
        assert(broken.last() == '\n');
        assert(broken.drop_last() == joined);
        assert(split_lines(broken) == front.push(none));
        lemma_split_lines_append(broken, lines.last());
        assert(none + lines.last() == lines.last());
        assert(front.push(none).drop_last() == front);
        assert(front.push(lines.last()) == lines);
    }
}

/// A decimal numeral holds no newline.
pub proof fn lemma_decimal_single_line(n: nat)
    ensures
        single_line(decimal(n)),
        decimal(n).len() >= 1,
    decreases n,
{
    if n >= 10 {
        lemma_decimal_single_line(n / 10);
    }
}

/// A trace line holds a newline only where its message does.
pub proof fn lemma_trace_line_single_line(i: nat, message: Seq<char>)
    requires
        single_line(message),
    ensures
        single_line(trace_line(i, message)),
{
    lemma_decimal_single_line(i);
}

/// The trace of a record without a cause is one line: its message behind
/// the index 0.
pub proof fn lemma_trace_of_leaf(message: Seq<char>)
    ensures
        trace_text(leaf(message)) == " 0: "@ + message,
{
    reveal_strlit(" 0: ");
    let lines = trace_lines(leaf(message));
    assert(lines[0] == trace_line(0, message));
    assert(index_label(0) + seq![':', ' '] == " 0: "@);
}

/// The trace of a record with a leaf as its cause is two lines: the
/// record's message behind the index 0, the cause's behind the index 1.
pub proof fn lemma_trace_of_pair(newer: Seq<char>, older: Seq<char>)
    ensures
        trace_text(attach(leaf(newer), leaf(older))) == " 0: "@ + newer + "\n 1: "@ + older,
{
    reveal_strlit(" 0: ");
    reveal_strlit("\n 1: ");
    let layers = attach(leaf(newer), leaf(older));
    let lines = trace_lines(layers);
    assert(layers.len() == 2);
    assert(lines[0] == trace_line(0, newer));
    assert(lines[1] == trace_line(1, older));
    assert(lines.drop_last().len() == 1);
    assert(lines.drop_last()[0] == lines[0]);
    assert(join_lines(lines.drop_last()) == lines[0]);
    assert(index_label(0) + seq![':', ' '] == " 0: "@);
    assert(seq!['\n'] + (index_label(1) + seq![':', ' ']) == "\n 1: "@);
    assert(trace_text(layers) == lines[0] + seq!['\n'] + lines[1]);
}

/// A chain of n layers is traced in n lines, in the order of the layers,
/// each with its index in front. Where no message holds a newline, these
/// are exactly the lines of the trace.
pub proof fn lemma_trace_lines(layers: Seq<Seq<char>>)
    requires
        layers.len() >= 1,
    ensures
        trace_lines(layers).len() == layers.len(),
        forall|i: int|
            0 <= i < layers.len() ==> #[trigger] trace_lines(layers)[i] == index_label(i as nat)
                + ": "@ + layers[i],
        trace_text(layers) == join_lines(trace_lines(layers)),
        (forall|i: int| 0 <= i < layers.len() ==> single_line(#[trigger] layers[i]))
            ==> split_lines(trace_text(layers)) == trace_lines(layers),
{
    reveal_strlit(": ");
    assert(": "@ == seq![':', ' ']);
    let lines = trace_lines(layers);
    if forall|i: int| 0 <= i < layers.len() ==> single_line(#[trigger] layers[i]) {
        assert forall|i: int| 0 <= i < lines.len() implies single_line(#[trigger] lines[i]) by {
            lemma_trace_line_single_line(i as nat, layers[i]);
        }
        lemma_split_join(lines);
    }
}

/// A record shown alone shows its own message whatever its cause is, and
/// holds a newline only where that message does.
pub proof fn lemma_display_ignores_cause(newer: Seq<Seq<char>>, older: Seq<Seq<char>>)
    requires
        newer.len() >= 1,
    ensures
        display_text(attach(newer, older)) == display_text(newer),
        display_text(newer) == newer[0],
        single_line(newer[0]) ==> single_line(display_text(attach(newer, older))),
{
}

/// A record with a cause has one layer more than the cause: its own
/// message first, then the layers of the cause in their order.
pub proof fn lemma_attach_layers(newer: Seq<Seq<char>>, older: Seq<Seq<char>>)
    requires
        newer.len() >= 1,
    ensures
        attach(newer, older).len() == older.len() + 1,
        attach(newer, older)[0] == newer[0],
        forall|i: int| 0 <= i < older.len() ==> attach(newer, older)[i + 1] == older[i],
{
}

/// A cause given to a record takes the place of the cause it had.
pub proof fn lemma_cause_replaces(
    newer: Seq<Seq<char>>,
    first: Seq<Seq<char>>,
    second: Seq<Seq<char>>,
)
    requires
        newer.len() >= 1,
    ensures
        attach(attach(newer, first), second) == attach(newer, second),
{
}

/// A record linked over a foreign chain has one layer more than the
/// chain: its own message first, then the chain's layers in their order.
pub proof fn lemma_linked_layers(top: Seq<char>, foreign: Seq<Seq<char>>)
    ensures
        linked(top, foreign).len() == foreign.len() + 1,
        linked(top, foreign)[0] == top,
        forall|i: int| 0 <= i < foreign.len() ==> linked(top, foreign)[i + 1] == foreign[i],
        linked(top, foreign) == attach(leaf(top), foreign),
{
}

/// A disclosing message is the file, the line and the column, each
/// followed by a colon, then a space and the text. A message that does not
/// disclose is the text alone.
pub proof fn lemma_informed(at: Location, text: Seq<char>)
    ensures
        informed(true, at, text) == at.file@ + ":"@ + decimal(at.line as nat) + ":"@ + decimal(
            at.column as nat,
        ) + ": "@ + text,
        informed(false, at, text) == text,
{
    reveal_strlit(":");
    reveal_strlit(": ");
    assert(":"@ == seq![':']);
    assert(": "@ == seq![':', ' ']);
}

} // verus!
