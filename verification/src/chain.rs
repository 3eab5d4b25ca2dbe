//! The model of a chain: the sequence of its messages, newest first.

use vstd::prelude::*;

verus! {

/// The chain of a record without a cause.
pub open spec fn leaf(message: Seq<char>) -> Seq<Seq<char>> {
    seq![message]
}

/// The chain of a record once `older` is its cause: the record's own
/// message in front of the cause's chain. What the record had behind it
/// before does not stay.
pub open spec fn attach(newer: Seq<Seq<char>>, older: Seq<Seq<char>>) -> Seq<Seq<char>> {
    seq![newer[0]] + older
}

/// The chain of a record with the message `top` over a foreign chain.
pub open spec fn linked(top: Seq<char>, foreign: Seq<Seq<char>>) -> Seq<Seq<char>> {
    seq![top] + foreign
}

/// What a record shows of itself when shown alone.
pub open spec fn display_text(layers: Seq<Seq<char>>) -> Seq<char> {
    layers[0]
}

} // verus!
