//! The error record: a message and the record that caused it.

use crate::chain::{attach, display_text, leaf, linked};
use crate::foreign::ForeignCause;
use crate::text::{join_line_strings, texts, trace_line, trace_line_string, trace_lines, trace_text};
use vstd::prelude::*;
use vstd::string::StringExecFns;

verus! {

/// One layer of context, owning the next-older layer.
///
/// Its view is the sequence of the chain's messages, newest first. A record
/// can only be given a cause that already exists and that it then owns, so
/// the chain is finite and its view never empty.
#[derive(Debug)]
pub struct Nuhound {
    source: Option<Box<Nuhound>>,
    message: String,
}

impl View for Nuhound {
    type V = Seq<Seq<char>>;

    open spec fn view(&self) -> Seq<Seq<char>> {
        self.layers()
    }
}

impl Nuhound {
    /// The messages of the chain, newest first.
    pub closed spec fn layers(self) -> Seq<Seq<char>>
        decreases self,
    {
        match self.source {
            None => seq![self.message@],
            Some(older) => seq![self.message@] + older.layers(),
        }
    }

    /// A chain holds at least the record's own message.
    pub proof fn lemma_layers_nonempty(self)
        ensures
            self@.len() >= 1,
        decreases self,
    {
        match self.source {
            None => {},
            Some(older) => {
                older.lemma_layers_nonempty();
            },
        }
    }

    /// A leaf record holding `inform`.
    pub fn new(inform: &str) -> (record: Nuhound)
        ensures
            record@ == leaf(inform@),
    {
        Nuhound { source: None, message: String::from_str(inform) }
    }

    /// This record with `source` as its cause. A cause that the record
    /// already had is dropped.
    pub fn caused_by(self, source: Nuhound) -> (record: Nuhound)
        ensures
            record@ == attach(self@, source@),
    {
        let mut record = self;
        record.source = Some(Box::new(source));
        record
    }

    /// A record with the message `inform`, caused by the whole chain of
    /// `caused_by`: each failure along its cause links becomes a record of
    /// its own, in the same order.
    pub fn link(inform: &str, caused_by: &ForeignCause) -> (record: Nuhound)
        ensures
            record@ == linked(inform@, caused_by@),
    {
        let chain = Nuhound::flatten(caused_by);
        Nuhound::new(inform).caused_by(chain)
    }

    /// The chain of `cause` as a chain of records, layer for layer.
    pub fn flatten(cause: &ForeignCause) -> (record: Nuhound)
        ensures
            record@ == cause@,
    {
        let mut current: &ForeignCause = cause;
        let mut causes: Vec<Nuhound> = Vec::new();
        causes.push(Nuhound::new(current.message()));
        let mut next = current.source();
        while next.is_some()
            invariant
                1 <= causes.len() <= cause@.len(),
                forall|i: int| 0 <= i < causes.len() ==> (#[trigger] causes[i])@ == seq![cause@[i]],
                current@ == cause@.skip(causes.len() - 1),
                match next {
                    Some(deeper) => current@.len() >= 2 && deeper@ == current@.skip(1),
                    None => current@.len() == 1,
                },
            decreases cause@.len() - causes.len(),
        {
            let deeper = next.unwrap();
            proof {
                assert(current@.skip(1) == cause@.skip(causes.len() as int));
            }
            current = deeper;
            causes.push(Nuhound::new(current.message()));
            next = current.source();
        }
        let mut chain = causes.pop().unwrap();
        proof {
            assert(chain@ == cause@.skip(causes.len() as int));
        }
        while causes.len() > 0
            invariant
                causes.len() < cause@.len(),
                forall|i: int| 0 <= i < causes.len() ==> (#[trigger] causes[i])@ == seq![cause@[i]],
                chain@ == cause@.skip(causes.len() as int),
            decreases causes.len(),
        {
            let newer = causes.pop().unwrap();
            chain = newer.caused_by(chain);
            proof {
                assert(chain@ == cause@.skip(causes.len() as int));
            }
        }
        chain
    }

    /// This record with `inform` in place of its message, and its cause
    /// kept.
    pub fn with_message(self, inform: &str) -> (record: Nuhound)
        ensures
            record@ == seq![inform@] + self@.skip(1),
    {
        let mut record = self;
        record.message = String::from_str(inform);
        record
    }

    /// The message of this record alone.
    pub fn message(&self) -> (text: &str)
        ensures
            text@ == self@[0],
    {
        self.message.as_str()
    }

    /// The record that caused this one, if there is one.
    pub fn source(&self) -> (cause: Option<&Nuhound>)
        ensures
            match cause {
                Some(older) => self@.len() >= 2 && older@ == self@.skip(1),
                None => self@.len() == 1,
            },
    {
        match &self.source {
            Some(older) => {
                proof {
                    older.lemma_layers_nonempty();
                    assert(older@ == self@.skip(1));
                }
                Some(&**older)
            },
            None => None,
        }
    }

    /// The record shown alone: its message, and nothing of its causes.
    pub fn to_string(&self) -> (text: String)
        ensures
            text@ == display_text(self@),
    {
        self.message.clone()
    }

    /// The whole chain, one numbered line for each layer, newest first.
    pub fn trace(&self) -> (text: String)
        ensures
            text@ == trace_text(self@),
    {
        let mut item: &Nuhound = self;
        let mut lines: Vec<String> = Vec::new();
        lines.push(trace_line_string(0, item.message()));
        let mut next = item.source();
        while next.is_some()
            invariant
                1 <= lines.len() <= self@.len(),
                forall|i: int| 0 <= i < lines.len() ==> (#[trigger] lines[i])@ == trace_line(i as nat, self@[i]),
                item@ == self@.skip(lines.len() - 1),
                match next {
                    Some(older) => item@.len() >= 2 && older@ == item@.skip(1),
                    None => item@.len() == 1,
                },
            decreases self@.len() - lines.len(),
        {
            let older = next.unwrap();
            proof {
                assert(item@.skip(1) == self@.skip(lines.len() as int));
            }
            item = older;
            let n: usize = lines.len();
            lines.push(trace_line_string(n, item.message()));
            next = item.source();
        }
        proof {
            assert(texts(lines@) == trace_lines(self@));
        }
        join_line_strings(&lines)
    }
}

impl Clone for Nuhound {
    /// A copy of the whole chain.
    fn clone(&self) -> (copy: Nuhound)
        ensures
            copy == *self,
        decreases self,
    {
        let source = match &self.source {
            Some(older) => Some(Box::new((&**older).clone())),
            None => None,
        };
        Nuhound { source, message: self.message.clone() }
    }
}

impl PartialEq for Nuhound {
    /// Whether the two chains hold the same messages in the same order.
    fn eq(&self, other: &Nuhound) -> (equal: bool) {
        let mut left: &Nuhound = self;
        let mut right: &Nuhound = other;
        loop
            invariant
                (self@ == other@) <==> (left@ == right@),
            decreases left@.len(),
        {
            proof {
                left.lemma_layers_nonempty();
                right.lemma_layers_nonempty();
            }
            if left.message != right.message {
                assert(left@[0] != right@[0]);
                return false;
            }
            match (left.source(), right.source()) {
                (Some(older_left), Some(older_right)) => {
                    proof {
                        assert(left@ == seq![left@[0]] + older_left@);
                        assert(right@ == seq![right@[0]] + older_right@);
                    }
                    left = older_left;
                    right = older_right;
                },
                (None, None) => {
                    assert(left@ == right@);
                    return true;
                },
                (Some(_), None) => {
                    assert(left@.len() != right@.len());
                    return false;
                },
                (None, Some(_)) => {
                    assert(left@.len() != right@.len());
                    return false;
                },
            }
        }
    }
}

impl vstd::std_specs::cmp::PartialEqSpecImpl for Nuhound {
    open spec fn obeys_eq_spec() -> bool {
        true
    }

    open spec fn eq_spec(&self, other: &Nuhound) -> bool {
        self@ == other@
    }
}

impl Eq for Nuhound {

}

impl From<&str> for Nuhound {
    /// A leaf record holding `value`.
    fn from(value: &str) -> (record: Nuhound)
        ensures
            record@ == leaf(value@),
    {
        Nuhound::new(value)
    }
}

impl vstd::std_specs::convert::FromSpecImpl<&str> for Nuhound {
    open spec fn obeys_from_spec() -> bool {
        false
    }

    open spec fn from_spec(value: &str) -> Nuhound {
        arbitrary()
    }
}

} // verus!
