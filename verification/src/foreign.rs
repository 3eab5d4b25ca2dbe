//! A failure raised outside this library, held as plain text layers.

use crate::chain::{attach, leaf};
use vstd::prelude::*;
use vstd::string::StringExecFns;

verus! {

/// A failure that is not yet a record: its own description and,
/// optionally, the failure that caused it.
#[derive(Debug)]
pub struct ForeignCause {
    source: Option<Box<ForeignCause>>,
    message: String,
}

impl ForeignCause {
    /// The descriptions along the cause links, outermost first.
    pub closed spec fn layers(self) -> Seq<Seq<char>>
        decreases self,
    {
        match self.source {
            None => seq![self.message@],
            Some(deeper) => seq![self.message@] + deeper.layers(),
        }
    }

    /// A chain holds at least the failure's own description.
    pub proof fn lemma_layers_nonempty(self)
        ensures
            self@.len() >= 1,
        decreases self,
    {
        match self.source {
            None => {},
            Some(deeper) => {
                deeper.lemma_layers_nonempty();
            },
        }
    }

    /// A failure without a further cause.
    pub fn new(message: &str) -> (cause: ForeignCause)
        ensures
            cause@ == leaf(message@),
    {
        ForeignCause { source: None, message: String::from_str(message) }
    }

    /// This failure with `source` as the failure behind it.
    pub fn caused_by(self, source: ForeignCause) -> (cause: ForeignCause)
        ensures
            cause@ == attach(self@, source@),
    {
        let mut cause = self;
        cause.source = Some(Box::new(source));
        cause
    }

    /// The description of this failure alone.
    pub fn message(&self) -> (text: &str)
        ensures
            text@ == self@[0],
    {
        self.message.as_str()
    }

    /// The failure behind this one, if it names one.
    pub fn source(&self) -> (next: Option<&ForeignCause>)
        ensures
            match next {
                Some(deeper) => self@.len() >= 2 && deeper@ == self@.skip(1),
                None => self@.len() == 1,
            },
    {
        match &self.source {
            Some(deeper) => {
                proof {
                    deeper.lemma_layers_nonempty();
                    assert(deeper@ == self@.skip(1));
                }
                Some(&**deeper)
            },
            None => None,
        }
    }
}

impl View for ForeignCause {
    type V = Seq<Seq<char>>;

    open spec fn view(&self) -> Seq<Seq<char>> {
        self.layers()
    }
}

} // verus!
