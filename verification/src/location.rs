//! Records whose messages can disclose the place in the source where they
//! were raised.

use crate::failure::Failure;
use crate::record::Nuhound;
use crate::text::{decimal, decimal_string};
use vstd::prelude::*;
use vstd::string::StringExecFns;

verus! {

/// A place in a source file.
#[derive(Debug)]
pub struct Location {
    pub file: String,
    pub line: u32,
    pub column: u32,
}

/// What a disclosing message starts with: file, line and column, each
/// followed by a colon, and a space.
pub open spec fn location_prefix(at: Location) -> Seq<char> {
    at.file@ + seq![':'] + decimal(at.line as nat) + seq![':'] + decimal(at.column as nat) + seq![
        ':',
        ' ',
    ]
}

/// The message made of `text` raised at `at`: behind the location where
/// messages disclose it, unchanged where they do not.
pub open spec fn informed(disclose: bool, at: Location, text: Seq<char>) -> Seq<char> {
    if disclose {
        location_prefix(at) + text
    } else {
        text
    }
}

/// The message of a record raised without one.
pub open spec fn unspecified_text() -> Seq<char> {
    "unspecified error"@
}

impl Location {
    /// The place at `line` and `column` of `file`.
    pub fn new(file: &str, line: u32, column: u32) -> (at: Location)
        ensures
            at.file@ == file@,
            at.line == line,
            at.column == column,
    {
        Location { file: String::from_str(file), line, column }
    }
}

/// Makes records at a place in the source. Whether their messages disclose
/// the place is fixed when the tag is made.
#[derive(Debug)]
pub struct LocationTag {
    disclose: bool,
}

impl LocationTag {
    /// Whether the messages disclose the place.
    pub closed spec fn discloses(self) -> bool {
        self.disclose
    }

    /// A tag whose messages disclose the place if `disclose` is set.
    pub fn new(disclose: bool) -> (tag: LocationTag)
        ensures
            tag.discloses() == disclose,
    {
        LocationTag { disclose }
    }

    /// Whether the messages disclose the place.
    pub fn disclose(&self) -> (disclose: bool)
        ensures
            disclose == self.discloses(),
    {
        self.disclose
    }

    /// The message made of `text` raised at `at`.
    pub fn inform(&self, at: &Location, text: &str) -> (message: String)
        ensures
            message@ == informed(self.discloses(), *at, text@),
    {
        if self.disclose {
            proof {
                reveal_strlit(":");
                reveal_strlit(": ");
            }
            let mut message = at.file.clone();
            message.append(":");
            message.append(decimal_string(at.line as u64).as_str());
            message.append(":");
            message.append(decimal_string(at.column as u64).as_str());
            message.append(": ");
            message.append(text);
            message
        } else {
            String::from_str(text)
        }
    }

    /// A leaf record raised at `at` without a message of its own.
    pub fn unspecified(&self, at: &Location) -> (record: Nuhound)
        ensures
            record@ == seq![informed(self.discloses(), *at, unspecified_text())],
    {
        self.root(at, "unspecified error")
    }

    /// A leaf record raised at `at` with the message `text`.
    pub fn root(&self, at: &Location, text: &str) -> (record: Nuhound)
        ensures
            record@ == seq![informed(self.discloses(), *at, text@)],
    {
        let message = self.inform(at, text);
        Nuhound::new(message.as_str())
    }

    /// The record of `cause` raised again at `at`: the message is made of
    /// the cause's own, and what lies behind the cause stays behind it.
    pub fn cause(&self, at: &Location, cause: Failure) -> (record: Nuhound)
        ensures
            record@ == seq![informed(self.discloses(), *at, cause@[0])] + cause@.skip(1),
    {
        let older = cause.into_record();
        let message = self.inform(at, older.message());
        older.with_message(message.as_str())
    }

    /// A record raised at `at` with the message `text`, caused by the whole
    /// chain of `cause`.
    pub fn cause_with(&self, at: &Location, cause: Failure, text: &str) -> (record: Nuhound)
        ensures
            record@ == seq![informed(self.discloses(), *at, text@)] + cause@,
    {
        let message = self.inform(at, text);
        Nuhound::new(message.as_str()).caused_by(cause.into_record())
    }
}

} // verus!
