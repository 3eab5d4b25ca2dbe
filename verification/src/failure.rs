//! Failures of either kind: already a record, or still foreign.

use crate::foreign::ForeignCause;
use crate::record::Nuhound;
use vstd::prelude::*;

verus! {

/// A failure as a caller may receive it: one of this library's records, or
/// a failure raised elsewhere.
#[derive(Debug)]
pub enum Failure {
    /// A failure that is already a record.
    Record(Nuhound),
    /// A failure raised elsewhere, with the failures behind it.
    Foreign(ForeignCause),
}

impl View for Failure {
    type V = Seq<Seq<char>>;

    /// The messages of the failure's chain, outermost first.
    open spec fn view(&self) -> Seq<Seq<char>> {
        match *self {
            Failure::Record(record) => record@,
            Failure::Foreign(cause) => cause@,
        }
    }
}

impl Failure {
    /// The failure as a record: a record as it is, a foreign failure with
    /// each layer of its chain made a record.
    pub fn into_record(self) -> (record: Nuhound)
        ensures
            record@ == self@,
    {
        match self {
            Failure::Record(record) => record,
            Failure::Foreign(cause) => Nuhound::flatten(&cause),
        }
    }
}

/// Whether `val` is one of this library's records.
pub fn is_nuhound(val: &Failure) -> (yes: bool)
    ensures
        yes == (val is Record),
{
    match val {
        Failure::Record(_) => true,
        Failure::Foreign(_) => false,
    }
}

} // verus!
