//! Adapters that turn the outcome of a fallible call into a `Report`.

use crate::failure::Failure;
use crate::foreign::ForeignCause;
use crate::record::Nuhound;
use vstd::prelude::*;

verus! {

/// The outcome of a call that fails with a record.
pub type Report<T> = Result<T, Nuhound>;

/// The message of the record that stands for a missing value.
pub open spec fn absence_text() -> Seq<char> {
    "missing value detected"@
}

/// The record that stands for a missing value: a leaf with a fixed message.
pub fn absence() -> (record: Nuhound)
    ensures
        record@ == seq![absence_text()],
{
    Nuhound::new("missing value detected")
}

/// Turns a value-or-failure outcome into a `Report`.
pub trait ResultExtension<T, E>: Sized {
    /// The outcome that `self` holds.
    spec fn outcome(self) -> Result<T, E>;

    /// The layers of the record that `easy` makes of the failure `e`.
    spec fn converted(e: E) -> Seq<Seq<char>>;

    /// A success is handed on; a failure is replaced by what `op` makes of
    /// it. `op` is called only on failure, and then once, with the failure
    /// itself.
    fn report<O: FnOnce(E) -> Nuhound>(self, op: O) -> (report: Result<T, Nuhound>)
        requires
            self.outcome() matches Err(e) ==> op.requires((e,)),
        ensures
            match self.outcome() {
                Ok(value) => report == Ok::<T, Nuhound>(value),
                Err(e) => report matches Err(record) && op.ensures((e,), record),
            },
    ;

    /// A success is handed on; a failure becomes the record of its whole
    /// chain.
    fn easy(self) -> (report: Result<T, Nuhound>)
        ensures
            match self.outcome() {
                Ok(value) => report == Ok::<T, Nuhound>(value),
                Err(e) => report matches Err(record) && record@ == Self::converted(e),
            },
    ;
}

impl<T> ResultExtension<T, ForeignCause> for Result<T, ForeignCause> {
    open spec fn outcome(self) -> Result<T, ForeignCause> {
        self
    }

    open spec fn converted(e: ForeignCause) -> Seq<Seq<char>> {
        e@
    }

    fn report<O: FnOnce(ForeignCause) -> Nuhound>(self, op: O) -> (report: Result<T, Nuhound>) {
        match self {
            Ok(value) => Ok(value),
            Err(e) => Err(op(e)),
        }
    }

    fn easy(self) -> (report: Result<T, Nuhound>) {
        match self {
            Ok(value) => Ok(value),
            Err(e) => {
                match e.source() {
                    Some(source) => Err(Nuhound::link(e.message(), source)),
                    None => Err(Nuhound::new(e.message())),
                }
            },
        }
    }
}

impl<T> ResultExtension<T, Nuhound> for Result<T, Nuhound> {
    open spec fn outcome(self) -> Result<T, Nuhound> {
        self
    }

    open spec fn converted(e: Nuhound) -> Seq<Seq<char>> {
        e@
    }

    fn report<O: FnOnce(Nuhound) -> Nuhound>(self, op: O) -> (report: Result<T, Nuhound>) {
        match self {
            Ok(value) => Ok(value),
            Err(e) => Err(op(e)),
        }
    }

    fn easy(self) -> (report: Result<T, Nuhound>) {
        self
    }
}

impl<T> ResultExtension<T, Failure> for Result<T, Failure> {
    open spec fn outcome(self) -> Result<T, Failure> {
        self
    }

    open spec fn converted(e: Failure) -> Seq<Seq<char>> {
        e@
    }

    fn report<O: FnOnce(Failure) -> Nuhound>(self, op: O) -> (report: Result<T, Nuhound>) {
        match self {
            Ok(value) => Ok(value),
            Err(e) => Err(op(e)),
        }
    }

    fn easy(self) -> (report: Result<T, Nuhound>) {
        match self {
            Ok(value) => Ok(value),
            Err(e) => Err(e.into_record()),
        }
    }
}

/// Whether `record` is what `op` can make of the record that stands for a
/// missing value.
pub open spec fn made_of_absence<O: FnOnce(Nuhound) -> Nuhound>(op: O, record: Nuhound) -> bool {
    exists|missing: Nuhound|
        missing@ == seq![absence_text()] && #[trigger] op.ensures((missing,), record)
}

/// Turns a value-or-absent outcome into a `Report`.
pub trait OptionExtension<T>: Sized {
    /// The outcome that `self` holds.
    spec fn outcome(self) -> Option<T>;

    /// A value is handed on; for a missing value the result is what `op`
    /// makes of the record that stands for it. `op` is called only then.
    fn report<O: FnOnce(Nuhound) -> Nuhound>(self, op: O) -> (report: Result<T, Nuhound>)
        requires
            self.outcome() is None ==> forall|missing: Nuhound|
                missing@ == seq![absence_text()] ==> op.requires((missing,)),
        ensures
            match self.outcome() {
                Some(value) => report == Ok::<T, Nuhound>(value),
                None => report matches Err(record) && made_of_absence(op, record),
            },
    ;

    /// A value is handed on; a missing value becomes the record that stands
    /// for it.
    fn easy(self) -> (report: Result<T, Nuhound>)
        ensures
            match self.outcome() {
                Some(value) => report == Ok::<T, Nuhound>(value),
                None => report matches Err(record) && record@ == seq![absence_text()],
            },
    ;
}

impl<T> OptionExtension<T> for Option<T> {
    open spec fn outcome(self) -> Option<T> {
        self
    }

    fn report<O: FnOnce(Nuhound) -> Nuhound>(self, op: O) -> (report: Result<T, Nuhound>) {
        match self {
            Some(value) => Ok(value),
            None => {
                let missing = absence();
                let ghost handed = missing;
                let record = op(missing);
                assert(op.ensures((handed,), record));
                Err(record)
            },
        }
    }

    fn easy(self) -> (report: Result<T, Nuhound>) {
        match self {
            Some(value) => Ok(value),
            None => Err(absence()),
        }
    }
}

} // verus!
