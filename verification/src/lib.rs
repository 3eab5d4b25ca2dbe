//! Error records that keep the causal history of a failure.
//!
//! A [`Nuhound`] holds a message and, optionally, the record that caused it.
//! Records are made from plain messages, from failures raised elsewhere
//! ([`ForeignCause`]) and from missing values; [`ResultExtension`] and
//! [`OptionExtension`] turn the outcome of a fallible call into a [`Report`],
//! and a [`LocationTag`] makes records whose messages can disclose where they
//! were raised. [`Nuhound::trace`] writes the whole chain, newest first.
//!
//! Every contract speaks of a chain as the sequence of its messages, newest
//! first. The module `laws` states what follows for every chain and trace.

pub mod adapter;
pub mod chain;
pub mod failure;
pub mod foreign;
pub mod laws;
pub mod location;
pub mod record;
pub mod text;

pub use adapter::{OptionExtension, Report, ResultExtension};
pub use failure::{is_nuhound, Failure};
pub use foreign::ForeignCause;
pub use location::{Location, LocationTag};
pub use record::Nuhound;
