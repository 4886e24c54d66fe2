//! Logging backends: the capability contract for record sinks, and its two
//! reference implementations.

mod memory;
mod os;

pub use self::memory::{retained, Memory};
pub use self::os::{
    elevated_spec, fixed_width_level, fixed_width_level_spec, format_line, rendered_line,
    sink_lines, Os,
};

use crate::log::Log;
use std::sync::Arc;
use vstd::prelude::*;

verus! {

/// The failure a backend can report for one record.
#[derive(Debug)]
pub struct BackendError {
    /// A human-readable description of the failure.
    pub message: String,
}

/// A pluggable sink for log records.
///
/// A backend receives one shared record per invocation, performs its side
/// effects, and reports success or failure.  The dispatcher never invokes a
/// backend concurrently with itself: invocations of one backend are strictly
/// sequential, in delivery order.
pub trait Backend: Sized {
    /// The internal well-formedness the backend maintains across invocations,
    /// whether an invocation succeeds or fails.
    spec fn inv(&self) -> bool;

    /// The records this backend has accepted, in delivery order.
    spec fn seen(&self) -> Seq<Arc<Log>>;

    /// Whether this kind of backend ever reports a failure.  An
    /// implementation that declares itself infallible thereby promises
    /// success on every well-formed record.
    spec fn infallible() -> bool;

    /// Accept one record and perform this backend's side effects for it.
    ///
    /// On success the record is appended to the history of accepted records.
    /// On failure the dispatcher treats the whole pipeline as failed; the
    /// backend still remains well formed and has accepted at most the record
    /// it was handed.
    fn process_log(&mut self, log: &Arc<Log>) -> (r: Result<(), BackendError>)
        requires
            old(self).inv(),
            (**log).wf(),
        ensures
            final(self).inv(),
            r is Ok ==> final(self).seen() == old(self).seen().push(*log),
            r is Err ==> final(self).seen() == old(self).seen() || final(self).seen() == old(
                self,
            ).seen().push(*log),
            Self::infallible() ==> r is Ok,
    ;
}


/// One of the backends this library ships, so that one manager can hold
/// backends of different kinds in one collection.
pub enum BackendKind {
    /// A bounded in-memory buffer of the most recent records.
    Memory(Memory),
    /// A severity-routed pair of output sinks.
    Stream(Os),
}

impl Backend for BackendKind {
    open spec fn inv(&self) -> bool {
        match self {
            BackendKind::Memory(m) => m.inv(),
            BackendKind::Stream(o) => o.inv(),
        }
    }

    open spec fn seen(&self) -> Seq<Arc<Log>> {
        match self {
            BackendKind::Memory(m) => m.seen(),
            BackendKind::Stream(o) => o.seen(),
        }
    }

    open spec fn infallible() -> bool {
        true
    }

    fn process_log(&mut self, log: &Arc<Log>) -> (r: Result<(), BackendError>)
        ensures
            r is Ok,
    {
        match self {
            BackendKind::Memory(m) => m.process_log(log),
            BackendKind::Stream(o) => o.process_log(log),
        }
    }
}

} // verus!

