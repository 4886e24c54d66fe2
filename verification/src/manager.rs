//! The dispatcher: owns an ordered collection of backends and fans every
//! received record out to all of them, in delivery order.

use crate::backend::{Backend, BackendError};
use crate::log::Log;
use std::sync::Arc;
use vstd::prelude::*;

verus! {

/// A manager of log records: it drains submitted records and forwards each
/// one to every registered backend.
///
/// The manager never begins a record before every backend has finished the
/// previous one, so each backend observes the records in delivery order.  A
/// failure of any backend is fatal to the whole manager: the record loop is
/// not resumed.  No timeout is imposed on a backend, so one that hangs
/// stalls all further delivery; a caller wanting timeouts must wrap its
/// backends itself.
pub struct Manager<B: Backend> {
    /// The registered backends, in registration order.
    pub backends: Vec<B>,
}

impl<B: Backend> Manager<B> {
    /// A manager is well formed when every registered backend is.
    pub open spec fn wf(&self) -> bool {
        forall|i: int| 0 <= i < self.backends@.len() ==> (#[trigger] self.backends@[i]).inv()
    }

    /// Create a manager with no backends.
    pub fn new() -> (r: Manager<B>)
        ensures
            r.backends@.len() == 0,
            r.wf(),
    {
        Manager { backends: Vec::new() }
    }

    /// Attach a backend, builder style.
    pub fn with_backend(self, backend: B) -> (r: Manager<B>)
        ensures
            r.backends@ == self.backends@.push(backend),
            self.wf() && backend.inv() ==> r.wf(),
    {
        let mut m = self;
        m.backends.push(backend);
        m
    }

    /// Deliver one record to every backend, in registration order.  Every
    /// backend is invoked even if an earlier one fails; the first failure,
    /// if any, is then reported and is fatal to the manager.
    ///
    /// Whatever the outcome, the manager keeps its backends, each stays well
    /// formed, and each has accepted at most this one record.  On success —
    /// owed when there is no backend, and whenever every backend is of an
    /// infallible kind — every backend has accepted exactly this record,
    /// appended to the records it had already accepted.
    pub fn step(&mut self, log: &Arc<Log>) -> (r: Result<(), BackendError>)
        requires
            old(self).wf(),
            (**log).wf(),
        ensures
            final(self).wf(),
            final(self).backends@.len() == old(self).backends@.len(),
            forall|i: int|
                0 <= i < old(self).backends@.len() ==> (#[trigger] final(self).backends@[i]).seen()
                    == old(self).backends@[i].seen().push(*log) || final(self).backends@[i].seen()
                    == old(self).backends@[i].seen(),
            r is Ok ==> forall|i: int|
                0 <= i < old(self).backends@.len() ==> (#[trigger] final(self).backends@[i]).seen()
                    == old(self).backends@[i].seen().push(*log),
            old(self).backends@.len() == 0 ==> r is Ok,
            B::infallible() ==> r is Ok,
    {
        let n = self.backends.len();
        let mut failure: Option<BackendError> = None;
        let mut i: usize = 0;
        while i < n
            invariant
                n == self.backends@.len(),
                n == old(self).backends@.len(),
                0 <= i <= n,
                (**log).wf(),
                forall|j: int|
                    0 <= j < i ==> (#[trigger] self.backends@[j]).seen() == old(
                        self,
                    ).backends@[j].seen().push(*log) || self.backends@[j].seen() == old(
                        self,
                    ).backends@[j].seen(),
                failure is None ==> forall|j: int|
                    0 <= j < i ==> (#[trigger] self.backends@[j]).seen() == old(
                        self,
                    ).backends@[j].seen().push(*log),
                forall|j: int| 0 <= j < i ==> (#[trigger] self.backends@[j]).inv(),
                forall|j: int| i <= j < n ==> self.backends@[j] == old(self).backends@[j],
                old(self).wf(),
                failure is Some ==> 0 < i,
                B::infallible() ==> failure is None,
            decreases n - i,
        {
            proof {
                assert(self.backends@[i as int] == old(self).backends@[i as int]);
                assert(old(self).backends@[i as int].inv());
            }
            let backend = &mut self.backends[i];
            match backend.process_log(log) {
                Ok(()) => (),
                Err(e) => {
                    if failure.is_none() {
                        failure = Some(e);
                    }
                },
            }
            i += 1;
        }
        match failure {
            None => Ok(()),
            Some(e) => Err(e),
        }
    }

    /// Deliver a batch of records, each to every backend, in batch order,
    /// stopping after the first record on which some backend fails: no
    /// later record is handed to any backend.
    ///
    /// Whatever the outcome, the manager keeps its backends and each stays
    /// well formed.  On success — owed when the batch or the backend list is
    /// empty, and whenever every backend is of an infallible kind — every
    /// backend has accepted the whole batch in order: this is the
    /// first-in-first-out delivery guarantee, for every backend at once.  On
    /// failure there is a single failing position: every backend has
    /// accepted all records before it, at most additionally the record at
    /// it, and none after it.
    pub fn drain(&mut self, logs: &Vec<Arc<Log>>) -> (r: Result<(), BackendError>)
        requires
            old(self).wf(),
            forall|i: int| 0 <= i < logs@.len() ==> (*#[trigger] logs@[i]).wf(),
        ensures
            final(self).wf(),
            final(self).backends@.len() == old(self).backends@.len(),
            r is Ok ==> forall|i: int|
                0 <= i < old(self).backends@.len() ==> (#[trigger] final(self).backends@[i]).seen()
                    == old(self).backends@[i].seen() + logs@,
            r is Err ==> exists|k: int|
                #![trigger logs@.take(k)]
                0 <= k < logs@.len() && forall|i: int|
                    0 <= i < old(self).backends@.len() ==> (
                    #[trigger] final(self).backends@[i]).seen() == old(self).backends@[i].seen()
                        + logs@.take(k) || final(self).backends@[i].seen() == old(
                        self,
                    ).backends@[i].seen() + logs@.take(k + 1),
            logs@.len() == 0 ==> r is Ok,
            old(self).backends@.len() == 0 ==> r is Ok,
            B::infallible() ==> r is Ok,
    {
        let n = logs.len();
        let mut k: usize = 0;
        while k < n
            invariant
                n == logs@.len(),
                0 <= k <= n,
                forall|i: int| 0 <= i < logs@.len() ==> (*#[trigger] logs@[i]).wf(),
                self.wf(),
                self.backends@.len() == old(self).backends@.len(),
                forall|i: int|
                    0 <= i < old(self).backends@.len() ==> (#[trigger] self.backends@[i]).seen()
                        == old(self).backends@[i].seen() + logs@.take(k as int),
            decreases n - k,
        {
            let ghost before = self.backends@;
            match self.step(&logs[k]) {
                Ok(()) => (),
                Err(e) => {
                    proof {
                        assert forall|i: int| 0 <= i < old(self).backends@.len() implies (
                        #[trigger] self.backends@[i]).seen() == old(self).backends@[i].seen()
                            + logs@.take(k as int) || self.backends@[i].seen() == old(
                            self,
                        ).backends@[i].seen() + logs@.take(k as int + 1) by {
                            assert(logs@.take(k as int + 1) =~= logs@.take(k as int).push(
                                logs@[k as int],
                            ));
                            assert(old(self).backends@[i].seen() + logs@.take(k as int).push(
                                logs@[k as int],
                            ) =~= (old(self).backends@[i].seen() + logs@.take(k as int)).push(
                                logs@[k as int],
                            ));
                            assert(before[i].seen() == old(self).backends@[i].seen() + logs@.take(
                                k as int,
                            ));
                        }
                        assert(0 <= (k as int) && (k as int) < logs@.len());
                    }
                    return Err(e);
                },
            }
            proof {
                assert forall|i: int| 0 <= i < old(self).backends@.len() implies (
                #[trigger] self.backends@[i]).seen() == old(self).backends@[i].seen() + logs@.take(
                    k as int + 1,
                ) by {
                    assert(logs@.take(k as int + 1) =~= logs@.take(k as int).push(logs@[k as int]));
                    assert(old(self).backends@[i].seen() + logs@.take(k as int + 1) =~= (old(
                        self,
                    ).backends@[i].seen() + logs@.take(k as int)).push(logs@[k as int]));
                }
            }
            k += 1;
        }
        proof {
            assert(logs@.take(n as int) =~= logs@);
        }
        Ok(())
    }
}

} // verus!
