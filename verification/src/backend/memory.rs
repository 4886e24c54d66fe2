//! A memory-based backend retaining the most recent records.

use super::{Backend, BackendError};
use crate::log::Log;
use std::collections::VecDeque;
use std::sync::Arc;
use vstd::prelude::*;

verus! {

/// The contents of a bounded most-recent-first buffer of capacity `cap`
/// after the records `hist` have been accepted in order: the last
/// `min(cap, hist.len())` records, newest first.
pub open spec fn retained(cap: int, hist: Seq<Arc<Log>>) -> Seq<Arc<Log>> {
    Seq::new(
        (if cap <= hist.len() as int {
            cap
        } else {
            hist.len() as int
        }) as nat,
        |i: int| hist[hist.len() - 1 - i],
    )
}

/// A memory-based backend, for reviewing the last records that were logged.
pub struct Memory {
    /// The maximum number of records kept.
    pub max_entries: usize,
    /// The retained records, most recently accepted first.
    pub entries: VecDeque<Arc<Log>>,
    /// Every record ever accepted, in delivery order.
    pub history: Ghost<Seq<Arc<Log>>>,
}

impl Memory {
    /// Create an empty buffer keeping at most `max_entries` records.
    pub fn new(max_entries: usize) -> (r: Memory)
        ensures
            r.inv(),
            r.max_entries == max_entries,
            r.seen() == Seq::<Arc<Log>>::empty(),
            r.entries@.len() == 0,
    {
        let r = Memory {
            max_entries,
            entries: VecDeque::new(),
            history: Ghost(Seq::empty()),
        };
        proof {
            assert(r.entries@ =~= retained(max_entries as int, r.history@));
        }
        r
    }
}

/// Relies on `Arc::clone`: the returned handle shares the same record.
#[verifier::external_body]
fn share_log(log: &Arc<Log>) -> (r: Arc<Log>)
    ensures
        r == *log,
{
    log.clone()
}

/// Extending the history by one record prepends that record to the retained
/// contents and truncates them back to the capacity.
proof fn lemma_retained_step(cap: int, hist: Seq<Arc<Log>>, log: Arc<Log>)
    requires
        cap >= 0,
    ensures
        retained(cap, hist.push(log)) == (seq![log] + retained(cap, hist)).take(
            if cap <= hist.len() as int + 1 {
                cap
            } else {
                hist.len() as int + 1
            },
        ),
{
    assert(retained(cap, hist.push(log)) =~= (seq![log] + retained(cap, hist)).take(
        if cap <= hist.len() as int + 1 {
            cap
        } else {
            hist.len() as int + 1
        },
    ));
}

impl Backend for Memory {
    /// The retained records are exactly the most recent of the accepted ones.
    open spec fn inv(&self) -> bool {
        self.entries@ == retained(self.max_entries as int, self.history@)
    }

    open spec fn seen(&self) -> Seq<Arc<Log>> {
        self.history@
    }

    open spec fn infallible() -> bool {
        true
    }

    /// Accept one record: push it to the front, then evict from the back
    /// while the buffer exceeds its capacity.  Never fails.
    fn process_log(&mut self, log: &Arc<Log>) -> (r: Result<(), BackendError>)
        ensures
            r is Ok,
            final(self).max_entries == old(self).max_entries,
            final(self).entries@ == retained(
                old(self).max_entries as int,
                old(self).seen().push(*log),
            ),
    {
        let ghost cap = self.max_entries as int;
        let ghost hist = self.history@;
        let ghost full = seq![*log] + retained(cap, hist);
        let dup = share_log(log);
        self.entries.push_front(dup);
        while self.entries.len() > self.max_entries
            invariant
                self.max_entries == old(self).max_entries,
                cap == self.max_entries as int,
                hist == old(self).history@,
                self.history@ == hist,
                full == seq![*log] + retained(cap, hist),
                self.entries@ == full.take(self.entries@.len() as int),
                self.entries@.len() <= full.len(),
                self.entries@.len() >= if cap <= hist.len() as int + 1 {
                    cap
                } else {
                    hist.len() as int + 1
                },
            decreases self.entries@.len(),
        {
            self.entries.pop_back();
            assert(self.entries@ =~= full.take(self.entries@.len() as int));
        }
        proof {
            self.history@ = self.history@.push(*log);
            lemma_retained_step(cap, hist, *log);
            assert(self.entries@ =~= retained(cap, hist.push(*log)));
        }
        Ok(())
    }
}

/// Law: after any sequence of records has been accepted in order by a
/// bounded buffer of capacity `cap`, the buffer holds exactly
/// `min(cap, hist.len())` records, most recent first, and each of them is
/// among the last `cap` accepted.
pub proof fn lemma_bounded_retention(cap: int, hist: Seq<Arc<Log>>)
    requires
        cap >= 0,
    ensures
        retained(cap, hist).len() == if cap <= hist.len() as int {
            cap
        } else {
            hist.len() as int
        },
        forall|i: int| #![trigger retained(cap, hist)[i]]
            0 <= i < retained(cap, hist).len() ==> retained(cap, hist)[i] == hist[hist.len() - 1
                - i] && hist.len() - cap <= hist.len() - 1 - i < hist.len(),
{
}

} // verus!
