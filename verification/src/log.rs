//! Log records: severity levels, the structured payload, and the record
//! builder itself.

use crate::configuration::Context;
use std::sync::Arc;
use crate::time::Timestamp;
use vstd::prelude::*;

verus! {

/// The severity of a log message, ordered from least to most severe.
#[derive(Clone, Copy, PartialEq, Eq, Structural, PartialOrd, Ord, Hash, Debug)]
pub enum Level {
    /// The lowest severity, for very low-level debugging information.
    Trace,
    /// Above `Trace`, for information relevant while tracking down an issue.
    Debug,
    /// Above `Debug`, for notable events during normal operation.
    Info,
    /// Above `Info`, for signs that something might be wrong.
    Warning,
    /// The highest severity, for situations that need attention.
    Error,
}

impl Level {
    /// The position of this level in the severity order.
    pub open spec fn rank_spec(self) -> int {
        match self {
            Level::Trace => 0,
            Level::Debug => 1,
            Level::Info => 2,
            Level::Warning => 3,
            Level::Error => 4,
        }
    }

    /// The position of this level in the severity order.
    pub fn rank(self) -> (r: u8)
        ensures
            r as int == self.rank_spec(),
    {
        match self {
            Level::Trace => 0,
            Level::Debug => 1,
            Level::Info => 2,
            Level::Warning => 3,
            Level::Error => 4,
        }
    }

    /// Whether this level is at least as severe as `other`.
    pub fn at_least(self, other: Level) -> (r: bool)
        ensures
            r == (self.rank_spec() >= other.rank_spec()),
    {
        self.rank() >= other.rank()
    }
}

/// The error a record-building or submission call can report.
#[derive(Clone, Copy, PartialEq, Eq, Structural, Debug)]
pub enum LogError {
    /// Neither a scoped nor a global configuration could be resolved.
    Unresolved,
    /// The key being attached is already present in the payload.
    DuplicateKey,
    /// The delivery channel has no live receiver.
    Closed,
}

/// One key/value pair of structured information attached to a record.
pub struct PayloadEntry {
    /// The key under which the value was attached.
    pub key: String,
    /// The attached value, an arbitrary piece of structured data.
    pub value: serde_json::Value,
}

/// The structured values carried by the payload are `serde_json` values; this
/// library only stores them and never looks inside.
#[verifier::external_type_specification]
#[verifier::external_body]
pub struct ExValue(serde_json::Value);

/// The structured key/value enrichment of a log record.
///
/// It starts empty and grows by one entry per attached key; no key may be
/// attached twice.
pub struct Payload {
    /// The attached entries, in attachment order.
    pub entries: Vec<PayloadEntry>,
}

impl Payload {
    /// Whether the payload holds an entry under the given key.
    pub open spec fn has_key(self, k: Seq<char>) -> bool {
        exists|i: int| 0 <= i < self.entries@.len() && self.entries@[i].key@ == k
    }

    /// A payload is well formed when no two entries share a key.
    pub open spec fn wf(self) -> bool {
        forall|i: int, j: int|
            0 <= i < j < self.entries@.len() ==> self.entries@[i].key@ != self.entries@[j].key@
    }

    /// The position of the entry holding the given key.
    pub open spec fn index_of_key(self, k: Seq<char>) -> int {
        choose|i: int| 0 <= i < self.entries@.len() && self.entries@[i].key@ == k
    }

    /// The value attached under the given key.
    pub open spec fn value_of(self, k: Seq<char>) -> serde_json::Value {
        self.entries@[self.index_of_key(k)].value
    }

    /// An empty payload.
    pub fn new() -> (r: Payload)
        ensures
            r.entries@.len() == 0,
            r.wf(),
    {
        Payload { entries: Vec::new() }
    }

    /// The number of attached entries.
    pub fn len(&self) -> (r: usize)
        ensures
            r == self.entries@.len(),
    {
        self.entries.len()
    }

    /// Whether the payload holds an entry under the given key.
    pub fn contains_key(&self, key: &String) -> (r: bool)
        ensures
            r == self.has_key(key@),
    {
        let n = self.entries.len();
        let mut i: usize = 0;
        while i < n
            invariant
                n == self.entries@.len(),
                0 <= i <= n,
                forall|j: int| 0 <= j < i ==> self.entries@[j].key@ != key@,
            decreases n - i,
        {
            if self.entries[i].key == *key {
                return true;
            }
            i += 1;
        }
        false
    }

    /// The value attached under the given key, if any.
    pub fn get(&self, key: &String) -> (r: Option<&serde_json::Value>)
        requires
            self.wf(),
        ensures
            r is Some <==> self.has_key(key@),
            r matches Some(v) ==> *v == self.value_of(key@),
    {
        let n = self.entries.len();
        let mut i: usize = 0;
        while i < n
            invariant
                self.wf(),
                n == self.entries@.len(),
                0 <= i <= n,
                forall|j: int| 0 <= j < i ==> self.entries@[j].key@ != key@,
            decreases n - i,
        {
            if self.entries[i].key == *key {
                assert(self.index_of_key(key@) == i);
                return Some(&self.entries[i].value);
            }
            i += 1;
        }
        None
    }
}


/// Law: once an attach of `key` has succeeded, the payload holds `key` and
/// is still well formed; by the contract of [`Log::add`], a later attach of
/// the same key is therefore rejected with a duplicate-key error and leaves
/// the record exactly as it was after the first attach.
pub proof fn lemma_duplicate_key(p: Payload, q: Payload, key: String, value: serde_json::Value)
    requires
        !p.has_key(key@),
        q.entries@ == p.entries@.push((PayloadEntry { key, value })),
    ensures
        q.has_key(key@),
        p.wf() ==> q.wf(),
{
    assert(q.entries@[p.entries@.len() as int].key@ == key@);
    if p.wf() {
        assert forall|i: int, j: int| 0 <= i < j < q.entries@.len() implies q.entries@[i].key@
            != q.entries@[j].key@ by {
            if j < p.entries@.len() {
            } else {
                assert(q.entries@[i] == p.entries@[i]);
                assert(!(p.entries@[i].key@ == key@));
            }
        }
    }
}

/// A log record: immutable once submitted, enriched while being built.
pub struct Log {
    /// The severity of the record.
    pub level: Level,
    /// The process that generated the record.
    pub process: String,
    /// The log message, rendered at creation time.
    pub message: String,
    /// The moment the record was created.
    pub timestamp: Timestamp,
    /// Structured information relevant to the message.
    pub payload: Payload,
}

impl Log {
    /// A record is well formed when its timestamp is in range and its payload
    /// keys are distinct.
    pub open spec fn wf(self) -> bool {
        self.timestamp.wf() && self.payload.wf()
    }


    /// Whether this record is well formed; runs the check that the
    /// specification [`Log::wf`] describes.
    pub fn is_wf(&self) -> (b: bool)
        ensures
            b == self.wf(),
    {
        if !(0 <= self.timestamp.secs && self.timestamp.secs <= crate::time::MAX_TIMESTAMP_SECS
            && self.timestamp.nanos < crate::time::NANOS_PER_SEC) {
            return false;
        }
        let n = self.payload.entries.len();
        let mut i: usize = 0;
        while i < n
            invariant
                n == self.payload.entries@.len(),
                0 <= i <= n,
                forall|a: int, b: int|
                    0 <= a < b < n && a < i ==> self.payload.entries@[a].key@
                        != self.payload.entries@[b].key@,
            decreases n - i,
        {
            let mut j: usize = i + 1;
            while j < n
                invariant
                    n == self.payload.entries@.len(),
                    0 <= i < j <= n,
                    forall|b: int| i < b < j ==> self.payload.entries@[i as int].key@
                        != self.payload.entries@[b].key@,
                decreases n - j,
            {
                if self.payload.entries[i].key == self.payload.entries[j].key {
                    return false;
                }
                j += 1;
            }
            i += 1;
        }
        true
    }

    /// Create a new record with the given severity and message, attributed to
    /// the configuration resolved from `ctx` and stamped with the current
    /// wall-clock time.  Fails when no configuration can be resolved.
    pub fn new(ctx: &Context, level: Level, message: String) -> (r: Result<Log, LogError>)
        ensures
            r is Ok <==> ctx.current_spec() is Some,
            r matches Err(e) ==> e == LogError::Unresolved,
            r matches Ok(log) ==> log.level == level && log.message@ == message@
                && log.process@ == ctx.current_spec()->Some_0.process@
                && log.payload.entries@.len() == 0 && log.wf(),
    {
        match ctx.current() {
            None => Err(LogError::Unresolved),
            Some(config) => {
                let process = config.process.clone();
                Ok(
                    Log {
                        level,
                        process,
                        message,
                        timestamp: Timestamp::now(),
                        payload: Payload::new(),
                    },
                )
            },
        }
    }

    /// Create a new `Level::Error` record with the given message.
    pub fn error(ctx: &Context, message: String) -> (r: Result<Log, LogError>)
        ensures
            r is Ok <==> ctx.current_spec() is Some,
            r matches Err(e) ==> e == LogError::Unresolved,
            r matches Ok(log) ==> log.level == Level::Error && log.message@ == message@
                && log.process@ == ctx.current_spec()->Some_0.process@
                && log.payload.entries@.len() == 0 && log.wf(),
    {
        Log::new(ctx, Level::Error, message)
    }

    /// Create a new `Level::Warning` record with the given message.
    pub fn warning(ctx: &Context, message: String) -> (r: Result<Log, LogError>)
        ensures
            r is Ok <==> ctx.current_spec() is Some,
            r matches Err(e) ==> e == LogError::Unresolved,
            r matches Ok(log) ==> log.level == Level::Warning && log.message@ == message@
                && log.process@ == ctx.current_spec()->Some_0.process@
                && log.payload.entries@.len() == 0 && log.wf(),
    {
        Log::new(ctx, Level::Warning, message)
    }

    /// Create a new `Level::Info` record with the given message.
    pub fn info(ctx: &Context, message: String) -> (r: Result<Log, LogError>)
        ensures
            r is Ok <==> ctx.current_spec() is Some,
            r matches Err(e) ==> e == LogError::Unresolved,
            r matches Ok(log) ==> log.level == Level::Info && log.message@ == message@
                && log.process@ == ctx.current_spec()->Some_0.process@
                && log.payload.entries@.len() == 0 && log.wf(),
    {
        Log::new(ctx, Level::Info, message)
    }

    /// Create a new `Level::Debug` record with the given message.
    pub fn debug(ctx: &Context, message: String) -> (r: Result<Log, LogError>)
        ensures
            r is Ok <==> ctx.current_spec() is Some,
            r matches Err(e) ==> e == LogError::Unresolved,
            r matches Ok(log) ==> log.level == Level::Debug && log.message@ == message@
                && log.process@ == ctx.current_spec()->Some_0.process@
                && log.payload.entries@.len() == 0 && log.wf(),
    {
        Log::new(ctx, Level::Debug, message)
    }

    /// Create a new `Level::Trace` record with the given message.
    pub fn trace(ctx: &Context, message: String) -> (r: Result<Log, LogError>)
        ensures
            r is Ok <==> ctx.current_spec() is Some,
            r matches Err(e) ==> e == LogError::Unresolved,
            r matches Ok(log) ==> log.level == Level::Trace && log.message@ == message@
                && log.process@ == ctx.current_spec()->Some_0.process@
                && log.payload.entries@.len() == 0 && log.wf(),
    {
        Log::new(ctx, Level::Trace, message)
    }

    /// Attach one key/value pair to the record's payload.
    ///
    /// Fails with a duplicate-key error, leaving the record unchanged, when
    /// the key is already present.
    pub fn add(&mut self, key: String, value: serde_json::Value) -> (r: Result<(), LogError>)
        requires
            old(self).payload.wf(),
        ensures
            r is Ok <==> !old(self).payload.has_key(key@),
            r matches Err(e) ==> e == LogError::DuplicateKey && *final(self) == *old(self),
            r is Ok ==> final(self).payload.entries@ == old(self).payload.entries@.push(
                (PayloadEntry { key, value }),
            ) && final(self).payload.wf() && final(self).level == old(self).level
                && final(self).process == old(self).process
                && final(self).message == old(self).message
                && final(self).timestamp == old(self).timestamp,
    {
        if self.payload.contains_key(&key) {
            return Err(LogError::DuplicateKey);
        }
        self.payload.entries.push(PayloadEntry { key, value });
        Ok(())
    }


    /// Submit this record: resolve the current configuration from `ctx`, wrap
    /// the record for shared read-only ownership, and enqueue it on the
    /// resolved configuration's channel.
    ///
    /// Fails with [`LogError::Unresolved`] exactly when no configuration can
    /// be resolved, and with [`LogError::Closed`] when the channel has no
    /// live receiver.
    pub fn submit(self, ctx: &Context) -> (r: Result<(), LogError>)
        ensures
            ctx.current_spec() is None <==> r == Err::<(), LogError>(LogError::Unresolved),
            ctx.current_spec() is Some ==> (r is Ok || r == Err::<(), LogError>(LogError::Closed)),
    {
        match ctx.current() {
            None => Err(LogError::Unresolved),
            Some(config) => {
                let log = Arc::new(self);
                match crate::configuration::send_log(&config.destination, log) {
                    Ok(()) => Ok(()),
                    Err(_) => Err(LogError::Closed),
                }
            },
        }
    }

    /// The equivalent of [`Log::add`], in a builder style: the record is
    /// passed back on success and dropped on a duplicate key.
    pub fn with(self, key: String, value: serde_json::Value) -> (r: Result<Log, LogError>)
        requires
            self.payload.wf(),
        ensures
            r is Ok <==> !self.payload.has_key(key@),
            r matches Err(e) ==> e == LogError::DuplicateKey,
            r matches Ok(log) ==> log.payload.entries@ == self.payload.entries@.push(
                (PayloadEntry { key, value }),
            ) && log.payload.wf() && log.level == self.level && log.process == self.process
                && log.message == self.message && log.timestamp == self.timestamp,
    {
        let mut log = self;
        match log.add(key, value) {
            Ok(()) => Ok(log),
            Err(e) => Err(e),
        }
    }
}

} // verus!
