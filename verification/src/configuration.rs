//! Configuration resolution: the pairing of a delivery channel with a process
//! identity, resolvable either from a scoped span or from a global fallback.

use crate::log::{Log, LogError};
use std::sync::Arc;
use vstd::prelude::*;

verus! {

/// The delivery channel is the sending half of a `flume` channel; this
/// library stores such endpoints and sends on them, and never looks inside.
#[verifier::external_type_specification]
#[verifier::external_body]
#[verifier::reject_recursive_types(T)]
pub struct ExSender<T>(flume::Sender<T>);

/// Relies on `flume::Sender::clone`: the clone is another handle to the very
/// same channel.
pub assume_specification<T>[ <flume::Sender<T> as Clone>::clone ](
    sender: &flume::Sender<T>,
) -> (r: flume::Sender<T>)
    ensures
        r == *sender,
;

/// A logging configuration: where records are delivered, and the process
/// name they are attributed to.
///
/// The delivery channel is unbounded on purpose: submitting never blocks, so
/// producers are never slowed by slow backends.  The price is that memory
/// grows without bound if the dispatcher stalls or dies while records keep
/// being submitted.
#[derive(Clone)]
pub struct Configuration {
    /// The destination for log records.
    pub destination: flume::Sender<Arc<Log>>,
    /// The name of the process that generates the records being sent.
    pub process: String,
}

impl Configuration {
    /// Create a configuration delivering to `sender` under the given process
    /// name.
    pub fn named(process: &str, sender: flume::Sender<Arc<Log>>) -> (r: Configuration)
        ensures
            r.process@ == process@,
            r.destination == sender,
    {
        Configuration { destination: sender, process: process.to_owned() }
    }
}

/// The configuration that a scope stack and a global fallback resolve to:
/// the innermost scoped configuration if one is active, else the global one
/// if set, else nothing.
pub open spec fn resolved(
    scopes: Seq<Configuration>,
    global: Option<Configuration>,
) -> Option<Configuration> {
    if scopes.len() > 0 {
        Some(scopes.last())
    } else {
        global
    }
}

/// The two-tier resolution state seen by one logical caller: a stack of
/// scoped configurations (innermost last) over an at-most-once global one.
pub struct Context {
    /// The process-wide fallback configuration, set at most once.
    pub global: Option<Configuration>,
    /// The active scoped configurations, innermost last.
    pub scopes: Vec<Configuration>,
}

impl Context {
    /// The configuration this context currently resolves to.
    pub open spec fn current_spec(self) -> Option<Configuration> {
        resolved(self.scopes@, self.global)
    }

    /// A context with no configuration at all.
    pub fn new() -> (r: Context)
        ensures
            r.global is None,
            r.scopes@.len() == 0,
            r.current_spec() is None,
    {
        Context { global: None, scopes: Vec::new() }
    }

    /// Install the global fallback configuration.  Setting it twice is a
    /// programming error, so a caller must never ask for it.
    pub fn set_global(&mut self, config: Configuration)
        requires
            old(self).global is None,
        ensures
            final(self).global == Some(config),
            final(self).scopes == old(self).scopes,
    {
        self.global = Some(config);
    }

    /// Enter a span in which `config` shadows whatever was current before.
    pub fn enter_scope(&mut self, config: Configuration)
        ensures
            final(self).scopes@ == old(self).scopes@.push(config),
            final(self).global == old(self).global,
            final(self).current_spec() == Some(config),
    {
        self.scopes.push(config);
    }

    /// Leave the innermost span, reverting to whatever was current before it
    /// was entered.
    pub fn exit_scope(&mut self)
        requires
            old(self).scopes@.len() > 0,
        ensures
            final(self).scopes@ == old(self).scopes@.drop_last(),
            final(self).global == old(self).global,
    {
        self.scopes.pop();
    }

    /// Resolve the current configuration: the innermost scoped one if a span
    /// is active, else the global one if set, else nothing.
    pub fn current(&self) -> (r: Option<&Configuration>)
        ensures
            match r {
                Some(c) => self.current_spec() == Some(*c),
                None => self.current_spec() is None,
            },
    {
        if self.scopes.len() > 0 {
            Some(&self.scopes[self.scopes.len() - 1])
        } else {
            match &self.global {
                Some(c) => Some(c),
                None => None,
            }
        }
    }
}

/// Law: within a span the scoped configuration is the one resolved; when the
/// span ends the scope stack is exactly what it was before, so resolution
/// falls back to the global configuration if one is set and reports nothing
/// otherwise.
pub proof fn lemma_scoped_resolution(
    scopes: Seq<Configuration>,
    global: Option<Configuration>,
    config: Configuration,
)
    ensures
        resolved(scopes.push(config), global) == Some(config),
        scopes.push(config).drop_last() == scopes,
        scopes.len() == 0 ==> resolved(scopes, global) == global,
{
    assert(scopes.push(config).last() == config);
    assert(scopes.push(config).drop_last() =~= scopes);
}

/// Relies on `flume::Sender::send`: on an unbounded channel it accepts the
/// message without blocking unless every receiver has been dropped, and on
/// failure it hands the message back unchanged.
#[verifier::external_body]
pub(crate) fn send_log(destination: &flume::Sender<Arc<Log>>, log: Arc<Log>) -> (r: Result<
    (),
    Arc<Log>,
>)
    ensures
        r matches Err(l) ==> l == log,
{
    destination.send(log).map_err(|e| e.0)
}

} // verus!
