//! A backend that routes formatted records to one of two output sinks by
//! severity.

use super::{Backend, BackendError};
use crate::log::{Level, Log};
use crate::time::{rfc3339, rfc3339_of};
use std::sync::Arc;
use vstd::prelude::*;
use vstd::string::*;

verus! {

/// The fixed-width, five-character token for a severity level.
pub open spec fn fixed_width_level_spec(level: Level) -> Seq<char> {
    match level {
        Level::Trace => "TRACE"@,
        Level::Debug => "DEBUG"@,
        Level::Info => "INFO "@,
        Level::Warning => "WARN "@,
        Level::Error => "ERROR"@,
    }
}

/// The fixed-width, five-character token for a severity level.
pub fn fixed_width_level(level: Level) -> (r: &'static str)
    ensures
        r@ == fixed_width_level_spec(level),
{
    match level {
        Level::Trace => "TRACE",
        Level::Debug => "DEBUG",
        Level::Info => "INFO ",
        Level::Warning => "WARN ",
        Level::Error => "ERROR",
    }
}

/// Whether records of this level go to the elevated sink.
pub open spec fn elevated_spec(level: Level) -> bool {
    level.rank_spec() >= Level::Warning.rank_spec()
}

/// The single line a record is rendered as:
/// `LEVEL [RFC3339 timestamp] [process]: message` and a newline.
pub open spec fn rendered_line(log: Log) -> Seq<char> {
    fixed_width_level_spec(log.level) + " ["@ + rfc3339_of(
        log.timestamp.secs as int,
        log.timestamp.nanos as int,
    ) + "] ["@ + log.process@ + "]: "@ + log.message@ + "\n"@
}

/// Render a record as its single output line.
pub fn format_line(log: &Log) -> (r: String)
    requires
        log.timestamp.wf(),
    ensures
        r@ == rendered_line(*log),
{
    let mut line = fixed_width_level(log.level).to_owned();
    line.append(" [");
    let ts = rfc3339(log.timestamp);
    line.append(ts.as_str());
    line.append("] [");
    line.append(log.process.as_str());
    line.append("]: ");
    line.append(log.message.as_str());
    line.append("\n");
    proof {
        assert(line@ =~= rendered_line(*log));
    }
    line
}

/// The lines held by a sink, as character sequences.
pub open spec fn sink_lines(lines: Seq<String>) -> Seq<Seq<char>> {
    lines.map_values(|s: String| s@)
}

/// The lines that the records of `hist` contribute to one tier: the
/// rendering of every record whose severity routes it there, in delivery
/// order.
pub open spec fn routed_lines(hist: Seq<Arc<Log>>, elevated: bool) -> Seq<Seq<char>>
    decreases hist.len(),
{
    if hist.len() == 0 {
        Seq::empty()
    } else if elevated_spec((*hist.last()).level) == elevated {
        routed_lines(hist.drop_last(), elevated).push(rendered_line(*hist.last()))
    } else {
        routed_lines(hist.drop_last(), elevated)
    }
}

/// A backend with two output sinks: records at `Level::Warning` and above
/// are routed to the elevated sink, all others to the default sink.
///
/// The sinks buffer whole lines in delivery order; the host hands them on to
/// its output streams.
pub struct Os {
    /// Lines routed below `Level::Warning`.
    pub default_sink: Vec<String>,
    /// Lines routed at `Level::Warning` and above.
    pub elevated_sink: Vec<String>,
    /// Every record ever accepted, in delivery order.
    pub history: Ghost<Seq<Arc<Log>>>,
}

impl Os {
    /// Create a stream backend with both sinks empty.
    pub fn new() -> (r: Os)
        ensures
            r.inv(),
            r.seen() == Seq::<Arc<Log>>::empty(),
            r.default_sink@.len() == 0,
            r.elevated_sink@.len() == 0,
    {
        let r = Os {
            default_sink: Vec::new(),
            elevated_sink: Vec::new(),
            history: Ghost(Seq::empty()),
        };
        proof {
            assert(sink_lines(r.default_sink@) =~= routed_lines(r.history@, false));
            assert(sink_lines(r.elevated_sink@) =~= routed_lines(r.history@, true));
        }
        r
    }
}

impl Backend for Os {
    /// Each sink holds exactly the lines of the accepted records that route
    /// to it, in delivery order.
    open spec fn inv(&self) -> bool {
        sink_lines(self.default_sink@) == routed_lines(self.history@, false)
            && sink_lines(self.elevated_sink@) == routed_lines(self.history@, true)
    }

    open spec fn seen(&self) -> Seq<Arc<Log>> {
        self.history@
    }

    open spec fn infallible() -> bool {
        true
    }

    /// Accept one record: render it as a single line and append that line to
    /// exactly one sink, the elevated one when the severity is at least
    /// `Level::Warning` and the default one otherwise.  Never fails.
    fn process_log(&mut self, log: &Arc<Log>) -> (r: Result<(), BackendError>)
        ensures
            r is Ok,
            elevated_spec((**log).level) ==> sink_lines(final(self).elevated_sink@)
                == sink_lines(old(self).elevated_sink@).push(rendered_line(**log))
                && final(self).default_sink == old(self).default_sink,
            !elevated_spec((**log).level) ==> sink_lines(final(self).default_sink@)
                == sink_lines(old(self).default_sink@).push(rendered_line(**log))
                && final(self).elevated_sink == old(self).elevated_sink,
    {
        let line = format_line(&**log);
        if log.level.at_least(Level::Warning) {
            let ghost before = self.elevated_sink@;
            self.elevated_sink.push(line);
            proof {
                assert(sink_lines(self.elevated_sink@) =~= sink_lines(before).push(
                    rendered_line(**log),
                ));
            }
        } else {
            let ghost before = self.default_sink@;
            self.default_sink.push(line);
            proof {
                assert(sink_lines(self.default_sink@) =~= sink_lines(before).push(
                    rendered_line(**log),
                ));
            }
        }
        proof {
            let hist = self.history@;
            self.history@ = self.history@.push(*log);
            assert(self.history@.last() == *log);
            assert(self.history@.drop_last() =~= hist);
        }
        Ok(())
    }
}

} // verus!
