//! The log streaming pipe's event shape: each line read from a child
//! process's output becomes one event carrying the service name, the
//! stream it came from, the phase that produced it, the line itself and a
//! capture timestamp.
//!
//! Reading the streams and publishing the events is fire-and-forget work of
//! the shell: a line that cannot be delivered is dropped, never buffered
//! and never an error. What is verified here is the event built for each
//! line.

use vstd::prelude::*;

verus! {

/// Which output stream a line came from.
#[derive(Clone, Copy, Debug, PartialEq, Eq, Structural)]
pub enum StreamKind {
    Stdout,
    Stderr,
}

/// The tag that a stream kind carries in an event.
pub open spec fn stream_label_of(k: StreamKind) -> Seq<char> {
    match k {
        StreamKind::Stdout => "stdout"@,
        StreamKind::Stderr => "stderr"@,
    }
}

impl StreamKind {
    /// The tag this stream kind carries in an event.
    pub fn label(&self) -> (r: String)
        ensures
            r@ == stream_label_of(*self),
    {
        match self {
            StreamKind::Stdout => "stdout".to_owned(),
            StreamKind::Stderr => "stderr".to_owned(),
        }
    }
}

/// Which phase of a service's life produced a line.
#[derive(Clone, Copy, Debug, PartialEq, Eq, Structural)]
pub enum PhaseTag {
    Build,
    Run,
}

/// The tag that a phase carries in an event.
pub open spec fn phase_label_of(p: PhaseTag) -> Seq<char> {
    match p {
        PhaseTag::Build => "build"@,
        PhaseTag::Run => "run"@,
    }
}

impl PhaseTag {
    /// The tag this phase carries in an event.
    pub fn label(&self) -> (r: String)
        ensures
            r@ == phase_label_of(*self),
    {
        match self {
            PhaseTag::Build => "build".to_owned(),
            PhaseTag::Run => "run".to_owned(),
        }
    }
}

/// One outbound log event.
#[derive(Debug)]
pub struct LogEvent {
    pub service: String,
    pub stream: StreamKind,
    pub phase: PhaseTag,
    pub message: String,
    pub timestamp_ms: u64,
}

/// Mathematical model of a log event.
pub ghost struct LogEventModel {
    pub service: Seq<char>,
    pub stream: StreamKind,
    pub phase: PhaseTag,
    pub message: Seq<char>,
    pub timestamp_ms: u64,
}

impl View for LogEvent {
    type V = LogEventModel;

    open spec fn view(&self) -> LogEventModel {
        LogEventModel {
            service: self.service@,
            stream: self.stream,
            phase: self.phase,
            message: self.message@,
            timestamp_ms: self.timestamp_ms,
        }
    }
}

/// The event that one captured line denotes: nothing is added, dropped or
/// reordered on the way into an event.
pub fn make_log_event(
    service: &str,
    stream: StreamKind,
    phase: PhaseTag,
    message: String,
    timestamp_ms: u64,
) -> (r: LogEvent)
    ensures
        r@ == (LogEventModel {
            service: service@,
            stream,
            phase,
            message: message@,
            timestamp_ms,
        }),
{
    LogEvent { service: service.to_owned(), stream, phase, message, timestamp_ms }
}

} // verus!
