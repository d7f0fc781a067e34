//! The event relay: turns the events of the child process into log lines,
//! in the order of their arrival, and stops at the child's termination.
//!
//! The relay only reports. It never touches the supervisor's state: a child
//! that exits on its own stays in the slot until the next shutdown.

use vstd::prelude::*;
use vstd::utf8::{decode_utf8, valid_utf8};
use crate::text::{debug_option, decode_lossy, lossy_text, push_debug_option};

verus! {

/// An event of the child process.
#[derive(Debug, PartialEq, Eq)]
pub enum SidecarEvent {
    /// A chunk of the child's standard output.
    Stdout(Vec<u8>),
    /// A chunk of the child's standard error.
    Stderr(Vec<u8>),
    /// The process facility failed while running or watching the child.
    Error(String),
    /// The child has terminated.
    Terminated { code: Option<i32>, signal: Option<i32> },
}

/// Where a log line goes.
#[derive(Clone, Copy, Debug, PartialEq, Eq, Structural)]
pub enum LogStream {
    Info,
    Error,
}

/// One log line. `text` is written as it stands: where a line break
/// belongs at its end, it is part of the text.
#[derive(Debug, PartialEq, Eq)]
pub struct LogLine {
    pub stream: LogStream,
    pub text: String,
}

impl View for LogLine {
    type V = (LogStream, Seq<char>);

    open spec fn view(&self) -> (LogStream, Seq<char>) {
        (self.stream, self.text@)
    }
}

/// What the relay does with one event: the line to log, and whether the
/// relay stops after it.
#[derive(Debug, PartialEq, Eq)]
pub struct RelayStep {
    pub line: LogLine,
    pub stop: bool,
}

/// The stream on which `event` is logged: output on the informational
/// stream, everything else on the error stream.
pub open spec fn line_stream(event: SidecarEvent) -> LogStream {
    match event {
        SidecarEvent::Stdout(_) => LogStream::Info,
        _ => LogStream::Error,
    }
}

/// The text that is logged for `event`.
pub open spec fn line_text(event: SidecarEvent) -> Seq<char> {
    match event {
        SidecarEvent::Stdout(bytes) => lossy_text(bytes@),
        SidecarEvent::Stderr(bytes) => lossy_text(bytes@),
        SidecarEvent::Error(reason) => "sidecar error: "@ + reason@ + "\n"@,
        SidecarEvent::Terminated { code, signal } => "sidecar terminated: code="@ + debug_option(
            code,
        ) + " signal="@ + debug_option(signal) + "\n"@,
    }
}

/// Whether `text` shows the chunk of output that `event` carries as it
/// was written, wherever that chunk is valid UTF-8. Events without a chunk
/// ask for nothing here.
pub open spec fn shows_chunk(event: SidecarEvent, text: Seq<char>) -> bool {
    match event {
        SidecarEvent::Stdout(bytes) => valid_utf8(bytes@) ==> text == decode_utf8(bytes@),
        SidecarEvent::Stderr(bytes) => valid_utf8(bytes@) ==> text == decode_utf8(bytes@),
        _ => true,
    }
}

/// The log line of `event`.
pub open spec fn line_of(event: SidecarEvent) -> (LogStream, Seq<char>) {
    (line_stream(event), line_text(event))
}

/// Whether a relay that is fed `events` consumes exactly the first `n` of
/// them: there is no termination before the last consumed event, and
/// events are left over only behind a termination.
pub open spec fn stops_after(events: Seq<SidecarEvent>, n: int) -> bool {
    &&& 0 <= n <= events.len()
    &&& forall|i: int| 0 <= i < n - 1 ==> !(#[trigger] events[i] is Terminated)
    &&& n < events.len() ==> n > 0 && events[n - 1] is Terminated
}

/// Handles one event: says on which stream and with which text it is
/// logged, and whether it ends the relay, which only a termination does.
pub fn relay_step(event: &SidecarEvent) -> (step: RelayStep)
    ensures
        step.line@ == line_of(*event),
        shows_chunk(*event, step.line.text@),
        step.stop == (*event is Terminated),
{
    match event {
        SidecarEvent::Stdout(bytes) => RelayStep {
            line: LogLine { stream: LogStream::Info, text: decode_lossy(bytes) },
            stop: false,
        },
        SidecarEvent::Stderr(bytes) => RelayStep {
            line: LogLine { stream: LogStream::Error, text: decode_lossy(bytes) },
            stop: false,
        },
        SidecarEvent::Error(reason) => {
            let mut text = String::from_str("sidecar error: ");
            text.append(reason.as_str());
            text.append("\n");
            RelayStep { line: LogLine { stream: LogStream::Error, text }, stop: false }
        },
        SidecarEvent::Terminated { code, signal } => {
            let mut text = String::from_str("sidecar terminated: code=");
            push_debug_option(&mut text, *code);
            text.append(" signal=");
            push_debug_option(&mut text, *signal);
            text.append("\n");
            RelayStep { line: LogLine { stream: LogStream::Error, text }, stop: true }
        },
    }
}

/// Relays a whole stream of events: one log line per consumed event, in
/// the order of arrival, up to and including the first termination.
pub fn relay(events: &Vec<SidecarEvent>) -> (lines: Vec<LogLine>)
    ensures
        stops_after(events@, lines@.len() as int),
        forall|i: int|
            0 <= i < lines@.len() ==> (#[trigger] lines@[i])@ == line_of(events@[i]) && shows_chunk(
                events@[i],
                lines@[i].text@,
            ),
{
    let mut lines: Vec<LogLine> = Vec::new();
    let mut i: usize = 0;
    while i < events.len()
        invariant
            i <= events.len(),
            lines@.len() == i,
            forall|k: int| 0 <= k < i ==> !(#[trigger] events@[k] is Terminated),
            forall|k: int|
                0 <= k < i ==> (#[trigger] lines@[k])@ == line_of(events@[k]) && shows_chunk(
                    events@[k],
                    lines@[k].text@,
                ),
        decreases events.len() - i,
    {
        let step = relay_step(&events[i]);
        lines.push(step.line);
        if step.stop {
            return lines;
        }
        i += 1;
    }
    lines
}

/// The point at which a relay stops is determined by the events alone.
pub proof fn lemma_stop_point_unique(events: Seq<SidecarEvent>, a: int, b: int)
    requires
        stops_after(events, a),
        stops_after(events, b),
    ensures
        a == b,
{
    if a < b {
        assert(events[a - 1] is Terminated);
    } else if b < a {
        assert(events[b - 1] is Terminated);
    }
}

/// A stream without a termination is relayed to its end, and a stream is
/// never relayed beyond its first termination.
pub proof fn lemma_stop_point(events: Seq<SidecarEvent>, n: int, first: int)
    requires
        stops_after(events, n),
    ensures
        (forall|i: int| 0 <= i < events.len() ==> !(#[trigger] events[i] is Terminated)) ==> n
            == events.len(),
        0 <= first < events.len() && events[first] is Terminated ==> n <= first + 1,
{
    if 0 <= first < events.len() && events[first] is Terminated && n > first + 1 {
        assert(!(events[first] is Terminated));
    }
    if n < events.len() {
        assert(events[n - 1] is Terminated);
    }
}

} // verus!
