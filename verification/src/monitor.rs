//! Forwarding of the child's output to the process log and to the window
//! console.

use vstd::prelude::*;
use crate::text::signed_decimal;
use crate::text::signed_decimal_string;

verus! {

/// How a child process ended: its exit code and the signal that stopped
/// it, as far as the platform reports them.
#[derive(Clone, Copy, Debug)]
pub struct TerminatedPayload {
    pub code: Option<i32>,
    pub signal: Option<i32>,
}

/// One thing heard from the child process.
#[derive(Debug)]
pub enum OutputEvent {
    /// A line on its standard output.
    Stdout(String),
    /// A line on its standard error.
    Stderr(String),
    /// It has ended.
    Terminated(TerminatedPayload),
}

/// An `OutputEvent` with its texts as sequences of characters.
pub enum OutputEventView {
    Stdout(Seq<char>),
    Stderr(Seq<char>),
    Terminated(TerminatedPayload),
}

impl View for OutputEvent {
    type V = OutputEventView;

    open spec fn view(&self) -> OutputEventView {
        match self {
            OutputEvent::Stdout(line) => OutputEventView::Stdout(line@),
            OutputEvent::Stderr(line) => OutputEventView::Stderr(line@),
            OutputEvent::Terminated(payload) => OutputEventView::Terminated(*payload),
        }
    }
}

/// What becomes of one output event: a line for the process log and a
/// script for the window, which writes to its console.
#[derive(Debug)]
pub struct Forwarded {
    pub log_line: String,
    pub script: String,
}

/// A `Forwarded` with its texts as sequences of characters.
pub struct ForwardedView {
    pub log_line: Seq<char>,
    pub script: Seq<char>,
}

impl View for Forwarded {
    type V = ForwardedView;

    open spec fn view(&self) -> ForwardedView {
        ForwardedView { log_line: self.log_line@, script: self.script@ }
    }
}

/// An optional number as text: `None`, or `Some(` the number `)`.
pub open spec fn optional_number_text(n: Option<i32>) -> Seq<char> {
    match n {
        Some(value) => "Some("@ + signed_decimal(value as int) + ")"@,
        None => "None"@,
    }
}

/// A termination notice as text, with both of its fields.
pub open spec fn payload_text(payload: TerminatedPayload) -> Seq<char> {
    "TerminatedPayload { code: "@ + optional_number_text(payload.code) + ", signal: "@
        + optional_number_text(payload.signal) + " }"@
}

/// The log line and the console script for `event`. Output lines go to
/// `console.log`, error lines and the termination notice to
/// `console.error`; each of the three is worded in its own way.
pub open spec fn forwarded(event: OutputEventView) -> ForwardedView {
    match event {
        OutputEventView::Stdout(line) => ForwardedView {
            log_line: "Node.js stdout: "@ + line,
            script: "console.log('Node.js: "@ + line + "')"@,
        },
        OutputEventView::Stderr(line) => ForwardedView {
            log_line: "Node.js stderr: "@ + line,
            script: "console.error('Node.js error: "@ + line + "')"@,
        },
        OutputEventView::Terminated(payload) => ForwardedView {
            log_line: "Node.js process terminated: "@ + payload_text(payload),
            script: "console.error('Node.js terminated: "@ + payload_text(payload) + "')"@,
        },
    }
}

/// What becomes of a whole sequence of output events: one forwarded item
/// for each event, in the same order.
pub open spec fn forwarded_all(events: Seq<OutputEventView>) -> Seq<ForwardedView> {
    Seq::new(events.len(), |i: int| forwarded(events[i]))
}

/// The views of a list of output events.
pub open spec fn event_views(events: Seq<OutputEvent>) -> Seq<OutputEventView> {
    Seq::new(events.len(), |i: int| events[i]@)
}

/// The views of a list of forwarded items.
pub open spec fn forwarded_views(items: Seq<Forwarded>) -> Seq<ForwardedView> {
    Seq::new(items.len(), |i: int| items[i]@)
}

/// Renders an optional number.
pub fn optional_number_string(n: Option<i32>) -> (r: String)
    ensures
        r@ == optional_number_text(n),
{
    match n {
        Some(value) => {
            let digits = signed_decimal_string(value);
            String::from_str("Some(").concat(digits.as_str()).concat(")")
        },
        None => String::from_str("None"),
    }
}

impl TerminatedPayload {
    /// Renders the termination notice.
    pub fn text(&self) -> (r: String)
        ensures
            r@ == payload_text(*self),
    {
        let code = optional_number_string(self.code);
        let signal = optional_number_string(self.signal);
        String::from_str("TerminatedPayload { code: ").concat(code.as_str()).concat(
            ", signal: ",
        ).concat(signal.as_str()).concat(" }")
    }
}

/// Decides what to write for one output event.
pub fn forward(event: &OutputEvent) -> (r: Forwarded)
    ensures
        r@ == forwarded(event@),
{
    match event {
        OutputEvent::Stdout(line) => Forwarded {
            log_line: String::from_str("Node.js stdout: ").concat(line.as_str()),
            script: String::from_str("console.log('Node.js: ").concat(line.as_str()).concat("')"),
        },
        OutputEvent::Stderr(line) => Forwarded {
            log_line: String::from_str("Node.js stderr: ").concat(line.as_str()),
            script: String::from_str("console.error('Node.js error: ").concat(
                line.as_str(),
            ).concat("')"),
        },
        OutputEvent::Terminated(payload) => {
            let notice = payload.text();
            Forwarded {
                log_line: String::from_str("Node.js process terminated: ").concat(
                    notice.as_str(),
                ),
                script: String::from_str("console.error('Node.js terminated: ").concat(
                    notice.as_str(),
                ).concat("')"),
            }
        },
    }
}

/// Forwards every event of `events`, first to last: the result has one
/// item for each event, at the same position.
pub fn forward_all(events: &Vec<OutputEvent>) -> (r: Vec<Forwarded>)
    ensures
        forwarded_views(r@) == forwarded_all(event_views(events@)),
{
    let mut out: Vec<Forwarded> = Vec::new();
    let mut i: usize = 0;
    while i < events.len()
        invariant
            i <= events.len(),
            out.len() == i,
            forall|k: int| 0 <= k < i ==> (#[trigger] out[k])@ == forwarded(events[k]@),
        decreases events.len() - i,
    {
        out.push(forward(&events[i]));
        i += 1;
    }
    assert(forwarded_views(out@) =~= forwarded_all(event_views(events@)));
    out
}

/// Forwarding loses nothing and keeps the order: as many items come out
/// as events went in, and the item at each position is the one that
/// belongs to the event at that position.
pub proof fn lemma_forwarding_is_faithful(events: Seq<OutputEventView>)
    ensures
        forwarded_all(events).len() == events.len(),
        forall|i: int|
            0 <= i < events.len() ==> #[trigger] forwarded_all(events)[i] == forwarded(events[i]),
{
}

/// Forwarding an event does not depend on what was forwarded before it:
/// the items for a longer run of events begin with the items for its
/// beginning.
pub proof fn lemma_forwarding_is_incremental(events: Seq<OutputEventView>, n: int)
    requires
        0 <= n <= events.len(),
    ensures
        forwarded_all(events.take(n)) == forwarded_all(events).take(n),
{
    assert(forwarded_all(events.take(n)) =~= forwarded_all(events).take(n));
}

/// The termination notice cannot be mistaken for an output line: its log
/// line differs from that of every line of standard output or standard
/// error.
pub proof fn lemma_termination_is_distinct(payload: TerminatedPayload, line: Seq<char>)
    ensures
        forwarded(OutputEventView::Terminated(payload)).log_line != forwarded(
            OutputEventView::Stdout(line),
        ).log_line,
        forwarded(OutputEventView::Terminated(payload)).log_line != forwarded(
            OutputEventView::Stderr(line),
        ).log_line,
{
    reveal_strlit("Node.js process terminated: ");
    reveal_strlit("Node.js stdout: ");
    reveal_strlit("Node.js stderr: ");
    let notice = forwarded(OutputEventView::Terminated(payload)).log_line;
    assert(notice[8] == 'p');
    assert(forwarded(OutputEventView::Stdout(line)).log_line[8] == 's');
    assert(forwarded(OutputEventView::Stderr(line)).log_line[8] == 's');
}

} // verus!
