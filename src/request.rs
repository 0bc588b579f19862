use vstd::prelude::*;
use vstd::string::*;
use crate::interpret::{interpret_latency, interpret_verbatim, latency_outcome};
use crate::outcome::{ClonableIoError, OutcomeView, PingOutcome, RawCapture};

verus! {

/// How the application pings: at a target the user types, reporting the
/// whole transcript, or once at a fixed public address, reporting the latency.
#[derive(Debug, Clone, Copy, PartialEq, Eq, Structural)]
pub enum Mode {
    Interactive,
    Fixed,
}

/// The address pinged in the fixed mode.
pub open spec fn fixed_target() -> Seq<char> {
    "8.8.8.8"@
}

/// One invocation of the ping utility, to be run once and then dropped.
#[derive(Debug, Clone, PartialEq, Eq)]
pub struct PingRequest {
    pub target: String,
    pub mode: Mode,
}

/// The mathematical value of a [`PingRequest`].
pub struct RequestView {
    pub target: Seq<char>,
    pub mode: Mode,
}

impl View for PingRequest {
    type V = RequestView;

    open spec fn view(&self) -> RequestView {
        RequestView { target: self.target@, mode: self.mode }
    }
}

/// The arguments handed to the ping utility: every 100 ms for at most 30 s
/// in the interactive mode, one packet in the fixed mode; the target last.
pub open spec fn argument_list(mode: Mode, target: Seq<char>) -> Seq<Seq<char>> {
    match mode {
        Mode::Interactive => seq!["-i"@, "0.1"@, "-w"@, "30"@, target],
        Mode::Fixed => seq!["-c"@, "1"@, target],
    }
}

/// What a mode's strategy makes of a capture: "verbatim" in the interactive
/// mode, "latency-extract" in the fixed one.
pub open spec fn interpretation(mode: Mode, text: Seq<char>, succeeded: bool) -> OutcomeView {
    match mode {
        Mode::Interactive => if succeeded {
            OutcomeView::Success(text)
        } else {
            OutcomeView::Failure(text)
        },
        Mode::Fixed => latency_outcome(text),
    }
}

/// The outcome of an invocation that either captured the output or could
/// not start the process at all.
pub open spec fn completion(mode: Mode, result: Result<RawCapture, ClonableIoError>) -> OutcomeView {
    match result {
        Ok(c) => interpretation(mode, c.stdout_text@, c.succeeded),
        Err(e) => OutcomeView::Failure(e.description@),
    }
}

impl PingRequest {
    pub fn new(target: String, mode: Mode) -> (r: PingRequest)
        ensures
            r@ == (RequestView { target: target@, mode }),
    {
        PingRequest { target, mode }
    }

    /// The request of the fixed mode.
    pub fn fixed() -> (r: PingRequest)
        ensures
            r@ == (RequestView { target: fixed_target(), mode: Mode::Fixed }),
    {
        PingRequest { target: String::from_str("8.8.8.8"), mode: Mode::Fixed }
    }

    /// The command-line arguments of the ping utility for this request.
    pub fn arguments(&self) -> (r: Vec<String>)
        ensures
            r.len() == argument_list(self.mode, self.target@).len(),
            forall|i: int| 0 <= i < r.len() ==> r[i]@ == argument_list(self.mode, self.target@)[i],
    {
        let mut r: Vec<String> = Vec::new();
        match self.mode {
            Mode::Interactive => {
                r.push(String::from_str("-i"));
                r.push(String::from_str("0.1"));
                r.push(String::from_str("-w"));
                r.push(String::from_str("30"));
            },
            Mode::Fixed => {
                r.push(String::from_str("-c"));
                r.push(String::from_str("1"));
            },
        }
        r.push(self.target.clone());
        r
    }
}

/// Applies the mode's strategy to a capture.
pub fn interpret(mode: Mode, capture: RawCapture) -> (r: PingOutcome)
    ensures
        r@ == interpretation(mode, capture.stdout_text@, capture.succeeded),
{
    match mode {
        Mode::Interactive => interpret_verbatim(capture),
        Mode::Fixed => interpret_latency(capture),
    }
}

/// Turns the result of an invocation into the outcome shown to the user; a
/// process that could not be started is a failure with the system's message.
pub fn complete(mode: Mode, result: Result<RawCapture, ClonableIoError>) -> (r: PingOutcome)
    ensures
        r@ == completion(mode, result),
{
    match result {
        Ok(capture) => interpret(mode, capture),
        Err(e) => PingOutcome::Failure(e.description),
    }
}

} // verus!
