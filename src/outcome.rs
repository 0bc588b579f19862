use vstd::prelude::*;

verus! {

/// What one run of the ping utility left behind: its standard output as
/// text, and whether the process exited successfully.
#[derive(Debug, Clone, PartialEq, Eq)]
pub struct RawCapture {
    pub stdout_text: String,
    pub succeeded: bool,
}

impl RawCapture {
    pub fn new(stdout_text: String, succeeded: bool) -> (r: RawCapture)
        ensures
            r.stdout_text@ == stdout_text@,
            r.succeeded == succeeded,
    {
        RawCapture { stdout_text, succeeded }
    }
}

/// The failure to start the ping utility at all, kept as its message so
/// that it can be cloned and handed around freely.
#[derive(Debug, Clone, PartialEq, Eq)]
pub struct ClonableIoError {
    pub description: String,
}

impl ClonableIoError {
    pub fn new(description: String) -> (r: ClonableIoError)
        ensures
            r.description@ == description@,
    {
        ClonableIoError { description }
    }
}

/// The expected timing line was absent from the output.
#[derive(Debug, Clone, Copy, PartialEq, Eq)]
pub struct ParseError;

impl ParseError {
    pub fn description(&self) -> (r: String)
        ensures
            r@ == "no timing line found"@,
    {
        String::from_str("no timing line found")
    }
}

/// The result of one ping cycle, as shown to the user.
#[derive(Debug, Clone, PartialEq, Eq)]
pub enum PingOutcome {
    Success(String),
    Failure(String),
}

/// The mathematical value of a [`PingOutcome`].
pub enum OutcomeView {
    Success(Seq<char>),
    Failure(Seq<char>),
}

impl View for PingOutcome {
    type V = OutcomeView;

    open spec fn view(&self) -> OutcomeView {
        match self {
            PingOutcome::Success(t) => OutcomeView::Success(t@),
            PingOutcome::Failure(d) => OutcomeView::Failure(d@),
        }
    }
}

impl PingOutcome {
    pub fn is_success(&self) -> (r: bool)
        ensures
            r == (self@ is Success),
    {
        match self {
            PingOutcome::Success(_) => true,
            PingOutcome::Failure(_) => false,
        }
    }

    /// The text the outcome carries: the interpreted output or the error message.
    pub fn text(&self) -> (r: &String)
        ensures
            self@ == OutcomeView::Success(r@) || self@ == OutcomeView::Failure(r@),
    {
        match self {
            PingOutcome::Success(t) => t,
            PingOutcome::Failure(d) => d,
        }
    }
}

} // verus!
