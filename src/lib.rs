//! A small ping front end: the interpretation of what the system `ping`
//! utility printed, and the state machine that drives its user interface.
mod outcome;
mod interpret;
mod request;
mod gui;

pub use outcome::{ClonableIoError, OutcomeView, ParseError, PingOutcome, RawCapture};
pub use interpret::{
    extract_latency, interpret_latency, interpret_verbatim, is_blank, is_space, latency_of,
    latency_outcome, lemma_latency_is_word, lemma_no_marker_no_latency, marker_at, marker_from, no_timing_line, skip_blank, token_end,
};

pub use request::{
    argument_list, complete, completion, fixed_target, interpret, interpretation, Mode,
    PingRequest, RequestView,
};
pub use gui::{
    command_view, initial, lemma_last_arrival_wins, lemma_spawn_failure_reported, lemma_submit_uses_new_input, run, status_line,
    step, submit_target, Gui, GuiView, Message, MessageView, Status, StatusView,
};
