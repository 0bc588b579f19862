use vstd::prelude::*;
use vstd::string::*;
use crate::outcome::{OutcomeView, PingOutcome};
use crate::outcome::ClonableIoError;
use crate::request::{completion, fixed_target, Mode, PingRequest, RequestView};

verus! {

/// Where the application stands: nothing asked yet, a request in flight, or
/// the latest outcome at hand.
#[derive(Debug, Clone, PartialEq, Eq)]
pub enum Status {
    Idle,
    Loading,
    Ready(PingOutcome),
}

/// The mathematical value of a [`Status`].
pub enum StatusView {
    Idle,
    Loading,
    Ready(OutcomeView),
}

impl View for Status {
    type V = StatusView;

    open spec fn view(&self) -> StatusView {
        match self {
            Status::Idle => StatusView::Idle,
            Status::Loading => StatusView::Loading,
            Status::Ready(o) => StatusView::Ready(o@),
        }
    }
}

/// The events that the user interface and finished invocations deliver.
#[derive(Debug, Clone, PartialEq, Eq)]
pub enum Message {
    PingIpChanged(String),
    PingButtonPressed,
    PingLoaded(PingOutcome),
}

/// The mathematical value of a [`Message`].
pub enum MessageView {
    PingIpChanged(Seq<char>),
    PingButtonPressed,
    PingLoaded(OutcomeView),
}

impl View for Message {
    type V = MessageView;

    open spec fn view(&self) -> MessageView {
        match self {
            Message::PingIpChanged(t) => MessageView::PingIpChanged(t@),
            Message::PingButtonPressed => MessageView::PingButtonPressed,
            Message::PingLoaded(o) => MessageView::PingLoaded(o@),
        }
    }
}

/// The application state that the window is drawn from.
#[derive(Debug, Clone, PartialEq, Eq)]
pub struct Gui {
    pub ping_ip: String,
    pub mode: Mode,
    pub status: Status,
}

/// The mathematical value of a [`Gui`].
pub struct GuiView {
    pub ping_ip: Seq<char>,
    pub mode: Mode,
    pub status: StatusView,
}

impl View for Gui {
    type V = GuiView;

    open spec fn view(&self) -> GuiView {
        GuiView { ping_ip: self.ping_ip@, mode: self.mode, status: self.status@ }
    }
}

/// The mathematical value of what an update asks to run.
pub open spec fn command_view(c: Option<PingRequest>) -> Option<RequestView> {
    match c {
        Some(r) => Some(r@),
        None => None,
    }
}

/// The state at startup, and the request it fires at once: the interactive
/// mode waits for input, the fixed mode pings straight away.
pub open spec fn initial(mode: Mode) -> (GuiView, Option<RequestView>) {
    match mode {
        Mode::Interactive => (
            GuiView { ping_ip: Seq::empty(), mode, status: StatusView::Idle },
            None,
        ),
        Mode::Fixed => (
            GuiView { ping_ip: Seq::empty(), mode, status: StatusView::Loading },
            Some(RequestView { target: fixed_target(), mode }),
        ),
    }
}

/// The address that a submission pings.
pub open spec fn submit_target(g: GuiView) -> Seq<char> {
    match g.mode {
        Mode::Interactive => g.ping_ip,
        Mode::Fixed => fixed_target(),
    }
}

/// One transition: the next state, and the request to run, if any. Nothing
/// in flight is cancelled, and each outcome replaces the one before it.
pub open spec fn step(g: GuiView, m: MessageView) -> (GuiView, Option<RequestView>) {
    match m {
        MessageView::PingIpChanged(t) => (GuiView { ping_ip: t, ..g }, None),
        MessageView::PingButtonPressed => (
            GuiView { status: StatusView::Loading, ..g },
            Some(RequestView { target: submit_target(g), mode: g.mode }),
        ),
        MessageView::PingLoaded(o) => (GuiView { status: StatusView::Ready(o), ..g }, None),
    }
}

/// The state after a sequence of messages, in the order they arrived.
pub open spec fn run(g: GuiView, ms: Seq<MessageView>) -> GuiView
    decreases ms.len(),
{
    if ms.len() == 0 {
        g
    } else {
        step(run(g, ms.drop_last()), ms.last()).0
    }
}

/// The result line of the window.
pub open spec fn status_line(s: StatusView) -> Seq<char> {
    match s {
        StatusView::Idle | StatusView::Loading => "Loading..."@,
        StatusView::Ready(OutcomeView::Success(t)) => "Ping: "@ + t,
        StatusView::Ready(OutcomeView::Failure(d)) => "Error: "@ + d,
    }
}

impl Gui {
    pub fn new(mode: Mode) -> (r: (Gui, Option<PingRequest>))
        ensures
            (r.0@, command_view(r.1)) == initial(mode),
    {
        match mode {
            Mode::Interactive => (Gui { ping_ip: String::new(), mode, status: Status::Idle }, None),
            Mode::Fixed => (
                Gui { ping_ip: String::new(), mode, status: Status::Loading },
                Some(PingRequest::fixed()),
            ),
        }
    }

    pub fn title(&self) -> (r: String)
        ensures
            r@ == "Network Ping"@,
    {
        String::from_str("Network Ping")
    }

    /// The text of the result line.
    pub fn result_line(&self) -> (r: String)
        ensures
            r@ == status_line(self.status@),
    {
        match &self.status {
            Status::Idle | Status::Loading => String::from_str("Loading..."),
            Status::Ready(PingOutcome::Success(t)) => String::from_str("Ping: ").concat(t.as_str()),
            Status::Ready(PingOutcome::Failure(d)) => String::from_str("Error: ").concat(d.as_str()),
        }
    }

    /// Handles one message, and returns the request to run, if any.
    pub fn update(&mut self, message: Message) -> (r: Option<PingRequest>)
        ensures
            (final(self)@, command_view(r)) == step(old(self)@, message@),
    {
        match message {
            Message::PingIpChanged(ping_ip) => {
                self.ping_ip = ping_ip;
                None
            },
            Message::PingButtonPressed => {
                self.status = Status::Loading;
                let target = match self.mode {
                    Mode::Interactive => self.ping_ip.clone(),
                    Mode::Fixed => String::from_str("8.8.8.8"),
                };
                Some(PingRequest::new(target, self.mode))
            },
            Message::PingLoaded(outcome) => {
                self.status = Status::Ready(outcome);
                None
            },
        }
    }
}

/// Whatever came before, the state after a sequence that ends in an arrived
/// outcome shows that outcome: the last to arrive wins.
pub proof fn lemma_last_arrival_wins(g: GuiView, ms: Seq<MessageView>, o: OutcomeView)
    requires
        ms.len() > 0,
        ms.last() == MessageView::PingLoaded(o),
    ensures
        run(g, ms).status == StatusView::Ready(o),
{
}

/// In the interactive mode, a submission right after the input changed pings
/// exactly the new input.
pub proof fn lemma_submit_uses_new_input(g: GuiView, t: Seq<char>)
    requires
        g.mode == Mode::Interactive,
    ensures
        step(step(g, MessageView::PingIpChanged(t)).0, MessageView::PingButtonPressed).1
            == Some(RequestView { target: t, mode: Mode::Interactive }),
{
}

/// A ping utility that could not be started ends, in either mode, in a
/// failure that carries the system's message, and the state shows it.
pub proof fn lemma_spawn_failure_reported(g: GuiView, e: ClonableIoError)
    ensures
        step(g, MessageView::PingLoaded(completion(g.mode, Err(e)))).0.status
            == StatusView::Ready(OutcomeView::Failure(e.description@)),
{
}

} // verus!
