use network_ping::{
    complete, extract_latency, interpret, interpret_latency, interpret_verbatim, ClonableIoError,
    Gui, Message, Mode, ParseError, PingOutcome, PingRequest, RawCapture, Status,
};

const TRANSCRIPT: &str = "PING 8.8.8.8 (8.8.8.8) 56(84) bytes of data.\n\
64 bytes from 8.8.8.8: icmp_seq=1 ttl=64 time=23.4 ms\n\
\n\
--- 8.8.8.8 ping statistics ---\n\
1 packets transmitted, 1 received, 0% packet loss, time 0ms\n";

fn capture(text: &str, succeeded: bool) -> RawCapture {
    RawCapture::new(text.to_string(), succeeded)
}

fn success(text: &str) -> PingOutcome {
    PingOutcome::Success(text.to_string())
}

fn failure(text: &str) -> PingOutcome {
    PingOutcome::Failure(text.to_string())
}

#[test]
fn verbatim_keeps_successful_output() {
    assert_eq!(interpret_verbatim(capture(TRANSCRIPT, true)), success(TRANSCRIPT));
    assert_eq!(interpret_verbatim(capture("", true)), success(""));
}

#[test]
fn verbatim_reports_failed_output() {
    let text = "ping: unknown host: nowhere\n";
    assert_eq!(interpret_verbatim(capture(text, false)), failure(text));
    assert_eq!(interpret_verbatim(capture("", false)), failure(""));
}

#[test]
fn latency_from_timing_line() {
    let line = "64 bytes from 8.8.8.8: icmp_seq=1 ttl=64 time=23.4 ms";
    assert_eq!(interpret_latency(capture(line, true)), success("23.4"));
    assert_eq!(interpret_latency(capture(TRANSCRIPT, true)), success("23.4"));
    assert_eq!(extract_latency(TRANSCRIPT), Ok("23.4".to_string()));
}

#[test]
fn latency_ignores_exit_status() {
    assert_eq!(interpret_latency(capture(TRANSCRIPT, false)), success("23.4"));
}

#[test]
fn latency_without_timing_line_is_parse_error() {
    let text = "PING 10.0.0.9 (10.0.0.9) 56(84) bytes of data.\n\
--- 10.0.0.9 ping statistics ---\n\
1 packets transmitted, 0 received, 100% packet loss, time 0ms\n";
    assert_eq!(extract_latency(text), Err(ParseError));
    assert_eq!(interpret_latency(capture(text, false)), failure("no timing line found"));
    assert_eq!(extract_latency(""), Err(ParseError));
    assert_eq!(ParseError.description(), "no timing line found");
}

#[test]
fn latency_takes_first_timing_line() {
    let text = "a time=1.5 ms\nb time=2.5 ms\n";
    assert_eq!(extract_latency(text), Ok("1.5".to_string()));
}

#[test]
fn latency_skips_blanks_after_marker() {
    assert_eq!(extract_latency("x time= \t7 ms"), Ok("7".to_string()));
    assert_eq!(extract_latency("time=12\r\n"), Ok("12".to_string()));
}

#[test]
fn latency_needs_a_word_on_the_same_line() {
    assert_eq!(extract_latency("reply time="), Err(ParseError));
    assert_eq!(extract_latency("reply time=  \n5 ms"), Err(ParseError));
    assert_eq!(extract_latency("tim=3 ms"), Err(ParseError));
}

#[test]
fn last_arrived_outcome_wins() {
    let (mut gui, command) = Gui::new(Mode::Interactive);
    assert_eq!(command, None);
    assert!(gui.update(Message::PingButtonPressed).is_some());
    assert_eq!(gui.update(Message::PingLoaded(success("23.4"))), None);
    assert!(gui.update(Message::PingButtonPressed).is_some());
    assert_eq!(gui.status, Status::Loading);
    assert_eq!(gui.update(Message::PingLoaded(success("19.1"))), None);
    assert_eq!(gui.status, Status::Ready(success("19.1")));
}

#[test]
fn stale_outcome_still_overwrites() {
    let (mut gui, _) = Gui::new(Mode::Interactive);
    gui.update(Message::PingButtonPressed);
    gui.update(Message::PingButtonPressed);
    gui.update(Message::PingLoaded(success("5.0")));
    gui.update(Message::PingLoaded(failure("late")));
    assert_eq!(gui.status, Status::Ready(failure("late")));
}

#[test]
fn submit_uses_changed_input() {
    let (mut gui, _) = Gui::new(Mode::Interactive);
    assert_eq!(gui.update(Message::PingIpChanged("10.0.0.1".to_string())), None);
    assert_eq!(gui.status, Status::Idle);
    let request = gui.update(Message::PingButtonPressed).unwrap();
    assert_eq!(request.target, "10.0.0.1");
    assert_eq!(request.mode, Mode::Interactive);
    assert_eq!(request.arguments(), vec!["-i", "0.1", "-w", "30", "10.0.0.1"]);
}

#[test]
fn empty_input_is_submitted_as_is() {
    let (mut gui, _) = Gui::new(Mode::Interactive);
    let request = gui.update(Message::PingButtonPressed).unwrap();
    assert_eq!(request.target, "");
}

#[test]
fn spawn_failure_becomes_failure_outcome() {
    let error = ClonableIoError::new("No such file or directory (os error 2)".to_string());
    let outcome = complete(Mode::Interactive, Err(error.clone()));
    assert_eq!(outcome, failure("No such file or directory (os error 2)"));
    assert_eq!(complete(Mode::Fixed, Err(error)), failure("No such file or directory (os error 2)"));
    let (mut gui, _) = Gui::new(Mode::Interactive);
    gui.update(Message::PingButtonPressed);
    gui.update(Message::PingLoaded(outcome));
    assert_eq!(gui.status, Status::Ready(failure("No such file or directory (os error 2)")));
    assert_eq!(gui.result_line(), "Error: No such file or directory (os error 2)");
}

#[test]
fn complete_applies_mode_strategy() {
    assert_eq!(complete(Mode::Interactive, Ok(capture(TRANSCRIPT, true))), success(TRANSCRIPT));
    assert_eq!(complete(Mode::Fixed, Ok(capture(TRANSCRIPT, true))), success("23.4"));
    assert_eq!(interpret(Mode::Interactive, capture("down", false)), failure("down"));
    assert_eq!(interpret(Mode::Fixed, capture("down", false)), failure("no timing line found"));
}

#[test]
fn fixed_mode_pings_at_startup() {
    let (mut gui, command) = Gui::new(Mode::Fixed);
    assert_eq!(gui.status, Status::Loading);
    let request = command.unwrap();
    assert_eq!(request, PingRequest::fixed());
    assert_eq!(request.target, "8.8.8.8");
    assert_eq!(request.arguments(), vec!["-c", "1", "8.8.8.8"]);
    gui.update(Message::PingIpChanged("1.1.1.1".to_string()));
    let again = gui.update(Message::PingButtonPressed).unwrap();
    assert_eq!(again.target, "8.8.8.8");
}

#[test]
fn result_line_texts() {
    let (mut gui, _) = Gui::new(Mode::Interactive);
    assert_eq!(gui.title(), "Network Ping");
    assert_eq!(gui.result_line(), "Loading...");
    gui.update(Message::PingButtonPressed);
    assert_eq!(gui.result_line(), "Loading...");
    gui.update(Message::PingLoaded(success("23.4")));
    assert_eq!(gui.result_line(), "Ping: 23.4");
}

#[test]
fn outcome_accessors() {
    assert!(success("1").is_success());
    assert!(!failure("1").is_success());
    assert_eq!(failure("boom").text(), "boom");
    let request = PingRequest::new("host".to_string(), Mode::Interactive);
    assert_eq!(request.arguments().len(), 5);
}

#[test]
fn latency_ends_at_unicode_whitespace() {
    assert_eq!(extract_latency("time=1\u{A0}ms"), Ok("1".to_string()));
    assert_eq!(extract_latency("time=2\u{3000}ms"), Ok("2".to_string()));
    assert_eq!(extract_latency("time=\u{2003}3\u{85}ms"), Ok("3".to_string()));
    assert_eq!(
        complete(Mode::Fixed, Ok(capture("time=1\u{A0}ms", true))),
        success("1")
    );
}

#[test]
fn latency_ends_at_next_marker() {
    assert_eq!(extract_latency("time=5time=6 ms"), Ok("5".to_string()));
    assert_eq!(extract_latency("time= time=5"), Err(ParseError));
}
