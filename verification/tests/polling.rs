use udco2s::command::COMMAND;
use udco2s::grammar::LineGrammar;
use udco2s::poll::{
    Action, Event, Fault, Phase, PollLoop, ShutdownPoll, Step, BAUD_RATE, READ_TIMEOUT_MILLIS,
    RECEIVE_BUFFER_LEN,
};
use udco2s::reading::{OutputFormat, UDCO2S};

fn session(format: OutputFormat, once: bool) -> PollLoop {
    match LineGrammar::new() {
        Ok(grammar) => PollLoop::new(grammar, format, once),
        Err(error) => panic!("the line pattern does not compile: {}", error.message),
    }
}

fn quiet(action: Action) -> Option<Step> {
    Some(Step { output: None, action })
}

fn printing(line: &str, action: Action) -> Option<Step> {
    Some(Step { output: Some(line.to_string()), action })
}

fn received(text: &str) -> Event {
    Event::Received(text.as_bytes().to_vec())
}

/// A session that has sent the start command and is about to read.
fn reading(format: OutputFormat, once: bool) -> PollLoop {
    let mut poll = session(format, once);
    assert_eq!(poll.step(&Event::Opened), quiet(Action::Send(COMMAND::STA)));
    assert_eq!(poll.step(&Event::Sent), quiet(Action::Poll));
    assert_eq!(poll.step(&Event::Polled(ShutdownPoll::Empty)), quiet(Action::Read));
    poll
}

#[test]
fn line_settings_are_fixed() {
    assert_eq!(BAUD_RATE, 115200);
    assert_eq!(READ_TIMEOUT_MILLIS, 10 * 1000);
    assert_eq!(RECEIVE_BUFFER_LEN, 1000);
}

#[test]
fn session_begins_by_opening_the_device() {
    let poll = session(OutputFormat::KV, false);
    assert_eq!(poll.pending(), Action::Open);
    assert_eq!(poll.phase(), Phase::Opening);
    assert!(!poll.detected());
}

#[test]
fn start_command_follows_the_opening() {
    let mut poll = session(OutputFormat::KV, false);
    assert_eq!(poll.step(&Event::Opened), quiet(Action::Send(COMMAND::STA)));
    assert_eq!(poll.phase(), Phase::Starting);
}

#[test]
fn failed_opening_ends_the_session_without_a_command() {
    let mut poll = session(OutputFormat::KV, false);
    assert_eq!(poll.step(&Event::OpenFailed), quiet(Action::Exit(Err(Fault::Open))));
    assert_eq!(poll.phase(), Phase::Terminated);
    assert_eq!(poll.pending(), Action::Exit(Err(Fault::Open)));
}

#[test]
fn shutdown_is_looked_for_before_each_read() {
    let mut poll = session(OutputFormat::KV, false);
    poll.step(&Event::Opened);
    assert_eq!(poll.step(&Event::Sent), quiet(Action::Poll));
    assert_eq!(poll.step(&Event::Polled(ShutdownPoll::Empty)), quiet(Action::Read));
    assert_eq!(poll.step(&received("NOISE\r\n")), quiet(Action::Poll));
    assert_eq!(poll.step(&Event::Polled(ShutdownPoll::Empty)), quiet(Action::Read));
}

#[test]
fn matching_line_is_printed_as_kv() {
    let mut poll = reading(OutputFormat::KV, false);
    assert_eq!(
        poll.step(&received("CO2=637,HUM=56.5,TMP=29.7\r\n")),
        printing("CO2=637,HUM=56.5,TMP=29.7", Action::Poll)
    );
    assert!(poll.detected());
}

#[test]
fn matching_line_is_printed_as_json() {
    let mut poll = reading(OutputFormat::JSON, false);
    assert_eq!(
        poll.step(&received("CO2=637,HUM=56.5,TMP=29.7\r\n")),
        printing("{\"CO2\":637,\"HUM\":56.5,\"TMP\":29.7}", Action::Poll)
    );
}

#[test]
fn noise_prints_nothing_and_detects_nothing() {
    let mut poll = reading(OutputFormat::KV, false);
    assert_eq!(poll.step(&received("NOISE\r\n")), quiet(Action::Poll));
    assert!(!poll.detected());
    assert_eq!(poll.phase(), Phase::Polling);
}

#[test]
fn noise_leaves_an_earlier_detection_alone() {
    let mut poll = reading(OutputFormat::KV, false);
    poll.step(&received("CO2=1,HUM=2.0,TMP=3.0\r\n"));
    assert!(poll.detected());
    poll.step(&Event::Polled(ShutdownPoll::Empty));
    assert_eq!(poll.step(&received("NOISE\r\n")), quiet(Action::Poll));
    assert!(poll.detected());
}

#[test]
fn noise_does_not_end_a_once_session() {
    let mut poll = reading(OutputFormat::KV, true);
    assert_eq!(poll.step(&received("NOISE\r\n")), quiet(Action::Poll));
    assert_eq!(poll.step(&Event::Polled(ShutdownPoll::Empty)), quiet(Action::Read));
    assert_eq!(
        poll.step(&received("CO2=5,HUM=6.0,TMP=7.0\r\n")),
        printing("CO2=5,HUM=6.0,TMP=7.0", Action::Send(COMMAND::STP))
    );
}

#[test]
fn timeout_is_a_read_of_nothing() {
    let mut poll = reading(OutputFormat::KV, false);
    assert_eq!(poll.step(&Event::TimedOut), quiet(Action::Poll));
    assert!(!poll.detected());
    assert_eq!(poll.step(&Event::Polled(ShutdownPoll::Empty)), quiet(Action::Read));
    assert_eq!(poll.step(&Event::Received(Vec::new())), quiet(Action::Poll));
    assert!(!poll.detected());
}

#[test]
fn line_split_over_two_reads_is_lost() {
    let mut poll = reading(OutputFormat::KV, false);
    assert_eq!(poll.step(&received("CO2=637,HUM=5")), quiet(Action::Poll));
    poll.step(&Event::Polled(ShutdownPoll::Empty));
    assert_eq!(poll.step(&received("6.5,TMP=29.7\r\n")), quiet(Action::Poll));
    assert!(!poll.detected());
}

#[test]
fn every_matching_read_prints_in_a_continuous_session() {
    let mut poll = reading(OutputFormat::KV, false);
    assert_eq!(
        poll.step(&received("CO2=1,HUM=1.1,TMP=1.2\r\n")),
        printing("CO2=1,HUM=1.1,TMP=1.2", Action::Poll)
    );
    poll.step(&Event::Polled(ShutdownPoll::Empty));
    assert_eq!(
        poll.step(&received("CO2=2,HUM=2.1,TMP=2.2\r\n")),
        printing("CO2=2,HUM=2.1,TMP=2.2", Action::Poll)
    );
}

#[test]
fn once_session_stops_at_the_first_reading() {
    let mut poll = reading(OutputFormat::KV, true);
    assert_eq!(
        poll.step(&received("CO2=637,HUM=56.5,TMP=29.7\r\n")),
        printing("CO2=637,HUM=56.5,TMP=29.7", Action::Send(COMMAND::STP))
    );
    assert_eq!(poll.phase(), Phase::Stopping);
    assert_eq!(poll.step(&Event::Sent), quiet(Action::Exit(Ok(()))));
    assert_eq!(poll.phase(), Phase::Terminated);
}

#[test]
fn once_session_prints_only_the_first_of_two_lines() {
    let mut poll = reading(OutputFormat::KV, true);
    assert_eq!(
        poll.step(&received("CO2=1,HUM=1.1,TMP=1.2\r\nCO2=2,HUM=2.1,TMP=2.2\r\n")),
        printing("CO2=1,HUM=1.1,TMP=1.2", Action::Send(COMMAND::STP))
    );
    assert_eq!(poll.step(&received("CO2=2,HUM=2.1,TMP=2.2\r\n")), None);
    assert_eq!(poll.step(&Event::Polled(ShutdownPoll::Empty)), None);
    assert_eq!(poll.pending(), Action::Send(COMMAND::STP));
}

#[test]
fn notification_ends_the_session_with_success() {
    let mut poll = session(OutputFormat::KV, false);
    poll.step(&Event::Opened);
    poll.step(&Event::Sent);
    assert_eq!(
        poll.step(&Event::Polled(ShutdownPoll::Notified)),
        quiet(Action::Send(COMMAND::STP))
    );
    assert_eq!(poll.step(&Event::Sent), quiet(Action::Exit(Ok(()))));
}

#[test]
fn closed_channel_ends_the_session_with_success() {
    let mut poll = reading(OutputFormat::KV, false);
    poll.step(&received("NOISE\r\n"));
    assert_eq!(
        poll.step(&Event::Polled(ShutdownPoll::Closed)),
        quiet(Action::Send(COMMAND::STP))
    );
    assert_eq!(poll.step(&Event::Sent), quiet(Action::Exit(Ok(()))));
}

#[test]
fn failed_start_is_followed_by_the_stop_command() {
    let mut poll = session(OutputFormat::KV, false);
    poll.step(&Event::Opened);
    assert_eq!(poll.step(&Event::Failed), quiet(Action::Send(COMMAND::STP)));
    assert_eq!(poll.step(&Event::Sent), quiet(Action::Exit(Err(Fault::Io))));
}

#[test]
fn failed_read_is_followed_by_the_stop_command() {
    let mut poll = reading(OutputFormat::KV, false);
    assert_eq!(poll.step(&Event::Failed), quiet(Action::Send(COMMAND::STP)));
    assert_eq!(poll.step(&Event::Sent), quiet(Action::Exit(Err(Fault::Io))));
}

#[test]
fn undecodable_bytes_end_the_session() {
    let mut poll = reading(OutputFormat::KV, false);
    assert_eq!(
        poll.step(&Event::Received(vec![0x43, 0x4f, 0xff])),
        quiet(Action::Send(COMMAND::STP))
    );
    assert!(!poll.detected());
    assert_eq!(poll.step(&Event::Sent), quiet(Action::Exit(Err(Fault::Decode))));
}

#[test]
fn character_cut_by_the_end_of_a_read_ends_the_session() {
    let mut poll = reading(OutputFormat::KV, false);
    let mut bytes = b"CO2=637,HUM=56.5,TMP=29.7".to_vec();
    bytes.push(0xc2);
    assert_eq!(poll.step(&Event::Received(bytes)), quiet(Action::Send(COMMAND::STP)));
    assert_eq!(poll.step(&Event::Failed), quiet(Action::Exit(Err(Fault::Decode))));
}

#[test]
fn failed_stop_fails_a_session_that_was_fine() {
    let mut poll = session(OutputFormat::KV, false);
    poll.step(&Event::Opened);
    poll.step(&Event::Sent);
    poll.step(&Event::Polled(ShutdownPoll::Notified));
    assert_eq!(poll.step(&Event::Failed), quiet(Action::Exit(Err(Fault::Io))));
}

#[test]
fn failed_stop_does_not_hide_the_first_failure() {
    let mut poll = reading(OutputFormat::KV, false);
    poll.step(&Event::Received(vec![0xff]));
    assert_eq!(poll.step(&Event::Failed), quiet(Action::Exit(Err(Fault::Decode))));
}

#[test]
fn events_out_of_turn_are_ignored() {
    let mut poll = session(OutputFormat::KV, false);
    assert_eq!(poll.step(&Event::Sent), None);
    assert_eq!(poll.step(&received("CO2=1,HUM=2.0,TMP=3.0")), None);
    assert_eq!(poll.step(&Event::Polled(ShutdownPoll::Closed)), None);
    assert_eq!(poll.phase(), Phase::Opening);
    poll.step(&Event::Opened);
    assert_eq!(poll.step(&Event::Opened), None);
    assert_eq!(poll.step(&Event::TimedOut), None);
    assert_eq!(poll.pending(), Action::Send(COMMAND::STA));
    poll.step(&Event::Sent);
    assert_eq!(poll.step(&Event::Sent), None);
    assert_eq!(poll.step(&Event::Failed), None);
    assert_eq!(poll.pending(), Action::Poll);
    poll.step(&Event::Polled(ShutdownPoll::Empty));
    assert_eq!(poll.step(&Event::Polled(ShutdownPoll::Notified)), None);
    assert_eq!(poll.step(&Event::OpenFailed), None);
    assert_eq!(poll.pending(), Action::Read);
    assert!(!poll.detected());
}

#[test]
fn nothing_happens_after_the_end() {
    let mut poll = session(OutputFormat::KV, false);
    poll.step(&Event::OpenFailed);
    for event in [
        Event::Opened,
        Event::OpenFailed,
        Event::Sent,
        Event::Failed,
        Event::TimedOut,
        Event::Polled(ShutdownPoll::Empty),
        received("CO2=1,HUM=2.0,TMP=3.0"),
    ] {
        assert_eq!(poll.step(&event), None);
    }
    assert_eq!(poll.pending(), Action::Exit(Err(Fault::Open)));
}

#[test]
fn settle_prints_the_reading_it_is_given() {
    let mut poll = reading(OutputFormat::JSON, false);
    let step = poll.settle(Some(UDCO2S::new("7", "8.9", "10.11")));
    assert_eq!(step, printing("{\"CO2\":7,\"HUM\":8.9,\"TMP\":10.11}", Action::Poll));
    assert!(poll.detected());
}

#[test]
fn settle_without_a_reading_goes_back_to_polling() {
    let mut poll = reading(OutputFormat::KV, true);
    assert_eq!(poll.settle(None), quiet(Action::Poll));
    assert!(!poll.detected());
}

#[test]
fn settle_in_a_once_session_asks_for_the_stop_command() {
    let mut poll = reading(OutputFormat::KV, true);
    let step = poll.settle(Some(UDCO2S::new("7", "8.9", "10.11")));
    assert_eq!(step, printing("CO2=7,HUM=8.9,TMP=10.11", Action::Send(COMMAND::STP)));
}

#[test]
fn settle_outside_a_read_changes_nothing() {
    let mut poll = session(OutputFormat::KV, true);
    assert_eq!(poll.settle(Some(UDCO2S::new("7", "8.9", "10.11"))), None);
    assert_eq!(poll.phase(), Phase::Opening);
    assert!(!poll.detected());
    poll.step(&Event::Opened);
    poll.step(&Event::Sent);
    assert_eq!(poll.settle(Some(UDCO2S::new("7", "8.9", "10.11"))), None);
    assert_eq!(poll.pending(), Action::Poll);
    assert!(!poll.detected());
}
