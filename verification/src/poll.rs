//! The polling loop as a state machine.
//!
//! A session with the sensor alternates between work on the outside (opening
//! the device, writing a command, looking at the shutdown channel, reading
//! from the device) and decisions about what to do next. The decisions live
//! here. A driver performs the action the loop is waiting for, reports what
//! came of it as an [`Event`], and is told the next action:
//!
//! ```text
//! Opening --Opened--> Starting --Sent--> Polling --Polled(Empty)--> Reading
//!    |                    |                 |  ^                       |
//!    | OpenFailed         | Failed          |  +--Received, TimedOut---+
//!    v                    v                 v                          |
//! Terminated <-------- Stopping <-----------+--------------------------+
//! ```
//!
//! The start command is asked for as soon as the device is open, and the stop
//! command on every way out once that has happened.

use crate::command::COMMAND;
use crate::grammar::{fields_view, LineGrammar};
use crate::reading::{rendered, Fields, OutputFormat, UDCO2S};
use crate::text::decode;
use vstd::prelude::*;
use vstd::utf8::*;

verus! {

/// Speed of the serial line in bits per second.
pub const BAUD_RATE: u32 = 115200;

/// Longest time one read from the device may block, in milliseconds. A read
/// that times out reports zero bytes.
pub const READ_TIMEOUT_MILLIS: u64 = 10000;

/// Size of the buffer handed to one read from the device, in bytes.
pub const RECEIVE_BUFFER_LEN: usize = 1000;

/// What a look at the shutdown channel found, without waiting.
#[derive(Clone, Copy, Debug, PartialEq, Eq, Structural)]
pub enum ShutdownPoll {
    /// Nothing has arrived: keep running.
    Empty,
    /// The shutdown notification has arrived.
    Notified,
    /// The sending side is gone.
    Closed,
}

/// Why a session ended in failure.
#[derive(Clone, Copy, Debug, PartialEq, Eq, Structural)]
pub enum Fault {
    /// The device could not be opened.
    Open,
    /// A read from or a write to the device failed.
    Io,
    /// Received bytes were not well-formed UTF-8.
    Decode,
}

/// Where a session stands.
#[derive(Clone, Copy, Debug, PartialEq, Eq, Structural)]
pub enum Phase {
    /// The device is being opened.
    Opening,
    /// The start command is being written.
    Starting,
    /// Running: the shutdown channel is being looked at.
    Polling,
    /// Running: a read from the device is under way.
    Reading,
    /// The stop command is being written.
    Stopping,
    /// The session is over.
    Terminated,
}

/// What the driver reports back after performing an action.
#[derive(Debug, PartialEq, Eq)]
pub enum Event {
    /// The device is open.
    Opened,
    /// The device could not be opened.
    OpenFailed,
    /// The command was written.
    Sent,
    /// The read or write failed.
    Failed,
    /// The shutdown channel was looked at.
    Polled(ShutdownPoll),
    /// One read returned these bytes.
    Received(Vec<u8>),
    /// One read ran into its timeout before anything arrived. This is no
    /// failure: it counts as a read of zero bytes.
    TimedOut,
}

/// What the driver has to do next.
#[derive(Clone, Copy, Debug, PartialEq, Eq)]
pub enum Action {
    /// Open the device.
    Open,
    /// Write the command to the device.
    Send(COMMAND),
    /// Look at the shutdown channel without waiting.
    Poll,
    /// Read once from the device.
    Read,
    /// Let go of the device and finish with this result.
    Exit(Result<(), Fault>),
}

/// The outcome of one step: a line to print, if the step produced one, and
/// the next action.
#[derive(Debug, PartialEq, Eq)]
pub struct Step {
    /// A formatted reading, without line terminator.
    pub output: Option<String>,
    /// What to do next.
    pub action: Action,
}

/// The mathematical content of an optional line of text.
pub open spec fn text_view(text: Option<String>) -> Option<Seq<char>> {
    match text {
        Some(line) => Some(line@),
        None => None,
    }
}

/// The state of a polling loop, as the contracts see it.
pub struct LoopState {
    /// The grammar that lines are matched against.
    pub grammar: LineGrammar,
    /// The encoding of the output.
    pub format: OutputFormat,
    /// Whether the session ends after the first reading.
    pub once: bool,
    /// Whether a reading has been seen in this session.
    pub detected: bool,
    /// Where the session stands.
    pub phase: Phase,
    /// The failure that ended or is ending the session.
    pub fault: Option<Fault>,
}

impl LoopState {
    /// The state in which a session begins: the device is yet to be opened
    /// and nothing has been detected.
    pub open spec fn initial(grammar: LineGrammar, format: OutputFormat, once: bool) -> LoopState {
        LoopState {
            grammar,
            format,
            once,
            detected: false,
            phase: Phase::Opening,
            fault: None,
        }
    }

    /// The action that the loop is waiting for in this state.
    pub open spec fn pending(self) -> Action {
        match self.phase {
            Phase::Opening => Action::Open,
            Phase::Starting => Action::Send(COMMAND::STA),
            Phase::Polling => Action::Poll,
            Phase::Reading => Action::Read,
            Phase::Stopping => Action::Send(COMMAND::STP),
            Phase::Terminated => Action::Exit(
                match self.fault {
                    Some(fault) => Err(fault),
                    None => Ok(()),
                },
            ),
        }
    }

    /// Whether the event is a possible result of the pending action. Any
    /// other event is out of turn and is ignored.
    pub open spec fn accepts(self, event: Event) -> bool {
        match self.phase {
            Phase::Opening => event is Opened || event is OpenFailed,
            Phase::Starting => event is Sent || event is Failed,
            Phase::Polling => event is Polled,
            Phase::Reading => event is Received || event is TimedOut || event is Failed,
            Phase::Stopping => event is Sent || event is Failed,
            Phase::Terminated => false,
        }
    }

    /// The reading carried by the bytes of one read. The bytes are matched as
    /// they are: nothing is kept from earlier reads. A read that returned
    /// nothing carries no reading.
    pub open spec fn reading(self, bytes: Seq<u8>) -> Option<Fields> {
        if bytes.len() == 0 {
            None
        } else {
            self.grammar.fields(decode_utf8(bytes))
        }
    }

    /// This state with the session on its way out: the stop command is due,
    /// and the failure that caused it, if any, is remembered.
    pub open spec fn stopping(self, fault: Option<Fault>) -> LoopState {
        LoopState { phase: Phase::Stopping, fault, ..self }
    }

    /// The state after a read whose text has been matched. A reading marks
    /// the session as having detected one. The session then stops if it stops
    /// after the first reading and one has been detected, and goes back to
    /// polling otherwise. Outside a read nothing changes.
    pub open spec fn settled(self, reading: Option<Fields>) -> LoopState {
        if self.phase == Phase::Reading {
            let detected = self.detected || reading is Some;
            LoopState {
                detected,
                phase: if self.once && detected {
                    Phase::Stopping
                } else {
                    Phase::Polling
                },
                ..self
            }
        } else {
            self
        }
    }

    /// The line printed for a read whose text has been matched: the reading
    /// in the session's format, and nothing without a reading.
    pub open spec fn settled_output(self, reading: Option<Fields>) -> Option<Seq<char>> {
        match reading {
            Some(fields) => if self.phase == Phase::Reading {
                Some(rendered(self.format, fields))
            } else {
                None
            },
            None => None,
        }
    }

    /// The state after an event. An event that is out of turn changes nothing.
    pub open spec fn next(self, event: Event) -> LoopState {
        match self.phase {
            Phase::Opening => match event {
                Event::Opened => LoopState { phase: Phase::Starting, ..self },
                Event::OpenFailed => LoopState {
                    phase: Phase::Terminated,
                    fault: Some(Fault::Open),
                    ..self
                },
                _ => self,
            },
            Phase::Starting => match event {
                Event::Sent => LoopState { phase: Phase::Polling, ..self },
                Event::Failed => self.stopping(Some(Fault::Io)),
                _ => self,
            },
            Phase::Polling => match event {
                Event::Polled(ShutdownPoll::Empty) => LoopState { phase: Phase::Reading, ..self },
                Event::Polled(_) => self.stopping(self.fault),
                _ => self,
            },
            Phase::Reading => match event {
                Event::Received(bytes) => if valid_utf8(bytes@) {
                    self.settled(self.reading(bytes@))
                } else {
                    self.stopping(Some(Fault::Decode))
                },
                Event::TimedOut => self.settled(None),
                Event::Failed => self.stopping(Some(Fault::Io)),
                _ => self,
            },
            Phase::Stopping => match event {
                Event::Sent => LoopState { phase: Phase::Terminated, ..self },
                Event::Failed => LoopState {
                    phase: Phase::Terminated,
                    fault: if self.fault is None {
                        Some(Fault::Io)
                    } else {
                        self.fault
                    },
                    ..self
                },
                _ => self,
            },
            Phase::Terminated => self,
        }
    }

    /// The line that an event causes to be printed. Only a read whose bytes
    /// are well-formed text matching the grammar prints anything.
    pub open spec fn output(self, event: Event) -> Option<Seq<char>> {
        match event {
            Event::Received(bytes) => if valid_utf8(bytes@) {
                self.settled_output(self.reading(bytes@))
            } else {
                None
            },
            _ => None,
        }
    }
}

/// The polling loop of one session.
pub struct PollLoop {
    grammar: LineGrammar,
    format: OutputFormat,
    once: bool,
    detected: bool,
    phase: Phase,
    fault: Option<Fault>,
}

impl View for PollLoop {
    type V = LoopState;

    closed spec fn view(&self) -> LoopState {
        LoopState {
            grammar: self.grammar,
            format: self.format,
            once: self.once,
            detected: self.detected,
            phase: self.phase,
            fault: self.fault,
        }
    }
}

impl PollLoop {
    /// Sets up a session that matches lines with `grammar`, prints readings
    /// in `format`, and ends after the first reading if `once` is set.
    pub fn new(grammar: LineGrammar, format: OutputFormat, once: bool) -> (poll: PollLoop)
        ensures
            poll@ == LoopState::initial(grammar, format, once),
    {
        PollLoop { grammar, format, once, detected: false, phase: Phase::Opening, fault: None }
    }

    /// The action the loop is waiting for.
    pub fn pending(&self) -> (action: Action)
        ensures
            action == self@.pending(),
    {
        match self.phase {
            Phase::Opening => Action::Open,
            Phase::Starting => Action::Send(COMMAND::STA),
            Phase::Polling => Action::Poll,
            Phase::Reading => Action::Read,
            Phase::Stopping => Action::Send(COMMAND::STP),
            Phase::Terminated => match self.fault {
                Some(fault) => Action::Exit(Err(fault)),
                None => Action::Exit(Ok(())),
            },
        }
    }

    /// Takes in what came of the pending action and says what to do next.
    ///
    /// Returns `None`, and changes nothing, when the event is out of turn.
    pub fn step(&mut self, event: &Event) -> (taken: Option<Step>)
        ensures
            final(self)@ == old(self)@.next(*event),
            taken is Some <==> old(self)@.accepts(*event),
            taken matches Some(step) ==> step.action == final(self)@.pending() && text_view(
                step.output,
            ) == old(self)@.output(*event),
    {
        match self.phase {
            Phase::Opening => match event {
                Event::Opened => {
                    self.phase = Phase::Starting;
                    Some(self.proceed())
                },
                Event::OpenFailed => {
                    self.phase = Phase::Terminated;
                    self.fault = Some(Fault::Open);
                    Some(self.proceed())
                },
                _ => None,
            },
            Phase::Starting => match event {
                Event::Sent => {
                    self.phase = Phase::Polling;
                    Some(self.proceed())
                },
                Event::Failed => {
                    self.stop(Some(Fault::Io));
                    Some(self.proceed())
                },
                _ => None,
            },
            Phase::Polling => match event {
                Event::Polled(ShutdownPoll::Empty) => {
                    self.phase = Phase::Reading;
                    Some(self.proceed())
                },
                Event::Polled(_) => {
                    self.stop(self.fault);
                    Some(self.proceed())
                },
                _ => None,
            },
            Phase::Reading => match event {
                Event::Received(bytes) => match decode(bytes.as_slice()) {
                    Some(text) => {
                        let reading = if bytes.len() == 0 {
                            None
                        } else {
                            self.grammar.captures(text)
                        };
                        self.settle(reading)
                    },
                    None => {
                        self.stop(Some(Fault::Decode));
                        Some(self.proceed())
                    },
                },
                Event::TimedOut => self.settle(None),
                Event::Failed => {
                    self.stop(Some(Fault::Io));
                    Some(self.proceed())
                },
                _ => None,
            },
            Phase::Stopping => match event {
                Event::Sent => {
                    self.phase = Phase::Terminated;
                    Some(self.proceed())
                },
                Event::Failed => {
                    self.phase = Phase::Terminated;
                    if self.fault.is_none() {
                        self.fault = Some(Fault::Io);
                    }
                    Some(self.proceed())
                },
                _ => None,
            },
            Phase::Terminated => None,
        }
    }

    /// Finishes a read whose text has been matched against the grammar:
    /// hands out the line for the reading, if there is one, remembers that
    /// one was detected, and decides whether the session goes on.
    ///
    /// Returns `None`, and changes nothing, when no read is under way.
    pub fn settle(&mut self, reading: Option<UDCO2S>) -> (taken: Option<Step>)
        ensures
            final(self)@ == old(self)@.settled(fields_view(reading)),
            taken is Some <==> old(self)@.phase == Phase::Reading,
            taken matches Some(step) ==> step.action == final(self)@.pending() && text_view(
                step.output,
            ) == old(self)@.settled_output(fields_view(reading)),
    {
        if self.phase != Phase::Reading {
            return None;
        }
        let output = match reading {
            Some(found) => {
                self.detected = true;
                Some(found.format(self.format))
            },
            None => None,
        };
        if self.once && self.detected {
            self.phase = Phase::Stopping;
        } else {
            self.phase = Phase::Polling;
        }
        Some(Step { output, action: self.pending() })
    }

    /// Puts the session on its way out.
    fn stop(&mut self, fault: Option<Fault>)
        ensures
            final(self)@ == old(self)@.stopping(fault),
    {
        self.phase = Phase::Stopping;
        self.fault = fault;
    }

    /// A step that prints nothing and asks for the pending action.
    fn proceed(&self) -> (step: Step)
        ensures
            step.output is None,
            step.action == self@.pending(),
    {
        Step { output: None, action: self.pending() }
    }

    /// Where the session stands.
    pub fn phase(&self) -> (phase: Phase)
        ensures
            phase == self@.phase,
    {
        self.phase
    }

    /// Whether a reading has been seen in this session.
    pub fn detected(&self) -> (detected: bool)
        ensures
            detected == self@.detected,
    {
        self.detected
    }
}

} // verus!
