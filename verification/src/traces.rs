//! What holds of whole sessions.
//!
//! The functions of a polling loop and of a watcher say what one step does.
//! This module follows a loop or a watcher through any sequence of events and
//! proves what holds of all of them: the handshake with the sensor is always
//! balanced, a session that ends after the first reading prints one line at
//! most, a stop is final, and a watcher notifies once at most.

use crate::command::COMMAND;
use crate::grammar::LineGrammar;
use crate::poll::{Action, Event, Fault, LoopState, Phase, ShutdownPoll};
use crate::reading::{rendered, OutputFormat};
use crate::watcher::{reaction, InputRead, WatchAction};
use vstd::prelude::*;
use vstd::utf8::*;

verus! {

/// The state that a loop reaches from `start` after the events, in order.
pub open spec fn run(start: LoopState, events: Seq<Event>) -> LoopState
    decreases events.len(),
{
    if events.len() == 0 {
        start
    } else {
        run(start, events.drop_last()).next(events.last())
    }
}

/// The commands that a loop asks to be written to the device while it takes
/// in the events, in order.
pub open spec fn commands(start: LoopState, events: Seq<Event>) -> Seq<COMMAND>
    decreases events.len(),
{
    if events.len() == 0 {
        Seq::empty()
    } else {
        let before = run(start, events.drop_last());
        let earlier = commands(start, events.drop_last());
        if before.accepts(events.last()) {
            match before.next(events.last()).pending() {
                Action::Send(command) => earlier.push(command),
                _ => earlier,
            }
        } else {
            earlier
        }
    }
}

/// The lines that a loop prints while it takes in the events, in order.
pub open spec fn outputs(start: LoopState, events: Seq<Event>) -> Seq<Seq<char>>
    decreases events.len(),
{
    if events.len() == 0 {
        Seq::empty()
    } else {
        let before = run(start, events.drop_last());
        let earlier = outputs(start, events.drop_last());
        if before.accepts(events.last()) {
            match before.output(events.last()) {
                Some(line) => earlier.push(line),
                None => earlier,
            }
        } else {
            earlier
        }
    }
}

/// The number of reads from the device that a loop asks for while it takes
/// in the events.
pub open spec fn reads(start: LoopState, events: Seq<Event>) -> nat
    decreases events.len(),
{
    if events.len() == 0 {
        0
    } else {
        let before = run(start, events.drop_last());
        let earlier = reads(start, events.drop_last());
        if before.accepts(events.last()) && before.next(events.last()).pending() == Action::Read {
            earlier + 1
        } else {
            earlier
        }
    }
}

/// The commands that have been asked for by the time a session is in the
/// given state: none before the device is open or when it could not be
/// opened, the start command while the session runs, and the start command
/// followed by the stop command from the moment the session is on its way
/// out.
pub open spec fn handshake(state: LoopState) -> Seq<COMMAND> {
    match state.phase {
        Phase::Opening => Seq::empty(),
        Phase::Starting | Phase::Polling | Phase::Reading => seq![COMMAND::STA],
        Phase::Stopping => seq![COMMAND::STA, COMMAND::STP],
        Phase::Terminated => if state.fault == Some(Fault::Open) {
            Seq::empty()
        } else {
            seq![COMMAND::STA, COMMAND::STP]
        },
    }
}

/// Whether a session is on its way out or over.
pub open spec fn leaving(state: LoopState) -> bool {
    state.phase == Phase::Stopping || state.phase == Phase::Terminated
}

/// What holds of every state that a session passes through: a failure is on
/// record only on the way out, a failure to open the device only at the very
/// end, and a session that ends after the first reading is on its way out as
/// soon as one has been detected.
spec fn coherent(state: LoopState) -> bool {
    &&& !leaving(state) ==> state.fault is None
    &&& state.phase == Phase::Stopping ==> state.fault != Some(Fault::Open)
    &&& state.once && state.detected ==> leaving(state)
}

proof fn lemma_session_from_the_start(
    grammar: LineGrammar,
    format: OutputFormat,
    once: bool,
    events: Seq<Event>,
)
    ensures
        ({
            let start = LoopState::initial(grammar, format, once);
            let end = run(start, events);
            &&& coherent(end)
            &&& end.once == once
            &&& commands(start, events) == handshake(end)
            &&& once ==> outputs(start, events).len() == (if end.detected {
                1nat
            } else {
                0nat
            })
        }),
    decreases events.len(),
{
    if events.len() > 0 {
        lemma_session_from_the_start(grammar, format, once, events.drop_last());
    }
}

/// The handshake is balanced. Whatever happens in a session that begins in
/// the initial state, the commands asked for are: nothing while the device is
/// not open, and nothing at all if it could not be opened; the start command,
/// once, as soon as it is open; and the stop command, once and after the
/// start command, from the moment the session is on its way out, be it for a
/// shutdown, for the first reading, or for a failure.
pub proof fn law_handshake_is_balanced(
    grammar: LineGrammar,
    format: OutputFormat,
    once: bool,
    events: Seq<Event>,
)
    ensures
        commands(LoopState::initial(grammar, format, once), events) == handshake(
            run(LoopState::initial(grammar, format, once), events),
        ),
{
    lemma_session_from_the_start(grammar, format, once, events);
}

/// A session that ends after the first reading prints one line at most, and
/// is on its way out as soon as it has printed one.
pub proof fn law_once_prints_one_line_at_most(
    grammar: LineGrammar,
    format: OutputFormat,
    events: Seq<Event>,
)
    ensures
        outputs(LoopState::initial(grammar, format, true), events).len() <= 1,
        outputs(LoopState::initial(grammar, format, true), events).len() == 1 ==> leaving(
            run(LoopState::initial(grammar, format, true), events),
        ),
{
    lemma_session_from_the_start(grammar, format, true, events);
}

/// A stop is final. From the moment a session is on its way out it stays so,
/// whatever is reported to it: it asks for no read, prints no line, sends no
/// further command, and keeps what it has detected.
pub proof fn law_nothing_follows_a_stop(state: LoopState, events: Seq<Event>)
    requires
        leaving(state),
    ensures
        leaving(run(state, events)),
        run(state, events).detected == state.detected,
        reads(state, events) == 0,
        outputs(state, events) == Seq::<Seq<char>>::empty(),
        commands(state, events) == Seq::<COMMAND>::empty(),
    decreases events.len(),
{
    if events.len() > 0 {
        law_nothing_follows_a_stop(state, events.drop_last());
    }
}

/// A shutdown is seen at the first look. When the shutdown channel holds the
/// notification, or its sending side is gone, the loop asks for the stop
/// command at once, and from then on for no further read and no further line.
pub proof fn law_shutdown_ends_the_session(
    state: LoopState,
    found: ShutdownPoll,
    events: Seq<Event>,
)
    requires
        state.phase == Phase::Polling,
        found != ShutdownPoll::Empty,
    ensures
        state.accepts(Event::Polled(found)),
        state.output(Event::Polled(found)) is None,
        state.next(Event::Polled(found)).pending() == Action::Send(COMMAND::STP),
        reads(state.next(Event::Polled(found)), events) == 0,
        outputs(state.next(Event::Polled(found)), events) == Seq::<Seq<char>>::empty(),
{
    law_nothing_follows_a_stop(state.next(Event::Polled(found)), events);
}

/// No read without a look at the shutdown channel. Whenever the loop asks
/// for a read, it has just been told that the channel was empty.
pub proof fn law_read_follows_an_empty_poll(state: LoopState, event: Event)
    requires
        state.accepts(event),
        state.next(event).pending() == Action::Read,
    ensures
        state.phase == Phase::Polling,
        event == Event::Polled(ShutdownPoll::Empty),
{
}

/// Only a matching line prints and detects. A step prints a line or changes
/// what has been detected only if it takes in the bytes of a read that are
/// well-formed text in which the grammar finds a reading. The line is then
/// the rendering of the captured fields in the session's format.
pub proof fn law_only_a_reading_prints(state: LoopState, event: Event)
    ensures
        state.output(event) is Some || state.next(event).detected != state.detected ==> {
            &&& state.phase == Phase::Reading
            &&& event matches Event::Received(bytes)
            &&& valid_utf8(bytes@)
            &&& state.reading(bytes@) matches Some(fields)
            &&& state.output(event) == Some(rendered(state.format, fields))
            &&& state.next(event).detected
        },
{
}

/// The first reading ends a session that is to end after it: the loop prints
/// the line and asks for the stop command, not for another read.
pub proof fn law_once_stops_at_the_first_reading(state: LoopState, bytes: Vec<u8>)
    requires
        state.once,
        state.phase == Phase::Reading,
        valid_utf8(bytes@),
        state.reading(bytes@) is Some,
    ensures
        state.output(Event::Received(bytes)) == Some(
            rendered(state.format, state.reading(bytes@)->0),
        ),
        state.next(Event::Received(bytes)).pending() == Action::Send(COMMAND::STP),
{
}

/// Whether a watcher that has taken in these reads, in order, has ended.
pub open spec fn watched(inputs: Seq<InputRead>) -> bool
    decreases inputs.len(),
{
    if inputs.len() == 0 {
        false
    } else {
        watched(inputs.drop_last()) || reaction(inputs.last()) != WatchAction::Read
    }
}

/// The number of notifications that a watcher raises while it takes in
/// these reads.
pub open spec fn notifications(inputs: Seq<InputRead>) -> nat
    decreases inputs.len(),
{
    if inputs.len() == 0 {
        0
    } else if !watched(inputs.drop_last()) && reaction(inputs.last()) == WatchAction::Notify {
        notifications(inputs.drop_last()) + 1
    } else {
        notifications(inputs.drop_last())
    }
}

/// A watcher notifies once at most, and has ended when it has done so.
pub proof fn law_watcher_notifies_once_at_most(inputs: Seq<InputRead>)
    ensures
        notifications(inputs) <= 1,
        notifications(inputs) == 1 ==> watched(inputs),
        !watched(inputs) ==> notifications(inputs) == 0,
    decreases inputs.len(),
{
    if inputs.len() > 0 {
        law_watcher_notifies_once_at_most(inputs.drop_last());
    }
}

} // verus!
