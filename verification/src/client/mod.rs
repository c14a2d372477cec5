//! The client: what it does with each message and each packet.
//!
//! The client owns one stream to the agent. It waits for two things at once,
//! a message from the application and a packet from the agent, handles
//! whichever comes first, and waits again. What it waits on is not modelled
//! here: each thing that came is an [`Event`], and [`Client::step`] says what
//! is to be done about it as an [`Action`]. Whoever owns the stream does
//! what the action says and comes back with the next event.
//!
//! Nothing ties an answer to the request that it answers. The agent handles
//! one request at a time and answers in the order of the requests, so an
//! application that waits for each answer before it sends the next request
//! knows which is which.

pub mod constraint;
pub mod message;

pub use crate::client::constraint::Constraint;
pub use crate::client::message::Message;

use crate::buffer::bytes_seq;
use crate::client::message::MessageView;
use crate::error::Error;
use crate::packet::Packet;
use crate::packet::PacketView;
use bytes::Bytes;
use vstd::prelude::*;

verus! {

/// Whether the client still handles events.
#[derive(Clone, Copy, Debug, PartialEq, Eq, Structural)]
pub enum State {
    /// Events are handled.
    Running,
    /// The client has stopped, for good.
    Terminated,
}

/// One thing that the client was waiting for.
#[derive(Clone, Debug)]
pub enum Event {
    /// The application sent a message.
    Message(Message),
    /// The application can send no more: nobody holds the sending end.
    Closed,
    /// A packet was read off the stream.
    Packet(Packet),
    /// No packet could be read off the stream.
    ReadFailed,
}

/// An event as a value.
pub enum EventView {
    Message(MessageView),
    Closed,
    Packet(PacketView),
    ReadFailed,
}

impl View for Event {
    type V = EventView;

    open spec fn view(&self) -> EventView {
        match *self {
            Event::Message(m) => EventView::Message(m@),
            Event::Closed => EventView::Closed,
            Event::Packet(p) => EventView::Packet(p@),
            Event::ReadFailed => EventView::ReadFailed,
        }
    }
}

/// What is to be done about an event.
#[derive(Clone, Debug, PartialEq)]
pub enum Action {
    /// Write this packet to the stream. If that fails, stop with the failure.
    Write(Packet),
    /// Hand this payload to the application, as it is. If nobody is left to
    /// take it, stop with that failure.
    Forward(Bytes),
    /// Put this packet on record and drop it: it is no answer, and the agent
    /// should not have sent it.
    Discard(Packet),
    /// Nothing: no packet was read, which is put on record and passed over.
    Skip,
    /// Stop, with success.
    Stop,
}

/// An action as a value.
pub enum ActionView {
    Write(PacketView),
    Forward(Seq<u8>),
    Discard(PacketView),
    Skip,
    Stop,
}

impl View for Action {
    type V = ActionView;

    open spec fn view(&self) -> ActionView {
        match *self {
            Action::Write(p) => ActionView::Write(p@),
            Action::Forward(b) => ActionView::Forward(bytes_seq(b)),
            Action::Discard(p) => ActionView::Discard(p@),
            Action::Skip => ActionView::Skip,
            Action::Stop => ActionView::Stop,
        }
    }
}

/// What one step comes to: the state after it, and the action to take or the
/// failure to stop with.
pub struct Step {
    pub state: State,
    pub result: Result<ActionView, Error>,
}

/// What the client does about `event` in `state`.
///
/// Once terminated it stays so and does nothing. While running: `Shutdown`
/// and a closed channel stop it, with success; any other message is sent as
/// its packet, or stops the client with the failure to build that packet; a
/// packet of a response kind is handed on, payload unchanged; any other
/// packet is dropped; a failed read is passed over.
#[verifier::opaque]
pub open spec fn spec_step(state: State, event: EventView) -> Step {
    match state {
        State::Terminated => Step { state: State::Terminated, result: Ok(ActionView::Stop) },
        State::Running => match event {
            EventView::Message(m) => match m.packet() {
                None => Step { state: State::Terminated, result: Ok(ActionView::Stop) },
                Some(Ok(p)) => Step { state: State::Running, result: Ok(ActionView::Write(p)) },
                Some(Err(e)) => Step { state: State::Terminated, result: Err(e) },
            },
            EventView::Closed => Step { state: State::Terminated, result: Ok(ActionView::Stop) },
            EventView::Packet(p) => if p.kind.spec_is_response() {
                Step { state: State::Running, result: Ok(ActionView::Forward(p.payload)) }
            } else {
                Step { state: State::Running, result: Ok(ActionView::Discard(p)) }
            },
            EventView::ReadFailed => Step { state: State::Running, result: Ok(ActionView::Skip) },
        },
    }
}

/// The result of a step, with the action as a value.
pub open spec fn spec_stepped(r: Result<Action, Error>) -> Result<ActionView, Error> {
    match r {
        Ok(a) => Ok(a@),
        Err(e) => Err(e),
    }
}

/// The events of a list, each as a value.
pub open spec fn spec_events(events: Seq<Event>) -> Seq<EventView> {
    events.map_values(|e: Event| e@)
}

/// The actions of a list, each as a value.
pub open spec fn spec_actions(actions: Seq<Action>) -> Seq<ActionView> {
    actions.map_values(|a: Action| a@)
}

/// What a run comes to: the state after it, and the actions that it took, in
/// order, or the failure that it stopped with.
pub struct Run {
    pub state: State,
    pub result: Result<Seq<ActionView>, Error>,
}

/// A run with one more event: where the run has not terminated, the step for
/// that event is taken; where it has, nothing changes.
pub open spec fn spec_more(before: Run, event: EventView) -> Run {
    match (before.state, before.result) {
        (State::Running, Ok(actions)) => {
            let step = spec_step(State::Running, event);
            Run {
                state: step.state,
                result: match step.result {
                    Ok(a) => Ok(actions.push(a)),
                    Err(e) => Err(e),
                },
            }
        },
        _ => before,
    }
}

/// What the client does, from `state`, about `events` in the order in which
/// they came: one step for each event, until it has terminated. Events that
/// come after that are not looked at.
#[verifier::opaque]
pub open spec fn spec_run(state: State, events: Seq<EventView>) -> Run
    decreases events.len(),
{
    if events.len() == 0 {
        Run { state, result: Ok(Seq::empty()) }
    } else {
        spec_more(spec_run(state, events.drop_last()), events.last())
    }
}

/// The run over no event takes no action and leaves the state.
pub proof fn lemma_run_none(state: State)
    ensures
        spec_run(state, Seq::empty()) == (Run { state, result: Ok(Seq::empty()) }),
{
    reveal(spec_run);
}

/// The run over the first `n + 1` events is the run over the first `n` with
/// one more event.
pub proof fn lemma_run_take(state: State, events: Seq<EventView>, n: int)
    requires
        0 <= n < events.len(),
    ensures
        spec_run(state, events.take(n + 1)) == spec_more(
            spec_run(state, events.take(n)),
            events[n],
        ),
{
    reveal(spec_run);
    assert(events.take(n + 1).drop_last() =~= events.take(n));
}

/// Once a run has terminated, or has stopped with a failure, the events that
/// follow change nothing: they are never looked at.
pub proof fn lemma_run_stopped(state: State, events: Seq<EventView>, n: int)
    requires
        0 <= n <= events.len(),
        spec_run(state, events.take(n)).state == State::Terminated || spec_run(
            state,
            events.take(n),
        ).result is Err,
    ensures
        spec_run(state, events) == spec_run(state, events.take(n)),
    decreases events.len() - n,
{
    if n < events.len() {
        lemma_run_take(state, events, n);
        lemma_run_stopped(state, events, n + 1);
    } else {
        assert(events.take(n) =~= events);
    }
}

/// A run that stopped with a failure has terminated.
pub proof fn lemma_run_failure_terminates(state: State, events: Seq<EventView>)
    requires
        spec_run(state, events).result is Err,
    ensures
        spec_run(state, events).state == State::Terminated,
    decreases events.len(),
{
    reveal(spec_run);
    reveal(spec_step);
    if events.len() > 0 {
        let before = spec_run(state, events.drop_last());
        if before.result is Err {
            lemma_run_failure_terminates(state, events.drop_last());
        }
    }
}

/// Each action of a run is the one that the step for the event at the same
/// place gives while running: no event is passed by, none is handled twice.
pub proof fn lemma_run_actions(state: State, events: Seq<EventView>, j: int)
    requires
        spec_run(state, events).result is Ok,
        0 <= j < spec_run(state, events).result->Ok_0.len(),
    ensures
        j < events.len(),
        state == State::Running,
        spec_step(State::Running, events[j]).result == Ok::<ActionView, Error>(
            spec_run(state, events).result->Ok_0[j],
        ),
    decreases events.len(),
{
    reveal(spec_run);
    if events.len() > 0 {
        let before = spec_run(state, events.drop_last());
        if before.result is Ok {
            lemma_run_length(state, events.drop_last());
            if j < before.result->Ok_0.len() {
                lemma_run_actions(state, events.drop_last(), j);
            }
        }
    }
}

/// A run takes at most one action for each event, and exactly one where it
/// is still running at the end. A run from `Terminated` takes none.
pub proof fn lemma_run_length(state: State, events: Seq<EventView>)
    requires
        spec_run(state, events).result is Ok,
    ensures
        spec_run(state, events).result->Ok_0.len() <= events.len(),
        spec_run(state, events).state == State::Running ==> state == State::Running && spec_run(
            state,
            events,
        ).result->Ok_0.len() == events.len(),
        state == State::Terminated ==> spec_run(state, events).result->Ok_0.len() == 0,
    decreases events.len(),
{
    reveal(spec_run);
    reveal(spec_step);
    if events.len() > 0 {
        let before = spec_run(state, events.drop_last());
        if before.result is Ok {
            lemma_run_length(state, events.drop_last());
        }
    }
}

/// Only an answer is handed on. A step hands a payload on only where the
/// event is a packet of a response kind, and then the payload is that
/// packet's, unchanged; a packet of any other kind is dropped.
pub proof fn lemma_step_forwards_responses(state: State, event: EventView)
    ensures
        spec_step(state, event).result matches Ok(ActionView::Forward(payload)) ==> state
            == State::Running && (event matches EventView::Packet(p) && p.kind.spec_is_response()
            && payload == p.payload),
        (event matches EventView::Packet(p) && !p.kind.spec_is_response()) ==> !(spec_step(
            state,
            event,
        ).result matches Ok(ActionView::Forward(_))),
        event matches EventView::Packet(p) ==> (state == State::Running
            && !p.kind.spec_is_response() ==> spec_step(state, event).result == Ok::<
            ActionView,
            Error,
        >(ActionView::Discard(p))),
{
    reveal(spec_step);
}

/// Only an answer is handed on, over a whole run: where the action at place
/// `j` hands a payload on, the event at place `j` is a packet of a response
/// kind with that payload.
pub proof fn lemma_run_forwards_responses(state: State, events: Seq<EventView>, j: int)
    requires
        spec_run(state, events).result is Ok,
        0 <= j < spec_run(state, events).result->Ok_0.len(),
        spec_run(state, events).result->Ok_0[j] is Forward,
    ensures
        j < events.len(),
        events[j] matches EventView::Packet(p) && p.kind.spec_is_response() && spec_run(
            state,
            events,
        ).result->Ok_0[j] == ActionView::Forward(p.payload),
{
    lemma_run_actions(state, events, j);
    lemma_step_forwards_responses(State::Running, events[j]);
}

/// `Shutdown` stops the client with success and without a write. Where the
/// event at place `n` is `Shutdown`, the run is the run over the events up to
/// and with it, whatever is queued behind; it has terminated; and where the
/// client was still running when `Shutdown` came, the run succeeds, and its
/// last action is `Stop`.
pub proof fn lemma_shutdown_stops(state: State, events: Seq<EventView>, n: int)
    requires
        0 <= n < events.len(),
        events[n] == EventView::Message(MessageView::Shutdown),
    ensures
        spec_run(state, events) == spec_run(state, events.take(n + 1)),
        spec_run(state, events).state == State::Terminated,
        spec_run(state, events.take(n)).state == State::Running ==> spec_run(state, events).result
            == Ok::<Seq<ActionView>, Error>(
            spec_run(state, events.take(n)).result->Ok_0.push(ActionView::Stop),
        ),
{
    reveal(spec_step);
    let before = spec_run(state, events.take(n));
    lemma_run_take(state, events, n);
    if before.result is Err {
        lemma_run_failure_terminates(state, events.take(n));
    }
    lemma_run_stopped(state, events, n + 1);
}

/// The result of a run, with the actions as values.
pub open spec fn spec_ran(r: Result<Vec<Action>, Error>) -> Result<Seq<ActionView>, Error> {
    match r {
        Ok(actions) => Ok(spec_actions(actions@)),
        Err(e) => Err(e),
    }
}

/// The client's side of one connection to an agent.
#[derive(Debug)]
pub struct Client {
    state: State,
}

impl View for Client {
    type V = State;

    /// The client's state.
    closed spec fn view(&self) -> State {
        self.state
    }
}

impl Client {
    /// A client that is running.
    pub fn new() -> (c: Self)
        ensures
            c@ == State::Running,
    {
        Self { state: State::Running }
    }

    /// The client's state.
    pub fn state(&self) -> (s: State)
        ensures
            s == self@,
    {
        self.state
    }

    /// Handles one event: moves to the next state and says what is to be
    /// done.
    pub fn step(&mut self, event: Event) -> (r: Result<Action, Error>)
        ensures
            final(self)@ == spec_step(old(self)@, event@).state,
            spec_stepped(r) == spec_step(old(self)@, event@).result,
    {
        reveal(spec_step);
        match self.state {
            State::Terminated => Ok(Action::Stop),
            State::Running => match event {
                Event::Message(msg) => match msg.into_packet() {
                    Ok(Some(pkt)) => Ok(Action::Write(pkt)),
                    Ok(None) => {
                        self.state = State::Terminated;
                        Ok(Action::Stop)
                    },
                    Err(e) => {
                        self.state = State::Terminated;
                        Err(e)
                    },
                },
                Event::Closed => {
                    self.state = State::Terminated;
                    Ok(Action::Stop)
                },
                Event::Packet(packet) => {
                    if packet.kind().is_response() {
                        Ok(Action::Forward(packet.payload().clone()))
                    } else {
                        Ok(Action::Discard(packet))
                    }
                },
                Event::ReadFailed => Ok(Action::Skip),
            },
        }
    }

    /// Handles `events` in the order in which they came, one step for each,
    /// until the client has terminated, and gives the actions in that order.
    /// Events that come after the client has terminated are not looked at.
    pub fn run(&mut self, events: Vec<Event>) -> (r: Result<Vec<Action>, Error>)
        ensures
            final(self)@ == spec_run(old(self)@, spec_events(events@)).state,
            spec_ran(r) == spec_run(old(self)@, spec_events(events@)).result,
    {
        let ghost all = spec_events(events@);
        let ghost start = self@;
        let mut actions: Vec<Action> = Vec::new();
        proof {
            lemma_run_none(start);
            assert(all.take(0) =~= Seq::empty());
            assert(spec_actions(actions@) =~= Seq::empty());
        }
        for event in it: events
            invariant
                start == old(self)@,
                all == spec_events(events@),
                all == spec_events(it.seq()),
                self@ == spec_run(start, all.take(it.index() as int)).state,
                spec_run(start, all.take(it.index() as int)).result == Ok::<
                    Seq<ActionView>,
                    Error,
                >(spec_actions(actions@)),
        {
            proof {
                lemma_run_take(start, all, it.index() as int);
            }
            if self.state == State::Running {
                let ghost before = actions@;
                match self.step(event) {
                    Ok(action) => {
                        actions.push(action);
                        assert(spec_actions(actions@) =~= spec_actions(before).push(action@));
                    },
                    Err(e) => {
                        proof {
                            lemma_run_stopped(start, all, it.index() + 1);
                        }
                        return Err(e);
                    },
                }
            }
        }
        assert(all.take(all.len() as int) =~= all);
        Ok(actions)
    }
}

} // verus!
