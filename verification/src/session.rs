//! The decisions of a streaming session.
//!
//! A session owns one socket. Whoever drives it performs the input and
//! output: it connects, waits on the outbound queue and on the socket, and
//! hands every outcome to the session as an `Event`. The session answers with
//! its next state and with the one `Action` to perform before the next event
//! is taken. The driver performs actions in the order it is given them, and
//! takes no further event until an action is done: deliveries to the callback
//! never overlap. It takes messages off the outbound queue only while the
//! session runs, so none is lost to a session that cannot write.
//!
//! Two modes share the states. A bridge relays a queue of outbound messages
//! to the socket and the socket's frames to a callback, and ends as soon as
//! either direction ends. A legacy session writes one opening payload when
//! the socket opens and then only reads.
//!
//! Read failures follow one policy per mode. A bridge reports a failed read
//! and goes on reading. A legacy session treats every failure as fatal.

use vstd::prelude::*;

verus! {

/// How a session runs.
#[derive(Clone, Copy, Debug, PartialEq, Eq)]
pub enum Mode {
    /// Relay in both directions until either direction ends.
    Bridge,
    /// Write one opening payload, then read until a failure.
    Legacy,
}

/// What a session sets out to do once its socket is open.
#[derive(Clone, Debug, PartialEq, Eq)]
pub enum Plan<M> {
    /// Relay messages from the outbound queue.
    Bridge,
    /// Write this payload as the opening message.
    Legacy(M),
}

/// The state of a session. A session starts out connecting, runs once the
/// socket is open, and stays terminated once it has ended.
#[derive(Clone, Debug, PartialEq, Eq)]
pub enum Session<M> {
    /// The socket is not open yet.
    Connecting(Plan<M>),
    /// The socket is open and the session relays.
    Running(Mode),
    /// The session has ended. Nothing brings it back.
    Terminated,
}

/// What happened outside the session. `M` is the type of an outbound message.
#[derive(Clone, Debug, PartialEq, Eq)]
pub enum Event<M> {
    /// The socket is open.
    Connected,
    /// The socket could not be opened; the text describes the error.
    ConnectFailed(String),
    /// The outbound queue handed over its next message.
    Outbound(M),
    /// The outbound queue is closed and empty: every sender is gone.
    QueueClosed,
    /// A write to the socket failed; the text describes the error.
    WriteFailed(String),
    /// The socket delivered a frame, here as text.
    Inbound(String),
    /// A read from the socket failed, or what it read could not be shown as
    /// text; the text describes the error.
    ReadFailed(String),
    /// The socket's read side has ended.
    SocketClosed,
}

/// The fatal error that ended a session.
#[derive(Clone, Debug, PartialEq, Eq)]
pub enum Fatal {
    /// The socket could not be opened.
    Connect(String),
    /// The opening payload could not be written.
    Write(String),
    /// A read from the socket failed.
    Read(String),
}

/// What the driver of a session is to do next.
#[derive(Clone, Debug, PartialEq, Eq)]
pub enum Action<M> {
    /// Nothing: wait for the next event.
    Idle,
    /// Write the message to the socket as one frame.
    Send(M),
    /// Call the callback with the text, and wait until it returns.
    Deliver(String),
    /// Report the error, and go on.
    Log(String),
    /// Stop waiting on the queue and on the socket, and drop both: the
    /// session has ended.
    Stop,
    /// Stop, and fail with the error: the session has ended fatally.
    Abort(Fatal),
}

impl<M> Plan<M> {
    /// The mode that the plan leads to.
    pub open spec fn mode(self) -> Mode {
        match self {
            Plan::Bridge => Mode::Bridge,
            Plan::Legacy(_) => Mode::Legacy,
        }
    }
}

/// The state and the action that follow from an event in a running session.
pub open spec fn running_transition<M>(mode: Mode, event: Event<M>) -> (Session<M>, Action<M>) {
    match event {
        Event::Connected => (Session::Running(mode), Action::Idle),
        Event::ConnectFailed(_) => (Session::Running(mode), Action::Idle),
        Event::Outbound(message) => match mode {
            Mode::Bridge => (Session::Running(mode), Action::Send(message)),
            Mode::Legacy => (Session::Running(mode), Action::Idle),
        },
        Event::QueueClosed => match mode {
            Mode::Bridge => (Session::Terminated, Action::Stop),
            Mode::Legacy => (Session::Running(mode), Action::Idle),
        },
        Event::WriteFailed(error) => match mode {
            Mode::Bridge => (Session::Terminated, Action::Stop),
            Mode::Legacy => (Session::Terminated, Action::Abort(Fatal::Write(error))),
        },
        Event::Inbound(text) => (Session::Running(mode), Action::Deliver(text)),
        Event::ReadFailed(error) => match mode {
            Mode::Bridge => (Session::Running(mode), Action::Log(error)),
            Mode::Legacy => (Session::Terminated, Action::Abort(Fatal::Read(error))),
        },
        Event::SocketClosed => (Session::Terminated, Action::Stop),
    }
}

/// The state and the action that follow from an event.
///
/// While connecting, only the outcome of the connection counts: an open
/// socket starts the session, and a legacy session then writes its opening
/// payload; a failure ends it fatally. A terminated session answers every
/// event with `Idle`.
pub open spec fn transition<M>(session: Session<M>, event: Event<M>) -> (Session<M>, Action<M>) {
    match session {
        Session::Connecting(plan) => match event {
            Event::Connected => match plan {
                Plan::Bridge => (Session::Running(Mode::Bridge), Action::Idle),
                Plan::Legacy(opening) => (Session::Running(Mode::Legacy), Action::Send(opening)),
            },
            Event::ConnectFailed(error) => (
                Session::Terminated,
                Action::Abort(Fatal::Connect(error)),
            ),
            _ => (session, Action::Idle),
        },
        Session::Running(mode) => running_transition(mode, event),
        Session::Terminated => (Session::Terminated, Action::Idle),
    }
}

impl<M> Session<M> {
    /// A bridge that has yet to connect.
    pub fn bridge() -> (session: Session<M>)
        ensures
            session == Session::<M>::Connecting(Plan::Bridge),
    {
        Session::Connecting(Plan::Bridge)
    }

    /// A legacy session that has yet to connect, with its opening payload.
    pub fn legacy(opening: M) -> (session: Session<M>)
        ensures
            session == Session::Connecting(Plan::Legacy(opening)),
    {
        Session::Connecting(Plan::Legacy(opening))
    }

    /// Tells whether the session has ended.
    pub fn is_terminated(&self) -> (ended: bool)
        ensures
            ended == (*self is Terminated),
    {
        match self {
            Session::Terminated => true,
            _ => false,
        }
    }

    /// Takes the events in order, as `step` takes one: returns the last state
    /// and the actions, one for each event.
    pub fn run(self, events: Vec<Event<M>>) -> (outcome: (Session<M>, Vec<Action<M>>))
        ensures
            outcome.0 == state_after(self, events@),
            outcome.1@ == actions_for(self, events@),
    {
        let ghost all = events@;
        let mut session = self;
        let mut actions: Vec<Action<M>> = Vec::new();
        for event in it: events
            invariant
                it.seq() == all,
                session == state_after(self, all.take(it.index() as int)),
                actions@ == actions_for(self, all.take(it.index() as int)),
        {
            assert(all.take(it.index() + 1).drop_last() =~= all.take(it.index() as int));
            let (next, action) = session.step(event);
            session = next;
            actions.push(action);
        }
        assert(all.take(all.len() as int) =~= all);
        (session, actions)
    }

    /// Takes one event: returns the state that follows and the action to
    /// perform before the next event.
    pub fn step(self, event: Event<M>) -> (next: (Session<M>, Action<M>))
        ensures
            next == transition(self, event),
    {
        match self {
            Session::Connecting(plan) => match event {
                Event::Connected => match plan {
                    Plan::Bridge => (Session::Running(Mode::Bridge), Action::Idle),
                    Plan::Legacy(opening) => (
                        Session::Running(Mode::Legacy),
                        Action::Send(opening),
                    ),
                },
                Event::ConnectFailed(error) => (
                    Session::Terminated,
                    Action::Abort(Fatal::Connect(error)),
                ),
                _ => (Session::Connecting(plan), Action::Idle),
            },
            Session::Running(mode) => match (mode, event) {
                (Mode::Bridge, Event::Outbound(message)) => (
                    Session::Running(mode),
                    Action::Send(message),
                ),
                (Mode::Bridge, Event::QueueClosed) => (Session::Terminated, Action::Stop),
                (Mode::Bridge, Event::WriteFailed(_)) => (Session::Terminated, Action::Stop),
                (Mode::Bridge, Event::ReadFailed(error)) => (
                    Session::Running(mode),
                    Action::Log(error),
                ),
                (Mode::Legacy, Event::WriteFailed(error)) => (
                    Session::Terminated,
                    Action::Abort(Fatal::Write(error)),
                ),
                (Mode::Legacy, Event::ReadFailed(error)) => (
                    Session::Terminated,
                    Action::Abort(Fatal::Read(error)),
                ),
                (_, Event::Inbound(text)) => (Session::Running(mode), Action::Deliver(text)),
                (_, Event::SocketClosed) => (Session::Terminated, Action::Stop),
                _ => (Session::Running(mode), Action::Idle),
            },
            Session::Terminated => (Session::Terminated, Action::Idle),
        }
    }
}

/// The event ends a running session of this mode.
pub open spec fn ends<M>(mode: Mode, event: Event<M>) -> bool {
    running_transition(mode, event).0 is Terminated
}

/// The state of a session after the events, taken in order.
pub open spec fn state_after<M>(session: Session<M>, events: Seq<Event<M>>) -> Session<M>
    decreases events.len(),
{
    if events.len() == 0 {
        session
    } else {
        transition(state_after(session, events.drop_last()), events.last()).0
    }
}

/// The actions that answer the events, one for each, in order.
pub open spec fn actions_for<M>(session: Session<M>, events: Seq<Event<M>>) -> Seq<Action<M>>
    decreases events.len(),
{
    if events.len() == 0 {
        Seq::empty()
    } else {
        actions_for(session, events.drop_last()).push(
            transition(state_after(session, events.drop_last()), events.last()).1,
        )
    }
}

/// The messages that the outbound queue handed over, in order.
pub open spec fn outbound_of<M>(events: Seq<Event<M>>) -> Seq<M>
    decreases events.len(),
{
    if events.len() == 0 {
        Seq::empty()
    } else {
        match events.last() {
            Event::Outbound(message) => outbound_of(events.drop_last()).push(message),
            _ => outbound_of(events.drop_last()),
        }
    }
}

/// The texts of the frames that the socket delivered, in order.
pub open spec fn inbound_of<M>(events: Seq<Event<M>>) -> Seq<String>
    decreases events.len(),
{
    if events.len() == 0 {
        Seq::empty()
    } else {
        match events.last() {
            Event::Inbound(text) => inbound_of(events.drop_last()).push(text),
            _ => inbound_of(events.drop_last()),
        }
    }
}

/// The messages that the actions write to the socket, in order.
pub open spec fn sent<M>(actions: Seq<Action<M>>) -> Seq<M>
    decreases actions.len(),
{
    if actions.len() == 0 {
        Seq::empty()
    } else {
        match actions.last() {
            Action::Send(message) => sent(actions.drop_last()).push(message),
            _ => sent(actions.drop_last()),
        }
    }
}

/// The texts that the actions hand to the callback, in order.
pub open spec fn delivered<M>(actions: Seq<Action<M>>) -> Seq<String>
    decreases actions.len(),
{
    if actions.len() == 0 {
        Seq::empty()
    } else {
        match actions.last() {
            Action::Deliver(text) => delivered(actions.drop_last()).push(text),
            _ => delivered(actions.drop_last()),
        }
    }
}

} // verus!
