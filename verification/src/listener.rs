//! The single-instance coordinator: what a starting launcher does about the
//! activation address, and what the listening launcher does per connection.
//!
//! The coordinator is a state machine. The caller performs the commands of
//! each step in order and reports what happened as the next event.

use vstd::prelude::*;

verus! {

/// Where the coordinator stands.
#[derive(Debug, Clone, Copy, PartialEq, Eq, Structural)]
pub enum Coordinator {
    /// Nothing is known yet about the activation address.
    Starting,
    /// The address is in use; a connection to its owner is being tried.
    Connecting,
    /// This process owns the address and accepts connections.
    Listening,
    /// This process has been told to exit.
    Finished,
}

/// What the caller observed.
#[derive(Debug, Clone, Copy, PartialEq, Eq, Structural)]
pub enum Event {
    /// The address was looked up; `present` tells whether it is in use.
    AddressChecked { present: bool },
    /// The connection to the owner of the address succeeded.
    Connected,
    /// The connection failed: nobody listens on the address.
    ConnectFailed,
    /// A client connected to this process.
    ConnectionAccepted,
    /// A connection could not be accepted.
    AcceptFailed,
}

/// What the caller has to do.
#[derive(Debug, Clone, Copy, PartialEq, Eq, Structural)]
pub enum Command {
    /// Connect to the address as a client.
    Connect,
    /// Send the empty activation ping over the connection.
    SendPing,
    /// Remove the artifact of an address that nobody listens on.
    RemoveStaleAddress,
    /// Start a fresh instance of the launcher.
    LaunchInstance,
    /// Remove whatever is left at the address, if anything.
    RemoveLeftover,
    /// Bind the address and start accepting connections.
    Bind,
    /// Answer the client with the acknowledgement.
    Acknowledge,
    /// Show and raise the main window.
    ShowWindow,
    /// Tell the interface's subscribers that the window should show.
    NotifyWindowShow,
    /// Terminate the process with this status.
    Exit { status: u8 },
}

/// The state after `event` arrives in `state`. An event that the state does
/// not wait for changes nothing.
pub open spec fn next_state(state: Coordinator, event: Event) -> Coordinator {
    match (state, event) {
        (Coordinator::Starting, Event::AddressChecked { present: true }) => Coordinator::Connecting,
        (Coordinator::Starting, Event::AddressChecked { present: false }) => Coordinator::Listening,
        (Coordinator::Connecting, Event::Connected) => Coordinator::Finished,
        (Coordinator::Connecting, Event::ConnectFailed) => Coordinator::Finished,
        (Coordinator::Listening, Event::ConnectionAccepted) => Coordinator::Listening,
        (Coordinator::Listening, Event::AcceptFailed) => Coordinator::Finished,
        _ => state,
    }
}

/// What has to be done when `event` arrives in `state`, in order. An event
/// that the state does not wait for asks for nothing.
pub open spec fn commands(state: Coordinator, event: Event) -> Seq<Command> {
    match (state, event) {
        (Coordinator::Starting, Event::AddressChecked { present: true }) => seq![Command::Connect],
        (Coordinator::Starting, Event::AddressChecked { present: false }) => seq![
            Command::RemoveLeftover,
            Command::Bind,
        ],
        (Coordinator::Connecting, Event::Connected) => seq![
            Command::SendPing,
            Command::Exit { status: 0 },
        ],
        (Coordinator::Connecting, Event::ConnectFailed) => seq![
            Command::RemoveStaleAddress,
            Command::LaunchInstance,
            Command::Exit { status: 0 },
        ],
        (Coordinator::Listening, Event::ConnectionAccepted) => seq![
            Command::Acknowledge,
            Command::ShowWindow,
            Command::NotifyWindowShow,
        ],
        (Coordinator::Listening, Event::AcceptFailed) => seq![Command::Exit { status: 1 }],
        _ => Seq::empty(),
    }
}

/// The state after a run of events, starting from `state`.
pub open spec fn run(state: Coordinator, events: Seq<Event>) -> Coordinator
    decreases events.len(),
{
    if events.len() == 0 {
        state
    } else {
        next_state(run(state, events.drop_last()), events.last())
    }
}

/// Every command that a run of events asks for, in order.
pub open spec fn run_commands(state: Coordinator, events: Seq<Event>) -> Seq<Command>
    decreases events.len(),
{
    if events.len() == 0 {
        Seq::empty()
    } else {
        run_commands(state, events.drop_last()) + commands(
            run(state, events.drop_last()),
            events.last(),
        )
    }
}

impl Coordinator {
    /// The coordinator of a process that has just started.
    pub fn new() -> (c: Coordinator)
        ensures
            c == Coordinator::Starting,
    {
        Coordinator::Starting
    }

    /// Takes `event` in: moves to the next state and returns what has to be
    /// done, in order.
    pub fn step(&mut self, event: Event) -> (out: Vec<Command>)
        ensures
            *final(self) == next_state(*old(self), event),
            out@ == commands(*old(self), event),
    {
        let mut out: Vec<Command> = Vec::new();
        match (*self, event) {
            (Coordinator::Starting, Event::AddressChecked { present }) => {
                if present {
                    out.push(Command::Connect);
                    *self = Coordinator::Connecting;
                } else {
                    out.push(Command::RemoveLeftover);
                    out.push(Command::Bind);
                    *self = Coordinator::Listening;
                }
            },
            (Coordinator::Connecting, Event::Connected) => {
                out.push(Command::SendPing);
                out.push(Command::Exit { status: 0 });
                *self = Coordinator::Finished;
            },
            (Coordinator::Connecting, Event::ConnectFailed) => {
                out.push(Command::RemoveStaleAddress);
                out.push(Command::LaunchInstance);
                out.push(Command::Exit { status: 0 });
                *self = Coordinator::Finished;
            },
            (Coordinator::Listening, Event::ConnectionAccepted) => {
                out.push(Command::Acknowledge);
                out.push(Command::ShowWindow);
                out.push(Command::NotifyWindowShow);
            },
            (Coordinator::Listening, Event::AcceptFailed) => {
                out.push(Command::Exit { status: 1 });
                *self = Coordinator::Finished;
            },
            _ => {},
        }
        assert(out@ =~= commands(*old(self), event));
        out
    }
}

/// After its first address check the coordinator has left its starting state
/// for good.
pub proof fn lemma_started(events: Seq<Event>)
    requires
        events.len() > 0,
        events[0] is AddressChecked,
    ensures
        run(Coordinator::Starting, events) != Coordinator::Starting,
    decreases events.len(),
{
    let before = events.drop_last();
    if before.len() == 0 {
        assert(run(Coordinator::Starting, before) == Coordinator::Starting);
        assert(events.last() == events[0]);
    } else {
        assert(before[0] == events[0]);
        lemma_started(before);
    }
}

/// A process that finds the address in use never binds it, whatever happens
/// afterwards: the address has at most one listener.
pub proof fn lemma_client_never_binds(events: Seq<Event>)
    requires
        events.len() > 0,
        events[0] == (Event::AddressChecked { present: true }),
    ensures
        !run_commands(Coordinator::Starting, events).contains(Command::Bind),
        run(Coordinator::Starting, events) != Coordinator::Listening,
    decreases events.len(),
{
    let start = Coordinator::Starting;
    let before = events.drop_last();
    if before.len() == 0 {
        assert(run(start, before) == start);
        assert(run_commands(start, before) =~= Seq::<Command>::empty());
        assert(events.last() == events[0]);
        assert(run_commands(start, events) =~= seq![Command::Connect]);
    } else {
        assert(before[0] == events[0]);
        lemma_client_never_binds(before);
        lemma_started(before);
        let earlier = run_commands(start, before);
        let latest = commands(run(start, before), events.last());
        let all = earlier + latest;
        if all.contains(Command::Bind) {
            let i = choose|i: int| 0 <= i < all.len() && all[i] == Command::Bind;
            if i < earlier.len() {
                assert(earlier[i] == Command::Bind);
            } else {
                assert(latest[i - earlier.len()] == Command::Bind);
            }
        }
    }
}

/// The listening process exits only when a connection cannot be accepted,
/// and then with status 1.
pub proof fn lemma_listener_exit(event: Event)
    ensures
        next_state(Coordinator::Listening, event) == Coordinator::Finished <==> event
            == Event::AcceptFailed,
        event == Event::AcceptFailed ==> commands(Coordinator::Listening, event) == seq![
            Command::Exit { status: 1 },
        ],
{
}

} // verus!
