//! Serving connections: the acceptor, which hands out one connection at a time,
//! and the bridge, which negotiates with the client and then carries bytes
//! between the client and the wrapped program until one of them is done.
//!
//! Both are state machines that perform no input or output. Their driver does
//! what an action asks for and reports the outcome as the next event.

use crate::protocol::{wire, EventView, NegotiationVerb, TelnetEvent, TelnetOption};
use crate::telnet::{TelnetError, TelnetStream};
use vstd::prelude::*;

verus! {

/// The most bytes that one read of the program's output may deliver.
pub const READ_BUFFER_SIZE: usize = 256;

/// The number of negotiations that open a session.
pub const NEGOTIATIONS: u8 = 3;

/// A byte channel that can be both read and written without being pinned.
pub trait ReadableWritable: Unpin {

}

/// Why a bridge gave up. None of these is recovered from.
#[derive(Clone, Copy, Debug, PartialEq, Eq)]
pub enum BridgeError {
    /// The client's socket took a frame only in part.
    ShortWrite,
    /// Writing to the client's socket, or flushing it, failed.
    ClientSend,
    /// Writing to the program's input failed.
    ProcessWrite,
    /// Waiting for the program to exit failed.
    ChildWait,
    /// The driver reported something that the bridge had not asked for.
    OutOfTurn,
}

/// What a frame for the client is sent for.
#[derive(Clone, Copy, Debug, PartialEq, Eq)]
pub enum Purpose {
    /// The opening negotiation of this index.
    Negotiation(u8),
    /// Output of the program on its way to the client.
    Relay,
}

/// Where a bridge stands.
pub enum BridgeState {
    /// A frame of so many bytes was handed out to be written to the client.
    Sending(Purpose, nat),
    /// The frame was taken whole and the flush was asked for.
    Flushing(Purpose),
    /// The bridge waits for the program's output and for the client's next
    /// event, whichever comes first.
    Pumping,
    /// Data of the client is on its way to the program: these bytes are still
    /// to be written, and the first of them was handed out.
    Feeding(Seq<u8>),
    /// The pump has ended and the program's exit is waited for.
    AwaitingChild,
    Finished,
    Failed(BridgeError),
}

/// What the driver reports to a bridge.
#[derive(Debug)]
pub enum BridgeEvent {
    /// The client's socket took this many bytes of the frame.
    ClientWritten(usize),
    ClientWriteFailed,
    ClientFlushed,
    ClientFlushFailed,
    /// A read of the program's output delivered these bytes; none means that
    /// the output has ended.
    ProcessOutput(Vec<u8>),
    ProcessReadFailed,
    /// The client sent this payload.
    ClientData(Vec<u8>),
    /// The client sent an event that is no payload.
    ClientControl,
    /// The client's stream has ended.
    ClientClosed,
    /// The program's input took the byte.
    ProcessWritten,
    ProcessWriteFailed,
    ChildExited,
    ChildWaitFailed,
}

/// A `BridgeEvent` with its bytes as a sequence.
pub enum BridgeEventView {
    ClientWritten(nat),
    ClientWriteFailed,
    ClientFlushed,
    ClientFlushFailed,
    ProcessOutput(Seq<u8>),
    ProcessReadFailed,
    ClientData(Seq<u8>),
    ClientControl,
    ClientClosed,
    ProcessWritten,
    ProcessWriteFailed,
    ChildExited,
    ChildWaitFailed,
}

impl View for BridgeEvent {
    type V = BridgeEventView;

    open spec fn view(&self) -> BridgeEventView {
        match *self {
            BridgeEvent::ClientWritten(written) => BridgeEventView::ClientWritten(written as nat),
            BridgeEvent::ClientWriteFailed => BridgeEventView::ClientWriteFailed,
            BridgeEvent::ClientFlushed => BridgeEventView::ClientFlushed,
            BridgeEvent::ClientFlushFailed => BridgeEventView::ClientFlushFailed,
            BridgeEvent::ProcessOutput(chunk) => BridgeEventView::ProcessOutput(chunk@),
            BridgeEvent::ProcessReadFailed => BridgeEventView::ProcessReadFailed,
            BridgeEvent::ClientData(payload) => BridgeEventView::ClientData(payload@),
            BridgeEvent::ClientControl => BridgeEventView::ClientControl,
            BridgeEvent::ClientClosed => BridgeEventView::ClientClosed,
            BridgeEvent::ProcessWritten => BridgeEventView::ProcessWritten,
            BridgeEvent::ProcessWriteFailed => BridgeEventView::ProcessWriteFailed,
            BridgeEvent::ChildExited => BridgeEventView::ChildExited,
            BridgeEvent::ChildWaitFailed => BridgeEventView::ChildWaitFailed,
        }
    }
}

/// What a bridge asks its driver to do.
#[derive(Clone, Debug, PartialEq, Eq)]
pub enum BridgeAction {
    /// Write this frame to the client in one write and report how much of it
    /// was taken.
    WriteClient(Vec<u8>),
    /// Flush the client's socket.
    FlushClient,
    /// Wait for a read of at most this many bytes of the program's output and
    /// for the client's next event, and report the one that comes first.
    Poll(usize),
    /// Write this one byte to the program's input.
    WriteProcess(u8),
    /// Wait for the program to exit.
    AwaitChild,
    /// Nothing is left to do.
    Finished,
    /// Give the connection up.
    Abort(BridgeError),
}

/// A `BridgeAction` with its frame as a sequence.
pub enum BridgeActionView {
    WriteClient(Seq<u8>),
    FlushClient,
    Poll(usize),
    WriteProcess(u8),
    AwaitChild,
    Finished,
    Abort(BridgeError),
}

impl View for BridgeAction {
    type V = BridgeActionView;

    open spec fn view(&self) -> BridgeActionView {
        match *self {
            BridgeAction::WriteClient(frame) => BridgeActionView::WriteClient(frame@),
            BridgeAction::FlushClient => BridgeActionView::FlushClient,
            BridgeAction::Poll(limit) => BridgeActionView::Poll(limit),
            BridgeAction::WriteProcess(byte) => BridgeActionView::WriteProcess(byte),
            BridgeAction::AwaitChild => BridgeActionView::AwaitChild,
            BridgeAction::Finished => BridgeActionView::Finished,
            BridgeAction::Abort(error) => BridgeActionView::Abort(error),
        }
    }
}

/// The negotiations that open a session, in the order in which they are sent:
/// the offer to echo, the offer to suppress go-ahead, and the request that the
/// client report its window size.
pub open spec fn spec_negotiation(index: u8) -> Option<(NegotiationVerb, TelnetOption)> {
    if index == 0 {
        Some((NegotiationVerb::Will, TelnetOption::Echo))
    } else if index == 1 {
        Some((NegotiationVerb::Will, TelnetOption::SuppressGoAhead))
    } else if index == 2 {
        Some((NegotiationVerb::Do, TelnetOption::NegotiateAboutWindowSize))
    } else {
        None
    }
}

#[verifier::when_used_as_spec(spec_negotiation)]
pub fn negotiation(index: u8) -> (planned: Option<(NegotiationVerb, TelnetOption)>)
    ensures
        planned == spec_negotiation(index),
        planned is Some <==> index < NEGOTIATIONS,
{
    if index == 0 {
        Some((NegotiationVerb::Will, TelnetOption::Echo))
    } else if index == 1 {
        Some((NegotiationVerb::Will, TelnetOption::SuppressGoAhead))
    } else if index == 2 {
        Some((NegotiationVerb::Do, TelnetOption::NegotiateAboutWindowSize))
    } else {
        None
    }
}

/// The state and the action with which a bridge takes up the sending of the
/// negotiation of this index, or the pump where no such negotiation is
/// planned.
pub open spec fn open_with(index: u8) -> (BridgeState, BridgeActionView) {
    match spec_negotiation(index) {
        Some((verb, option)) => {
            let frame = wire(EventView::Negotiation(verb, option));
            (
                BridgeState::Sending(Purpose::Negotiation(index), frame.len()),
                BridgeActionView::WriteClient(frame),
            )
        },
        None => (BridgeState::Pumping, BridgeActionView::Poll(READ_BUFFER_SIZE)),
    }
}

/// The state and the action with which a bridge gives up.
pub open spec fn give_up(error: BridgeError) -> (BridgeState, BridgeActionView) {
    (BridgeState::Failed(error), BridgeActionView::Abort(error))
}

/// The state and the action with which a bridge goes back to waiting on both
/// sides.
pub open spec fn pump() -> (BridgeState, BridgeActionView) {
    (BridgeState::Pumping, BridgeActionView::Poll(READ_BUFFER_SIZE))
}

/// The state and the action with which a bridge leaves the pump.
pub open spec fn wind_up() -> (BridgeState, BridgeActionView) {
    (BridgeState::AwaitingChild, BridgeActionView::AwaitChild)
}

/// One step of a bridge: the state and the action that follow from a state and
/// an event.
///
/// A frame for the client is written, then judged, then flushed, and nothing
/// else happens in between. The negotiations go out first and in order. In the
/// pump, output of the program goes to the client as it is, a payload of the
/// client goes to the program byte by byte in the order of arrival, and any
/// other event of the client changes nothing. Output that has ended or cannot
/// be read, and a client whose stream has ended, end the pump; after it the
/// program's exit is waited for once. A frame taken in part, a failed write
/// or flush, a failed wait and an event out of turn are final.
pub open spec fn react(state: BridgeState, event: BridgeEventView) -> (BridgeState, BridgeActionView) {
    match state {
        BridgeState::Sending(purpose, expected) => match event {
            BridgeEventView::ClientWritten(written) => if written == expected {
                (BridgeState::Flushing(purpose), BridgeActionView::FlushClient)
            } else {
                give_up(BridgeError::ShortWrite)
            },
            BridgeEventView::ClientWriteFailed => give_up(BridgeError::ClientSend),
            _ => give_up(BridgeError::OutOfTurn),
        },
        BridgeState::Flushing(purpose) => match event {
            BridgeEventView::ClientFlushed => match purpose {
                Purpose::Negotiation(index) => if index < NEGOTIATIONS {
                    open_with((index + 1) as u8)
                } else {
                    pump()
                },
                Purpose::Relay => pump(),
            },
            BridgeEventView::ClientFlushFailed => give_up(BridgeError::ClientSend),
            _ => give_up(BridgeError::OutOfTurn),
        },
        BridgeState::Pumping => match event {
            BridgeEventView::ProcessOutput(chunk) => if chunk.len() == 0 {
                wind_up()
            } else {
                (
                    BridgeState::Sending(Purpose::Relay, chunk.len()),
                    BridgeActionView::WriteClient(wire(EventView::Data(chunk))),
                )
            },
            BridgeEventView::ProcessReadFailed => wind_up(),
            BridgeEventView::ClientData(payload) => if payload.len() == 0 {
                pump()
            } else {
                (BridgeState::Feeding(payload), BridgeActionView::WriteProcess(payload[0]))
            },
            BridgeEventView::ClientControl => pump(),
            BridgeEventView::ClientClosed => wind_up(),
            _ => give_up(BridgeError::OutOfTurn),
        },
        BridgeState::Feeding(remaining) => match event {
            BridgeEventView::ProcessWritten => if remaining.len() <= 1 {
                pump()
            } else {
                (
                    BridgeState::Feeding(remaining.skip(1)),
                    BridgeActionView::WriteProcess(remaining[1]),
                )
            },
            BridgeEventView::ProcessWriteFailed => give_up(BridgeError::ProcessWrite),
            _ => give_up(BridgeError::OutOfTurn),
        },
        BridgeState::AwaitingChild => match event {
            BridgeEventView::ChildExited => (BridgeState::Finished, BridgeActionView::Finished),
            BridgeEventView::ChildWaitFailed => give_up(BridgeError::ChildWait),
            _ => give_up(BridgeError::OutOfTurn),
        },
        BridgeState::Finished => (BridgeState::Finished, BridgeActionView::Finished),
        BridgeState::Failed(error) => give_up(error),
    }
}

/// The actions that a bridge asks for, one for each of `events` in turn, when
/// it starts in `state`.
pub open spec fn actions(state: BridgeState, events: Seq<BridgeEventView>) -> Seq<BridgeActionView>
    decreases events.len(),
{
    if events.len() == 0 {
        Seq::empty()
    } else {
        let (next, action) = react(state, events[0]);
        seq![action] + actions(next, events.drop_first())
    }
}

/// Whether the pump is over: the bridge waits for the program to exit, or is
/// finished, or has given up.
pub open spec fn pump_over(state: BridgeState) -> bool {
    state is AwaitingChild || state is Finished || state is Failed
}

/// Once the pump is over it stays over: whatever is reported from then on, the
/// bridge asks for no read, no write and no second wait for the program. Every
/// action is the end or the giving up.
pub proof fn lemma_pump_stays_over(state: BridgeState, events: Seq<BridgeEventView>)
    requires
        pump_over(state),
    ensures
        actions(state, events).len() == events.len(),
        forall|i: int|
            0 <= i < events.len() ==> {
                let action = #[trigger] actions(state, events)[i];
                action is Finished || action is Abort
            },
    decreases events.len(),
{
    if events.len() > 0 {
        let (next, action) = react(state, events[0]);
        let later = events.drop_first();
        lemma_pump_stays_over(next, later);
        assert forall|i: int| 0 <= i < events.len() implies {
            let action = #[trigger] actions(state, events)[i];
            action is Finished || action is Abort
        } by {
            if i > 0 {
                assert(actions(state, events)[i] == actions(next, later)[i - 1]);
            }
        }
    }
}

/// A read of the program's output that delivers nothing and the end of the
/// client's stream each end the pump at once: the bridge asks for the wait for
/// the program, and whatever is reported after that, it never asks for a read
/// again, nor for a second wait.
pub proof fn lemma_end_of_stream(later: Seq<BridgeEventView>)
    ensures
        react(BridgeState::Pumping, BridgeEventView::ProcessOutput(Seq::empty())) == wind_up(),
        react(BridgeState::Pumping, BridgeEventView::ClientClosed) == wind_up(),
        forall|i: int|
            0 <= i < later.len() ==> {
                let action = #[trigger] actions(wind_up().0, later)[i];
                !(action is Poll) && !(action is AwaitChild)
            },
{
    lemma_pump_stays_over(wind_up().0, later);
}

/// The part of a bridge's state that holds no bytes.
#[derive(Clone, Copy, Debug, PartialEq, Eq)]
enum Phase {
    Sending(Purpose),
    Flushing(Purpose),
    Pumping,
    Feeding,
    AwaitingChild,
    Finished,
    Failed(BridgeError),
}

/// The bridge of one connection.
pub struct Bridge<Accessor> {
    telnet: TelnetStream<Accessor>,
    phase: Phase,
    /// The length of the frame that is being written to the client.
    expected: usize,
    /// The payload that is being fed to the program, and how much of it the
    /// program has taken.
    feed: Vec<u8>,
    fed: usize,
}

impl<Accessor> Bridge<Accessor> {
    /// Where the bridge stands.
    pub closed spec fn state(&self) -> BridgeState {
        match self.phase {
            Phase::Sending(purpose) => BridgeState::Sending(purpose, self.expected as nat),
            Phase::Flushing(purpose) => BridgeState::Flushing(purpose),
            Phase::Pumping => BridgeState::Pumping,
            Phase::Feeding => BridgeState::Feeding(
                if self.fed < self.feed.len() {
                    self.feed@.skip(self.fed as int)
                } else {
                    Seq::empty()
                },
            ),
            Phase::AwaitingChild => BridgeState::AwaitingChild,
            Phase::Finished => BridgeState::Finished,
            Phase::Failed(error) => BridgeState::Failed(error),
        }
    }

    /// The telnet stream of the client.
    pub closed spec fn telnet(&self) -> TelnetStream<Accessor> {
        self.telnet
    }

    /// Lends the telnet stream, for the driver to read events from and to
    /// reach the accessor. The bridge stays where it stands.
    pub fn telnet_mut(&mut self) -> (telnet: &mut TelnetStream<Accessor>)
        ensures
            *telnet == old(self).telnet(),
            final(self).telnet() == *final(telnet),
            final(self).state() == old(self).state(),
    {
        &mut self.telnet
    }

    /// Gives the telnet stream back when the bridge is no longer needed.
    pub fn into_telnet(self) -> (telnet: TelnetStream<Accessor>)
        ensures
            telnet == self.telnet(),
    {
        self.telnet
    }

    fn open(&mut self, index: u8) -> (action: BridgeAction)
        ensures
            (final(self).state(), action@) == open_with(index),
            final(self).telnet() == old(self).telnet(),
    {
        match negotiation(index) {
            Some((verb, option)) => {
                let frame = self.telnet.send_event(TelnetEvent::Negotiation(verb, option));
                self.phase = Phase::Sending(Purpose::Negotiation(index));
                self.expected = frame.len();
                BridgeAction::WriteClient(frame)
            },
            None => {
                self.phase = Phase::Pumping;
                BridgeAction::Poll(READ_BUFFER_SIZE)
            },
        }
    }

    fn fail(&mut self, error: BridgeError) -> (action: BridgeAction)
        ensures
            (final(self).state(), action@) == give_up(error),
            final(self).telnet() == old(self).telnet(),
    {
        self.phase = Phase::Failed(error);
        BridgeAction::Abort(error)
    }

    fn resume(&mut self) -> (action: BridgeAction)
        ensures
            (final(self).state(), action@) == pump(),
            final(self).telnet() == old(self).telnet(),
    {
        self.phase = Phase::Pumping;
        BridgeAction::Poll(READ_BUFFER_SIZE)
    }

    fn finish_pump(&mut self) -> (action: BridgeAction)
        ensures
            (final(self).state(), action@) == wind_up(),
            final(self).telnet() == old(self).telnet(),
    {
        self.phase = Phase::AwaitingChild;
        BridgeAction::AwaitChild
    }

    /// Takes one step, as `react` describes it. The telnet stream is not
    /// touched.
    pub fn step(&mut self, event: BridgeEvent) -> (action: BridgeAction)
        ensures
            (final(self).state(), action@) == react(old(self).state(), event@),
            final(self).telnet() == old(self).telnet(),
    {
        match self.phase {
            Phase::Sending(purpose) => match event {
                BridgeEvent::ClientWritten(written) => {
                    match self.telnet.check_written(self.expected, written) {
                        Ok(()) => {
                            self.phase = Phase::Flushing(purpose);
                            BridgeAction::FlushClient
                        },
                        Err(TelnetError::ShortWrite) => self.fail(BridgeError::ShortWrite),
                    }
                },
                BridgeEvent::ClientWriteFailed => self.fail(BridgeError::ClientSend),
                _ => self.fail(BridgeError::OutOfTurn),
            },
            Phase::Flushing(purpose) => match event {
                BridgeEvent::ClientFlushed => match purpose {
                    Purpose::Negotiation(index) => if index < NEGOTIATIONS {
                        self.open(index + 1)
                    } else {
                        self.resume()
                    },
                    Purpose::Relay => self.resume(),
                },
                BridgeEvent::ClientFlushFailed => self.fail(BridgeError::ClientSend),
                _ => self.fail(BridgeError::OutOfTurn),
            },
            Phase::Pumping => match event {
                BridgeEvent::ProcessOutput(chunk) => {
                    if chunk.len() == 0 {
                        self.finish_pump()
                    } else {
                        let frame = self.telnet.send_data(chunk.as_slice());
                        self.phase = Phase::Sending(Purpose::Relay);
                        self.expected = frame.len();
                        BridgeAction::WriteClient(frame)
                    }
                },
                BridgeEvent::ProcessReadFailed => self.finish_pump(),
                BridgeEvent::ClientData(payload) => {
                    if payload.len() == 0 {
                        self.resume()
                    } else {
                        let first: u8 = payload[0];
                        self.feed = payload;
                        self.fed = 0;
                        self.phase = Phase::Feeding;
                        assert(self.feed@.skip(0) =~= self.feed@);
                        BridgeAction::WriteProcess(first)
                    }
                },
                BridgeEvent::ClientControl => self.resume(),
                BridgeEvent::ClientClosed => self.finish_pump(),
                _ => self.fail(BridgeError::OutOfTurn),
            },
            Phase::Feeding => match event {
                BridgeEvent::ProcessWritten => {
                    if self.fed < self.feed.len() && self.feed.len() - self.fed > 1 {
                        let ghost before = self.feed@.skip(self.fed as int);
                        self.fed = self.fed + 1;
                        let next: u8 = self.feed[self.fed];
                        assert(self.feed@.skip(self.fed as int) =~= before.skip(1));
                        BridgeAction::WriteProcess(next)
                    } else {
                        self.resume()
                    }
                },
                BridgeEvent::ProcessWriteFailed => self.fail(BridgeError::ProcessWrite),
                _ => self.fail(BridgeError::OutOfTurn),
            },
            Phase::AwaitingChild => match event {
                BridgeEvent::ChildExited => {
                    self.phase = Phase::Finished;
                    BridgeAction::Finished
                },
                BridgeEvent::ChildWaitFailed => self.fail(BridgeError::ChildWait),
                _ => self.fail(BridgeError::OutOfTurn),
            },
            Phase::Finished => BridgeAction::Finished,
            Phase::Failed(error) => BridgeAction::Abort(error),
        }
    }
}

/// Takes up a client: makes the telnet stream of the connection and opens the
/// session with the first negotiation.
pub fn handle_client<Accessor>(accessor: Accessor) -> (started: (Bridge<Accessor>, BridgeAction))
    ensures
        (started.0.state(), started.1@) == open_with(0),
        started.0.telnet().accessor() == accessor,
        started.0.telnet().pending() == Seq::<u8>::empty(),
{
    let mut bridge = Bridge {
        telnet: TelnetStream::from_accessor(accessor),
        phase: Phase::Pumping,
        expected: 0,
        feed: Vec::new(),
        fed: 0,
    };
    let action = bridge.open(0);
    (bridge, action)
}

/// Why an acceptor stopped.
#[derive(Clone, Copy, Debug, PartialEq, Eq)]
pub enum ServerError {
    /// A connection could not be accepted.
    AcceptFailed,
    /// The driver reported something that the acceptor had not asked for.
    OutOfTurn,
}

/// Where an acceptor stands.
#[derive(Clone, Copy, Debug, PartialEq, Eq)]
pub enum ServerState {
    /// Made and not yet started.
    Idle,
    /// No connection is alive and the next one is waited for.
    Accepting,
    /// One connection is alive: its handler runs.
    Serving,
    Stopped(ServerError),
}

/// What the driver reports to an acceptor.
#[derive(Debug)]
pub enum ServerEvent<Connection> {
    Started,
    Accepted(Connection),
    AcceptFailed,
    /// The handler of the connection that was handed out has returned.
    Served,
}

/// What an acceptor asks its driver to do.
pub enum ServerAction<Connection> {
    /// Accept a connection.
    Accept,
    /// Run the handler on this connection and wait until it returns.
    Serve(ReverseCallback<Connection>),
    /// Stop serving.
    Abort(ServerError),
}

/// A `ServerAction` with the connection itself in place of its handle.
pub enum ServerActionView<Connection> {
    Accept,
    Serve(Connection),
    Abort(ServerError),
}

impl<Connection> View for ServerAction<Connection> {
    type V = ServerActionView<Connection>;

    open spec fn view(&self) -> ServerActionView<Connection> {
        match *self {
            ServerAction::Accept => ServerActionView::Accept,
            ServerAction::Serve(callback) => ServerActionView::Serve(callback.connection()),
            ServerAction::Abort(error) => ServerActionView::Abort(error),
        }
    }
}

/// One step of an acceptor: the state and the action that follow from a state
/// and an event.
///
/// A connection is accepted only while none is alive, and it is handed out at
/// once. The next one is accepted when its handler has returned. A connection
/// that cannot be accepted stops the acceptor, and so does an event out of
/// turn; a stopped acceptor stays stopped.
pub open spec fn serve<Connection>(state: ServerState, event: ServerEvent<Connection>) -> (
    ServerState,
    ServerActionView<Connection>,
) {
    match state {
        ServerState::Idle => match event {
            ServerEvent::Started => (ServerState::Accepting, ServerActionView::Accept),
            _ => halt(ServerError::OutOfTurn),
        },
        ServerState::Accepting => match event {
            ServerEvent::Accepted(connection) => (
                ServerState::Serving,
                ServerActionView::Serve(connection),
            ),
            ServerEvent::AcceptFailed => halt(ServerError::AcceptFailed),
            _ => halt(ServerError::OutOfTurn),
        },
        ServerState::Serving => match event {
            ServerEvent::Served => (ServerState::Accepting, ServerActionView::Accept),
            _ => halt(ServerError::OutOfTurn),
        },
        ServerState::Stopped(error) => halt(error),
    }
}

/// The state and the action with which an acceptor stops.
pub open spec fn halt<Connection>(error: ServerError) -> (
    ServerState,
    ServerActionView<Connection>,
) {
    (ServerState::Stopped(error), ServerActionView::Abort(error))
}

/// At most one connection is alive: one is handed out only by an acceptor that
/// is serving none, and an acceptor that is serving one asks for the next only
/// when the handler has returned.
pub proof fn lemma_one_connection<Connection>(state: ServerState, event: ServerEvent<Connection>)
    ensures
        serve(state, event).1 is Serve ==> state is Accepting && serve(state, event).0 is Serving,
        state is Serving && serve(state, event).1 is Accept ==> event is Served,
        state is Serving ==> !(serve(state, event).1 is Serve),
{
}

/// An accepted connection, to be taken up exactly once.
pub struct ReverseCallback<Connection> {
    connection: Connection,
}

impl<Connection> ReverseCallback<Connection> {
    /// The connection that the handle stands for.
    pub closed spec fn connection(&self) -> Connection {
        self.connection
    }

    fn new(connection: Connection) -> (callback: Self)
        ensures
            callback.connection() == connection,
    {
        ReverseCallback { connection }
    }

    /// Takes the connection up: the handle is used up, and the bridge of the
    /// connection opens the session.
    pub fn call(self) -> (started: (Bridge<Connection>, BridgeAction))
        ensures
            (started.0.state(), started.1@) == open_with(0),
            started.0.telnet().accessor() == self.connection(),
            started.0.telnet().pending() == Seq::<u8>::empty(),
    {
        handle_client(self.connection)
    }
}

/// The acceptor of a listening socket, which is carried along and never used
/// here.
pub struct TelnetServer<Listener> {
    listener: Listener,
    state: ServerState,
}

impl<Listener> TelnetServer<Listener> {
    /// Where the acceptor stands.
    pub closed spec fn state(&self) -> ServerState {
        self.state
    }

    /// The socket that the acceptor was made of.
    pub closed spec fn listener(&self) -> Listener {
        self.listener
    }

    /// Makes the acceptor of a socket that is bound and listening.
    pub fn new(listener: Listener) -> (server: Self)
        ensures
            server.state() == ServerState::Idle,
            server.listener() == listener,
    {
        TelnetServer { listener, state: ServerState::Idle }
    }

    /// Lends the socket, for the driver to accept on.
    pub fn listener_mut(&mut self) -> (listener: &mut Listener)
        ensures
            *listener == old(self).listener(),
            final(self).listener() == *final(listener),
            final(self).state() == old(self).state(),
    {
        &mut self.listener
    }

    /// Takes one step, as `serve` describes it.
    pub fn listen<Connection>(&mut self, event: ServerEvent<Connection>) -> (action: ServerAction<
        Connection,
    >)
        ensures
            (final(self).state(), action@) == serve(old(self).state(), event),
            final(self).listener() == old(self).listener(),
    {
        match self.state {
            ServerState::Idle => match event {
                ServerEvent::Started => {
                    self.state = ServerState::Accepting;
                    ServerAction::Accept
                },
                _ => self.stop(ServerError::OutOfTurn),
            },
            ServerState::Accepting => match event {
                ServerEvent::Accepted(connection) => {
                    self.state = ServerState::Serving;
                    ServerAction::Serve(ReverseCallback::new(connection))
                },
                ServerEvent::AcceptFailed => self.stop(ServerError::AcceptFailed),
                _ => self.stop(ServerError::OutOfTurn),
            },
            ServerState::Serving => match event {
                ServerEvent::Served => {
                    self.state = ServerState::Accepting;
                    ServerAction::Accept
                },
                _ => self.stop(ServerError::OutOfTurn),
            },
            ServerState::Stopped(error) => ServerAction::Abort(error),
        }
    }

    fn stop<Connection>(&mut self, error: ServerError) -> (action: ServerAction<Connection>)
        ensures
            (final(self).state(), action@) == halt::<Connection>(error),
            final(self).listener() == old(self).listener(),
    {
        self.state = ServerState::Stopped(error);
        ServerAction::Abort(error)
    }
}

} // verus!
